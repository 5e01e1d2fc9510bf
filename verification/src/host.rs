//! What a program asks of the host: instructions for other programs, and the
//! proof of authority that accompanies them.

use vstd::prelude::*;
use crate::derivation::Tag;
use crate::pubkey::Pubkey;

verus! {

/// One account named by an instruction.
#[derive(Clone, Copy, Debug, PartialEq, Eq)]
pub struct AccountMeta {
    /// Address of the account.
    pub pubkey: Pubkey,
    /// Whether the instruction carries the account's authorization.
    pub is_signer: bool,
    /// Whether the instruction may change the account.
    pub is_writable: bool,
}

/// What an `AccountMeta` holds, as mathematical values.
pub struct AccountMetaView {
    pub pubkey: Seq<u8>,
    pub is_signer: bool,
    pub is_writable: bool,
}

impl View for AccountMeta {
    type V = AccountMetaView;

    open spec fn view(&self) -> AccountMetaView {
        AccountMetaView {
            pubkey: self.pubkey@,
            is_signer: self.is_signer,
            is_writable: self.is_writable,
        }
    }
}

/// A request to a program.
#[derive(Clone, Debug, PartialEq, Eq)]
pub struct Instruction {
    /// The program that carries out the request.
    pub program_id: Pubkey,
    /// The accounts that the program is handed, in order.
    pub accounts: Vec<AccountMeta>,
    /// The payload, which the program decodes.
    pub data: Vec<u8>,
}

/// What an `Instruction` holds, as mathematical values.
pub struct InstructionView {
    pub program_id: Seq<u8>,
    pub accounts: Seq<AccountMetaView>,
    pub data: Seq<u8>,
}

impl View for Instruction {
    type V = InstructionView;

    open spec fn view(&self) -> InstructionView {
        InstructionView {
            program_id: self.program_id@,
            accounts: Seq::new(self.accounts@.len(), |i: int| self.accounts@[i]@),
            data: self.data@,
        }
    }
}

/// The proof of authority over a derived address: the seeds it was derived
/// from. The host derives the address again from them and from the identity
/// of the program that presents them, and accepts the proof in place of a
/// signature when it arrives at the address that the instruction names.
#[derive(Clone, Copy, Debug, PartialEq, Eq)]
pub struct CapabilityProof {
    pub tag: Tag,
    pub owner: Pubkey,
    pub bump: u8,
}

/// What a `CapabilityProof` holds, as mathematical values.
pub struct CapabilityProofView {
    pub tag: Tag,
    pub owner: Seq<u8>,
    pub bump: u8,
}

impl View for CapabilityProof {
    type V = CapabilityProofView;

    open spec fn view(&self) -> CapabilityProofView {
        CapabilityProofView { tag: self.tag, owner: self.owner@, bump: self.bump }
    }
}

impl CapabilityProofView {
    /// The seeds presented to the host: the tag's seed, the owner's identity
    /// and the bump seed.
    pub open spec fn seeds(self) -> Seq<Seq<u8>> {
        seq![self.tag.seed(), self.owner, seq![self.bump]]
    }
}

impl CapabilityProof {
    /// The seeds presented to the host, in order.
    pub fn seeds(&self) -> (seeds: Vec<Vec<u8>>)
        ensures
            seeds.deep_view() == self@.seeds(),
    {
        let tag = self.tag.seed_bytes();
        let mut seeds: Vec<Vec<u8>> = Vec::new();
        seeds.push(vstd::slice::slice_to_vec(tag.as_slice()));
        seeds.push(vstd::slice::slice_to_vec(self.owner.bytes.as_slice()));
        let mut bump: Vec<u8> = Vec::new();
        bump.push(self.bump);
        seeds.push(bump);
        assert(seeds.deep_view() =~~= self@.seeds());
        seeds
    }
}

/// The instruction that `solana_program` builds to ask the host's account
/// facility for the account `to`, with `space` bytes of storage, funded with
/// `lamports` by `from` and controlled by `owner`.
pub uninterp spec fn create_account_instruction(
    from: Seq<u8>,
    to: Seq<u8>,
    lamports: u64,
    space: u64,
    owner: Seq<u8>,
) -> InstructionView;

/// Calls `solana_program::system_instruction::create_account`, which builds
/// an instruction from its five arguments and from nothing else.
#[verifier::external_body]
pub(crate) fn create_account(
    from: &Pubkey,
    to: &Pubkey,
    lamports: u64,
    space: u64,
    owner: &Pubkey,
) -> (instruction: Instruction)
    ensures
        instruction@ == create_account_instruction(from@, to@, lamports, space, owner@),
{
    let from = solana_program::pubkey::Pubkey::new_from_array(from.bytes);
    let to = solana_program::pubkey::Pubkey::new_from_array(to.bytes);
    let owner = solana_program::pubkey::Pubkey::new_from_array(owner.bytes);
    let made =
        solana_program::system_instruction::create_account(&from, &to, lamports, space, &owner);
    let accounts = made.accounts.iter().map(|meta| AccountMeta {
        pubkey: Pubkey { bytes: meta.pubkey.to_bytes() },
        is_signer: meta.is_signer,
        is_writable: meta.is_writable,
    }).collect();
    let program_id = Pubkey { bytes: made.program_id.to_bytes() };
    Instruction { program_id, accounts, data: made.data }
}

} // verus!
