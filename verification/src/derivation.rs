//! Derived addresses. The address of a record account is computed from a
//! namespace tag, the identity of the owner and the identity of the program
//! that controls the derivation. Nothing is stored: the address is computed
//! again at every use, and whoever presents the seeds of an address is taken
//! by the host to be its deriver.

use vstd::prelude::*;
use crate::pubkey::Pubkey;

verus! {

/// The namespace of a derived address: one per kind of record.
#[derive(Clone, Copy, Debug, PartialEq, Eq, Structural)]
pub enum Tag {
    Address,
    Profile,
}

impl Tag {
    /// The seed of the namespace: the ASCII bytes of `address` or of
    /// `profile`.
    pub open spec fn seed(self) -> Seq<u8> {
        match self {
            Tag::Address => seq![97u8, 100u8, 100u8, 114u8, 101u8, 115u8, 115u8],
            Tag::Profile => seq![112u8, 114u8, 111u8, 102u8, 105u8, 108u8, 101u8],
        }
    }

    /// The seed of the namespace, as bytes.
    pub fn seed_bytes(self) -> (bytes: [u8; 7])
        ensures
            bytes@ == self.seed(),
    {
        match self {
            Tag::Address => [97u8, 100u8, 100u8, 114u8, 101u8, 115u8, 115u8],
            Tag::Profile => [112u8, 114u8, 111u8, 102u8, 105u8, 108u8, 101u8],
        }
    }
}

/// The address and the bump seed that `solana_program` finds for the seeds
/// `tag` and `owner` under the program `program_id`, if it finds one.
pub uninterp spec fn program_address(tag: Seq<u8>, owner: Seq<u8>, program_id: Seq<u8>) -> Option<
    (Seq<u8>, u8),
>;

/// Calls `solana_program::pubkey::Pubkey::try_find_program_address` with the
/// two seeds `tag` and `owner`. The search hashes the seeds, a bump seed and
/// the program's identity, and depends on nothing else; it gives `None` when
/// no bump seed yields an address or when a seed is too long.
#[verifier::external_body]
pub(crate) fn find_program_address(tag: &[u8], owner: &Pubkey, program_id: &Pubkey) -> (found:
    Option<(Pubkey, u8)>)
    ensures
        found is Some <==> program_address(tag@, owner@, program_id@) is Some,
        found matches Some((address, bump)) ==> program_address(tag@, owner@, program_id@) == Some(
            (address@, bump),
        ),
{
    let program = solana_program::pubkey::Pubkey::new_from_array(program_id.bytes);
    let seeds: [&[u8]; 2] = [tag, &owner.bytes];
    match solana_program::pubkey::Pubkey::try_find_program_address(&seeds, &program) {
        Some((address, bump)) => Some((Pubkey { bytes: address.to_bytes() }, bump)),
        None => None,
    }
}

/// The address derived for `owner` in the namespace `tag` under the
/// controller `controller`, with its bump seed.
pub open spec fn derived(tag: Tag, owner: Seq<u8>, controller: Seq<u8>) -> Option<(Seq<u8>, u8)> {
    program_address(tag.seed(), owner, controller)
}

/// Whether `candidate` is the address derived for `owner` in the namespace
/// `tag` under `controller`.
pub open spec fn is_derived(
    candidate: Seq<u8>,
    tag: Tag,
    owner: Seq<u8>,
    controller: Seq<u8>,
) -> bool {
    derived(tag, owner, controller) matches Some((address, _)) && address == candidate
}

/// Derives the address of the record of `owner` in the namespace `tag`. The
/// result depends on the three arguments alone.
pub fn derive(tag: Tag, owner: &Pubkey, controller: &Pubkey) -> (found: Option<(Pubkey, u8)>)
    ensures
        match found {
            Some((address, bump)) => derived(tag, owner@, controller@) == Some((address@, bump)),
            None => derived(tag, owner@, controller@) is None,
        },
{
    let seed = tag.seed_bytes();
    find_program_address(seed.as_slice(), owner, controller)
}

/// Derives the address again and compares it with `candidate`.
pub fn verify(candidate: &Pubkey, tag: Tag, owner: &Pubkey, controller: &Pubkey) -> (ok: bool)
    ensures
        ok == is_derived(candidate@, tag, owner@, controller@),
{
    match derive(tag, owner, controller) {
        Some((address, _)) => address == *candidate,
        None => false,
    }
}

/// Two derivations from the same tag, owner and controller yield the same
/// address and the same bump seed.
pub proof fn lemma_derivation_is_deterministic(
    tag: Tag,
    owner: Seq<u8>,
    controller: Seq<u8>,
    other_tag: Tag,
    other_owner: Seq<u8>,
    other_controller: Seq<u8>,
)
    requires
        tag == other_tag,
        owner == other_owner,
        controller == other_controller,
    ensures
        derived(tag, owner, controller) == derived(other_tag, other_owner, other_controller),
{
}

/// A derived address passes verification against the inputs it was derived
/// from, and no other address does.
pub proof fn lemma_only_the_derived_address_verifies(
    candidate: Seq<u8>,
    tag: Tag,
    owner: Seq<u8>,
    controller: Seq<u8>,
)
    requires
        derived(tag, owner, controller) is Some,
    ensures
        is_derived(candidate, tag, owner, controller) <==> candidate == derived(
            tag,
            owner,
            controller,
        ).unwrap().0,
{
}

} // verus!
