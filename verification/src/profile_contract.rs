//! The profile record service: it controls the profile record accounts and
//! applies updates to them.

use vstd::prelude::*;
use vstd::utf8::encode_utf8;
use crate::account::{states, AccountInfo, AccountState};
use crate::buffer::{fill, zero_padded, BUFFER_CAPACITY};
use crate::error::ProgramError;
use crate::pubkey::Pubkey;
use crate::schema::{
    decode_profile, encode_profile, lemma_profile_round_trip, profile_decoding, profile_encoding,
    ProfileFields,
};

verus! {

/// A profile record as it lies in the storage of its account.
#[derive(Clone, Debug, PartialEq)]
pub struct ProfileSchema {
    pub name: [u8; 512],
    pub date: i32,
    pub month: i32,
    pub year: i32,
}

/// The request to this service: the new contents of a profile record.
#[derive(Clone, Debug, PartialEq)]
pub struct InstructionData {
    pub name: [u8; 512],
    pub date: i32,
    pub month: i32,
    pub year: i32,
}

impl View for ProfileSchema {
    type V = ProfileFields;

    open spec fn view(&self) -> ProfileFields {
        ProfileFields { name: self.name@, date: self.date, month: self.month, year: self.year }
    }
}

impl View for InstructionData {
    type V = ProfileFields;

    open spec fn view(&self) -> ProfileFields {
        ProfileFields { name: self.name@, date: self.date, month: self.month, year: self.year }
    }
}

impl ProfileSchema {
    /// Decodes a record; `None` unless `bytes` is the encoding of one.
    pub fn try_from_slice(bytes: &[u8]) -> (record: Option<ProfileSchema>)
        ensures
            match record {
                Some(r) => profile_decoding(bytes@) == Some(r@),
                None => profile_decoding(bytes@) is None,
            },
    {
        match decode_profile(bytes) {
            Some((name, date, month, year)) => Some(ProfileSchema { name, date, month, year }),
            None => None,
        }
    }

    /// Encodes this record.
    pub fn try_to_vec(&self) -> (bytes: Vec<u8>)
        ensures
            bytes@ == profile_encoding(self@),
    {
        encode_profile(&self.name, self.date, self.month, self.year)
    }
}

impl InstructionData {
    /// Decodes a request; `None` unless `bytes` is the encoding of one.
    pub fn try_from_slice(bytes: &[u8]) -> (instruction: Option<InstructionData>)
        ensures
            match instruction {
                Some(i) => profile_decoding(bytes@) == Some(i@),
                None => profile_decoding(bytes@) is None,
            },
    {
        match decode_profile(bytes) {
            Some((name, date, month, year)) => Some(InstructionData { name, date, month, year }),
            None => None,
        }
    }

    /// Encodes this request.
    pub fn try_to_vec(&self) -> (bytes: Vec<u8>)
        ensures
            bytes@ == profile_encoding(self@),
    {
        encode_profile(&self.name, self.date, self.month, self.year)
    }
}

/// The buffer that holds the UTF-8 bytes of `str`, zero-filled after them.
/// Of a text longer than the buffer, the bytes from index 512 on are dropped.
pub fn string_to_array(str: String) -> (ans: [u8; 512])
    ensures
        ans@ == zero_padded(encode_utf8(str@)),
{
    fill(str.as_str().as_bytes())
}

/// The record that results from applying `update` to `stored`: every field
/// that the request carries replaces the stored one.
pub open spec fn applied(stored: ProfileFields, update: ProfileFields) -> ProfileFields {
    ProfileFields {
        name: update.name,
        date: update.date,
        month: update.month,
        year: update.year,
        ..stored
    }
}

/// The record account after `update` has been applied to it: the record in
/// its storage is decoded, updated and encoded again in its place. An
/// account whose storage holds no record is refused.
pub open spec fn updated(account: AccountState, update: ProfileFields) -> Result<
    AccountState,
    ProgramError,
> {
    match profile_decoding(account.data) {
        None => Err(ProgramError::InvalidAccountData),
        Some(stored) => Ok(
            AccountState { data: profile_encoding(applied(stored, update)), ..account },
        ),
    }
}

/// Applies `update` to the record in the storage of `account`, in place. The
/// storage keeps its size; an account whose storage holds no record is
/// refused and left as it was.
pub fn apply_update(account: &mut AccountInfo, update: &InstructionData) -> (res: Result<
    (),
    ProgramError,
>)
    ensures
        match updated(old(account)@, update@) {
            Ok(after) => res == Ok::<(), ProgramError>(()) && final(account)@ == after,
            Err(e) => res == Err::<(), ProgramError>(e) && final(account)@ == old(account)@,
        },
{
    let mut record = match ProfileSchema::try_from_slice(account.data.as_slice()) {
        Some(record) => record,
        None => return Err(ProgramError::InvalidAccountData),
    };
    record.name = update.name;
    record.date = update.date;
    record.month = update.month;
    record.year = update.year;
    account.data = record.try_to_vec();
    Ok(())
}

/// What a request does to the accounts handed to the service with it: the
/// accounts after the request, or the reason for which it is aborted. The
/// checks are made in this order: the payload, the presence of the record
/// account, its controller, its authorization, its storage.
pub open spec fn outcome(
    program_id: Seq<u8>,
    accounts: Seq<AccountState>,
    instruction_data: Seq<u8>,
) -> Result<Seq<AccountState>, ProgramError> {
    match profile_decoding(instruction_data) {
        None => Err(ProgramError::InstructionDecodeFailure),
        Some(update) => {
            if accounts.len() == 0 {
                Err(ProgramError::NotEnoughAccounts)
            } else if accounts[0].owner != program_id {
                Err(ProgramError::WrongController)
            } else if !accounts[0].is_signer {
                Err(ProgramError::MissingAuthority)
            } else {
                match updated(accounts[0], update) {
                    Err(e) => Err(e),
                    Ok(record) => Ok(accounts.update(0, record)),
                }
            }
        },
    }
}

/// The verdict on a request.
pub open spec fn verdict(
    program_id: Seq<u8>,
    accounts: Seq<AccountState>,
    instruction_data: Seq<u8>,
) -> Result<(), ProgramError> {
    match outcome(program_id, accounts, instruction_data) {
        Ok(_) => Ok(()),
        Err(e) => Err(e),
    }
}

/// The accounts after a request: those that `outcome` gives where the
/// request is carried out, and the accounts as they were where it is aborted.
pub open spec fn accounts_after(
    program_id: Seq<u8>,
    accounts: Seq<AccountState>,
    instruction_data: Seq<u8>,
) -> Seq<AccountState> {
    match outcome(program_id, accounts, instruction_data) {
        Ok(after) => after,
        Err(_) => accounts,
    }
}

/// Ownership gate: an update of a record account that this service does not
/// control is aborted with `WrongController`, and the stored record is
/// unchanged.
pub proof fn lemma_ownership_gate(
    program_id: Seq<u8>,
    accounts: Seq<AccountState>,
    instruction_data: Seq<u8>,
)
    requires
        profile_decoding(instruction_data) is Some,
        accounts.len() > 0,
        accounts[0].owner != program_id,
    ensures
        verdict(program_id, accounts, instruction_data) == Err::<(), ProgramError>(
            ProgramError::WrongController,
        ),
        accounts_after(program_id, accounts, instruction_data) == accounts,
{
}

/// Authority gate: an update of a record account that does not carry the
/// authorization of its deriver is aborted with `MissingAuthority`, and the
/// stored record is unchanged.
pub proof fn lemma_authority_gate(
    program_id: Seq<u8>,
    accounts: Seq<AccountState>,
    instruction_data: Seq<u8>,
)
    requires
        profile_decoding(instruction_data) is Some,
        accounts.len() > 0,
        accounts[0].owner == program_id,
        !accounts[0].is_signer,
    ensures
        verdict(program_id, accounts, instruction_data) == Err::<(), ProgramError>(
            ProgramError::MissingAuthority,
        ),
        accounts_after(program_id, accounts, instruction_data) == accounts,
{
}

/// A request is carried out exactly when it decodes, the record account is
/// there, this service controls it, it carries the authorization of its
/// deriver, and its storage holds a record.
pub proof fn lemma_carried_out_iff(
    program_id: Seq<u8>,
    accounts: Seq<AccountState>,
    instruction_data: Seq<u8>,
)
    ensures
        verdict(program_id, accounts, instruction_data) is Ok <==> {
            &&& profile_decoding(instruction_data) is Some
            &&& accounts.len() > 0
            &&& accounts[0].owner == program_id
            &&& accounts[0].is_signer
            &&& profile_decoding(accounts[0].data) is Some
        },
{
}

/// Round trip: after an update, the record read back from the storage of the
/// record account is the record that the request carried.
pub proof fn lemma_update_reads_back(
    program_id: Seq<u8>,
    accounts: Seq<AccountState>,
    instruction_data: Seq<u8>,
)
    requires
        verdict(program_id, accounts, instruction_data) is Ok,
    ensures
        profile_decoding(accounts_after(program_id, accounts, instruction_data)[0].data)
            == profile_decoding(instruction_data),
{
    let update = profile_decoding(instruction_data).unwrap();
    let stored = profile_decoding(accounts[0].data).unwrap();
    lemma_profile_round_trip(applied(stored, update));
}

/// Round trip of a profile: a name of at most 512 bytes and the three
/// integers that are written to the record are read back from it, the name
/// byte for byte from the front of the stored buffer, with zeros after it.
pub proof fn lemma_profile_reads_back(
    program_id: Seq<u8>,
    accounts: Seq<AccountState>,
    name: Seq<u8>,
    date: i32,
    month: i32,
    year: i32,
)
    requires
        name.len() <= BUFFER_CAPACITY,
        verdict(
            program_id,
            accounts,
            profile_encoding(ProfileFields { name: zero_padded(name), date, month, year }),
        ) is Ok,
    ensures
        ({
            let request = profile_encoding(
                ProfileFields { name: zero_padded(name), date, month, year },
            );
            let stored = profile_decoding(accounts_after(program_id, accounts, request)[0].data);
            &&& stored is Some
            &&& stored.unwrap().name.subrange(0, name.len() as int) == name
            &&& forall|i: int|
                name.len() <= i < BUFFER_CAPACITY ==> stored.unwrap().name[i] == 0u8
            &&& stored.unwrap().date == date
            &&& stored.unwrap().month == month
            &&& stored.unwrap().year == year
        }),
{
    lemma_profile_round_trip(ProfileFields { name: zero_padded(name), date, month, year });
}

/// A request changes the contents of one record and nothing else: no
/// account is added or removed, the record account keeps its address, its
/// controller and the size of its storage, and every other account stays as
/// it was. No request creates, deletes or reassigns an account.
pub proof fn lemma_update_changes_the_record_only(
    program_id: Seq<u8>,
    accounts: Seq<AccountState>,
    instruction_data: Seq<u8>,
)
    ensures
        ({
            let after = accounts_after(program_id, accounts, instruction_data);
            &&& after.len() == accounts.len()
            &&& forall|i: int| 0 < i < accounts.len() ==> after[i] == accounts[i]
            &&& accounts.len() > 0 ==> after[0] == (AccountState {
                data: after[0].data,
                ..accounts[0]
            })
            &&& accounts.len() > 0 ==> after[0].data.len() == accounts[0].data.len()
        }),
{
}

/// Applies the update request `instruction_data` to the record account, the
/// first of `accounts`. `program_id` is the identity of this service. The
/// request is carried out only on an account that this service controls and
/// that carries the authorization of its deriver; its storage is then
/// overwritten in place with the updated record. A request that is aborted
/// leaves every account as it was.
pub fn process_instruction(
    program_id: &Pubkey,
    accounts: &mut [AccountInfo],
    instruction_data: &[u8],
) -> (res: Result<(), ProgramError>)
    ensures
        res == verdict(program_id@, states(old(accounts)@), instruction_data@),
        states(final(accounts)@) == accounts_after(
            program_id@,
            states(old(accounts)@),
            instruction_data@,
        ),
{
    let instruction = match InstructionData::try_from_slice(instruction_data) {
        Some(instruction) => instruction,
        None => return Err(ProgramError::InstructionDecodeFailure),
    };
    if accounts.len() == 0 {
        return Err(ProgramError::NotEnoughAccounts);
    }
    accounts[0].validate_ownership(program_id)?;
    accounts[0].validate_authority()?;
    apply_update(&mut accounts[0], &instruction)
}

} // verus!
