//! The orchestrator. For an owner it derives the addresses of the two record
//! accounts, has the host create them under the control of the record
//! services, and later forwards updates to those services, each time proving
//! its authority over the derived address with the seeds of the derivation.
//!
//! The orchestrator decides; the host acts. `process_instruction` answers a
//! request with a `Step`: either the verdict on the request, or something for
//! the host to do, together with what the orchestrator has to remember until
//! the host has done it. The caller carries the step out and hands the
//! host's answer to `Funding::funded` or to `Invocation::completed`, until a
//! step is the verdict. Whether the effects of the steps taken so far are
//! kept is the host's business: it keeps them when the verdict is `Ok` and
//! discards all of them otherwise.

use vstd::prelude::*;
use crate::account::{states, AccountInfo, AccountState};
use crate::derivation::{derived, is_derived, Tag};
use crate::error::ProgramError;
use crate::host::{
    create_account, create_account_instruction, AccountMeta, AccountMetaView, CapabilityProof,
    CapabilityProofView, Instruction, InstructionView,
};
use crate::pubkey::Pubkey;
use crate::schema::{
    address_decoding, address_encoding, decode_address, decode_profile, encode_address,
    encode_profile, lemma_profile_round_trip, profile_decoding, profile_encoding, AddressFields,
    ProfileFields, ADDRESS_WIDTH, PROFILE_WIDTH,
};

pub use crate::address_contract::AddressSchema;

verus! {

/// Tag byte of `InstructionData::UpdateAddress`.
pub const UPDATE_ADDRESS: u8 = 0;

/// Tag byte of `InstructionData::UpdateUserInfo`.
pub const UPDATE_USER_INFO: u8 = 1;

/// Tag byte of `InstructionData::Initialize`.
pub const INITIALIZE: u8 = 2;

/// Position of the owner among the accounts of every request.
pub const OWNER_AT: usize = 0;

/// Position of the profile record account among the accounts of
/// `Initialize`.
pub const PROFILE_ACCOUNT_AT: usize = 1;

/// Position of the address record account among the accounts of
/// `Initialize`.
pub const ADDRESS_ACCOUNT_AT: usize = 2;

/// Position of the profile record service among the accounts of
/// `Initialize`.
pub const PROFILE_SERVICE_AT: usize = 3;

/// Position of the address record service among the accounts of
/// `Initialize`.
pub const ADDRESS_SERVICE_AT: usize = 4;

/// Position of the host's account facility among the accounts of
/// `Initialize`.
pub const SYSTEM_AT: usize = 5;

/// Position of the record account among the accounts of an update.
pub const RECORD_ACCOUNT_AT: usize = 1;

/// Position of the record service among the accounts of an update.
pub const RECORD_SERVICE_AT: usize = 2;

/// A request to the orchestrator. On the wire a request is one tag byte
/// followed by the fields of its variant, each at its fixed width.
#[derive(Clone, Debug, PartialEq)]
pub enum InstructionData {
    UpdateAddress { address: [u8; 512] },
    UpdateUserInfo { name: [u8; 512], date: i32, month: i32, year: i32 },
    Initialize {},
}

/// What an `InstructionData` holds, as mathematical values.
pub enum Request {
    UpdateAddress(AddressFields),
    UpdateUserInfo(ProfileFields),
    Initialize,
}

impl View for InstructionData {
    type V = Request;

    open spec fn view(&self) -> Request {
        match *self {
            InstructionData::UpdateAddress { address } => Request::UpdateAddress(
                AddressFields { address: address@ },
            ),
            InstructionData::UpdateUserInfo { name, date, month, year } => Request::UpdateUserInfo(
                ProfileFields { name: name@, date, month, year },
            ),
            InstructionData::Initialize {} => Request::Initialize,
        }
    }
}

/// The bytes that stand for a request.
pub open spec fn request_encoding(request: Request) -> Seq<u8> {
    match request {
        Request::UpdateAddress(fields) => seq![UPDATE_ADDRESS] + address_encoding(fields),
        Request::UpdateUserInfo(fields) => seq![UPDATE_USER_INFO] + profile_encoding(fields),
        Request::Initialize => seq![INITIALIZE],
    }
}

/// The request that `bytes` stand for, if they stand for one: the tag byte
/// names a variant, and the rest is the encoding of its fields, with nothing
/// left over.
pub open spec fn request_decoding(bytes: Seq<u8>) -> Option<Request> {
    if bytes.len() == 0 {
        None
    } else if bytes[0] == UPDATE_ADDRESS {
        match address_decoding(bytes.skip(1)) {
            Some(fields) => Some(Request::UpdateAddress(fields)),
            None => None,
        }
    } else if bytes[0] == UPDATE_USER_INFO {
        match profile_decoding(bytes.skip(1)) {
            Some(fields) => Some(Request::UpdateUserInfo(fields)),
            None => None,
        }
    } else if bytes[0] == INITIALIZE && bytes.len() == 1 {
        Some(Request::Initialize)
    } else {
        None
    }
}

impl InstructionData {
    /// Decodes a request; `None` unless `bytes` is the encoding of one.
    pub fn try_from_slice(bytes: &[u8]) -> (instruction: Option<InstructionData>)
        ensures
            match instruction {
                Some(i) => request_decoding(bytes@) == Some(i@),
                None => request_decoding(bytes@) is None,
            },
    {
        if bytes.len() == 0 {
            return None;
        }
        let tag = bytes[0];
        let rest = vstd::slice::slice_subrange(bytes, 1, bytes.len());
        if tag == UPDATE_ADDRESS {
            match decode_address(rest) {
                Some(address) => Some(InstructionData::UpdateAddress { address }),
                None => None,
            }
        } else if tag == UPDATE_USER_INFO {
            match decode_profile(rest) {
                Some((name, date, month, year)) => Some(
                    InstructionData::UpdateUserInfo { name, date, month, year },
                ),
                None => None,
            }
        } else if tag == INITIALIZE && bytes.len() == 1 {
            Some(InstructionData::Initialize {})
        } else {
            None
        }
    }

    /// Encodes this request.
    pub fn try_to_vec(&self) -> (bytes: Vec<u8>)
        ensures
            bytes@ == request_encoding(self@),
    {
        let mut bytes: Vec<u8> = Vec::new();
        match self {
            InstructionData::UpdateAddress { address } => {
                bytes.push(UPDATE_ADDRESS);
                let mut fields = encode_address(address);
                bytes.append(&mut fields);
            },
            InstructionData::UpdateUserInfo { name, date, month, year } => {
                bytes.push(UPDATE_USER_INFO);
                let mut fields = encode_profile(name, *date, *month, *year);
                bytes.append(&mut fields);
            },
            InstructionData::Initialize {} => {
                bytes.push(INITIALIZE);
            },
        }
        bytes
    }
}

/// The request that the orchestrator sends to the address record service.
#[derive(Clone, Debug, PartialEq)]
pub struct AddressInstructionData {
    pub address: [u8; 512],
}

/// The request that the orchestrator sends to the profile record service.
#[derive(Clone, Debug, PartialEq)]
pub struct UserProfileInstructionData {
    pub name: [u8; 512],
    pub date: i32,
    pub month: i32,
    pub year: i32,
}

impl View for AddressInstructionData {
    type V = AddressFields;

    open spec fn view(&self) -> AddressFields {
        AddressFields { address: self.address@ }
    }
}

impl View for UserProfileInstructionData {
    type V = ProfileFields;

    open spec fn view(&self) -> ProfileFields {
        ProfileFields { name: self.name@, date: self.date, month: self.month, year: self.year }
    }
}

impl AddressInstructionData {
    /// Encodes this request.
    pub fn try_to_vec(&self) -> (bytes: Vec<u8>)
        ensures
            bytes@ == address_encoding(self@),
    {
        encode_address(&self.address)
    }
}

impl UserProfileInstructionData {
    /// Encodes this request.
    pub fn try_to_vec(&self) -> (bytes: Vec<u8>)
        ensures
            bytes@ == profile_encoding(self@),
    {
        encode_profile(&self.name, self.date, self.month, self.year)
    }
}

/// One record account that the host is to create.
#[derive(Clone, Copy, Debug, PartialEq)]
pub struct Creation {
    /// The owner, who pays for the account.
    pub funder: Pubkey,
    /// The derived address at which the account is created.
    pub account: Pubkey,
    /// Size of the account's storage: the width of the record it will hold.
    pub space: u64,
    /// The record service that will control the account.
    pub controller: Pubkey,
    /// The orchestrator's authority over the derived address.
    pub proof: CapabilityProof,
    /// Position of the account among the accounts of the request.
    pub account_at: usize,
}

/// What a `Creation` holds, as mathematical values.
pub struct CreationView {
    pub funder: Seq<u8>,
    pub account: Seq<u8>,
    pub space: u64,
    pub controller: Seq<u8>,
    pub proof: CapabilityProofView,
    pub account_at: usize,
}

impl View for Creation {
    type V = CreationView;

    open spec fn view(&self) -> CreationView {
        CreationView {
            funder: self.funder@,
            account: self.account@,
            space: self.space,
            controller: self.controller@,
            proof: self.proof@,
            account_at: self.account_at,
        }
    }
}

/// The view of a creation that may be absent.
pub open spec fn creation_view(creation: Option<Creation>) -> Option<CreationView> {
    match creation {
        Some(c) => Some(c@),
        None => None,
    }
}

/// Why the host is asked to carry out an instruction.
#[derive(Clone, Copy, Debug, PartialEq)]
pub enum Purpose {
    /// The instruction creates a record account; `next` is the account to
    /// create after it.
    Create { next: Option<Creation> },
    /// The instruction is an update, forwarded to a record service.
    Forward,
}

/// What a `Purpose` holds, as mathematical values.
pub enum PurposeView {
    Create { next: Option<CreationView> },
    Forward,
}

impl View for Purpose {
    type V = PurposeView;

    open spec fn view(&self) -> PurposeView {
        match *self {
            Purpose::Create { next } => PurposeView::Create { next: creation_view(next) },
            Purpose::Forward => PurposeView::Forward,
        }
    }
}

/// The host is to report the least balance that an account with
/// `creation.space` bytes of storage may be created with.
#[derive(Clone, Copy, Debug, PartialEq)]
pub struct Funding {
    /// The account that the balance is for.
    pub creation: Creation,
    /// The account to create after it.
    pub next: Option<Creation>,
}

/// What a `Funding` holds, as mathematical values.
pub struct FundingView {
    pub creation: CreationView,
    pub next: Option<CreationView>,
}

impl View for Funding {
    type V = FundingView;

    open spec fn view(&self) -> FundingView {
        FundingView { creation: self.creation@, next: creation_view(self.next) }
    }
}

/// The host is to carry out `instruction`, handing the called program the
/// accounts of the request at the positions `accounts`, and accepting `proof`
/// in place of the signature of the derived address.
#[derive(Clone, Debug, PartialEq)]
pub struct Invocation {
    pub instruction: Instruction,
    pub accounts: Vec<usize>,
    pub proof: CapabilityProof,
    pub purpose: Purpose,
}

/// What an `Invocation` holds, as mathematical values.
pub struct InvocationView {
    pub instruction: InstructionView,
    pub accounts: Seq<usize>,
    pub proof: CapabilityProofView,
    pub purpose: PurposeView,
}

impl View for Invocation {
    type V = InvocationView;

    open spec fn view(&self) -> InvocationView {
        InvocationView {
            instruction: self.instruction@,
            accounts: self.accounts@,
            proof: self.proof@,
            purpose: self.purpose@,
        }
    }
}

/// What the orchestrator does next.
#[derive(Debug, PartialEq)]
pub enum Step {
    /// Ask the host for a minimum balance, then call `Funding::funded`.
    Fund(Funding),
    /// Have the host carry out an instruction, then call
    /// `Invocation::completed`.
    Invoke(Invocation),
    /// The request is over, with this verdict.
    Finish(Result<(), ProgramError>),
}

/// What a `Step` holds, as mathematical values.
pub enum StepView {
    Fund(FundingView),
    Invoke(InvocationView),
    Finish(Result<(), ProgramError>),
}

impl View for Step {
    type V = StepView;

    open spec fn view(&self) -> StepView {
        match *self {
            Step::Fund(funding) => StepView::Fund(funding@),
            Step::Invoke(invocation) => StepView::Invoke(invocation@),
            Step::Finish(verdict) => StepView::Finish(verdict),
        }
    }
}

/// Width of the record that lives in the namespace `tag`.
pub open spec fn record_width(tag: Tag) -> u64 {
    match tag {
        Tag::Address => ADDRESS_WIDTH as u64,
        Tag::Profile => PROFILE_WIDTH as u64,
    }
}

/// The creation of the record account of `owner` in the namespace `tag`, at
/// the position `account_at` of `accounts`, under the control of the program
/// at the position `service_at`. It is planned only where the account
/// supplied is the address that `program_id` derives for the owner.
pub open spec fn planned_creation(
    tag: Tag,
    program_id: Seq<u8>,
    accounts: Seq<AccountState>,
    account_at: usize,
    service_at: usize,
) -> Option<CreationView> {
    let owner = accounts[OWNER_AT as int].key;
    if is_derived(accounts[account_at as int].key, tag, owner, program_id) {
        Some(
            CreationView {
                funder: owner,
                account: accounts[account_at as int].key,
                space: record_width(tag),
                controller: accounts[service_at as int].key,
                proof: CapabilityProofView {
                    tag,
                    owner,
                    bump: derived(tag, owner, program_id).unwrap().1,
                },
                account_at,
            },
        )
    } else {
        None
    }
}

/// The step that answers `Initialize`: the address record account is
/// created first, the profile record account after it.
pub open spec fn initialize_step(program_id: Seq<u8>, accounts: Seq<AccountState>) -> StepView {
    if accounts.len() < 6 {
        StepView::Finish(Err(ProgramError::NotEnoughAccounts))
    } else {
        match (
            planned_creation(
                Tag::Address,
                program_id,
                accounts,
                ADDRESS_ACCOUNT_AT,
                ADDRESS_SERVICE_AT,
            ),
            planned_creation(
                Tag::Profile,
                program_id,
                accounts,
                PROFILE_ACCOUNT_AT,
                PROFILE_SERVICE_AT,
            ),
        ) {
            (Some(address), Some(profile)) => StepView::Fund(
                FundingView { creation: address, next: Some(profile) },
            ),
            _ => StepView::Finish(Err(ProgramError::InvalidDerivation)),
        }
    }
}

/// The step that answers an update of the record in the namespace `tag`:
/// `payload`, the request to the record service, is forwarded to the program
/// at `RECORD_SERVICE_AT`, which is handed the record account as authorized
/// and writable.
pub open spec fn update_step(
    tag: Tag,
    payload: Seq<u8>,
    program_id: Seq<u8>,
    accounts: Seq<AccountState>,
) -> StepView {
    if accounts.len() < 3 {
        StepView::Finish(Err(ProgramError::NotEnoughAccounts))
    } else {
        let owner = accounts[OWNER_AT as int].key;
        let record = accounts[RECORD_ACCOUNT_AT as int].key;
        if is_derived(record, tag, owner, program_id) {
            StepView::Invoke(
                InvocationView {
                    instruction: InstructionView {
                        program_id: accounts[RECORD_SERVICE_AT as int].key,
                        accounts: seq![
                            AccountMetaView { pubkey: record, is_signer: true, is_writable: true },
                        ],
                        data: payload,
                    },
                    accounts: seq![RECORD_ACCOUNT_AT],
                    proof: CapabilityProofView {
                        tag,
                        owner,
                        bump: derived(tag, owner, program_id).unwrap().1,
                    },
                    purpose: PurposeView::Forward,
                },
            )
        } else {
            StepView::Finish(Err(ProgramError::InvalidDerivation))
        }
    }
}

/// The step that answers the request `instruction_data`, made of the
/// orchestrator `program_id` with `accounts`. The payload is decoded first,
/// the accounts are counted next, and the derived addresses are checked last.
pub open spec fn first_step(
    program_id: Seq<u8>,
    accounts: Seq<AccountState>,
    instruction_data: Seq<u8>,
) -> StepView {
    match request_decoding(instruction_data) {
        None => StepView::Finish(Err(ProgramError::InstructionDecodeFailure)),
        Some(Request::Initialize) => initialize_step(program_id, accounts),
        Some(Request::UpdateAddress(fields)) => update_step(
            Tag::Address,
            address_encoding(fields),
            program_id,
            accounts,
        ),
        Some(Request::UpdateUserInfo(fields)) => update_step(
            Tag::Profile,
            profile_encoding(fields),
            program_id,
            accounts,
        ),
    }
}

impl FundingView {
    /// The step that follows the host's answer: with a balance, the account
    /// is created; without one, the request is aborted.
    pub open spec fn funded(self, balance: Result<u64, u64>) -> StepView {
        match balance {
            Err(code) => StepView::Finish(Err(ProgramError::AccountCreationFailure(code))),
            Ok(lamports) => StepView::Invoke(
                InvocationView {
                    instruction: create_account_instruction(
                        self.creation.funder,
                        self.creation.account,
                        lamports,
                        self.creation.space,
                        self.creation.controller,
                    ),
                    accounts: seq![self.creation.account_at, OWNER_AT, SYSTEM_AT],
                    proof: self.creation.proof,
                    purpose: PurposeView::Create { next: self.next },
                },
            ),
        }
    }
}

impl InvocationView {
    /// The step that follows the host's answer. After a creation, the next
    /// account is funded, or the request is over; after a forwarded update,
    /// the request is over. A failure aborts the request.
    pub open spec fn completed(self, outcome: Result<(), u64>) -> StepView {
        match self.purpose {
            PurposeView::Create { next } => match outcome {
                Err(code) => StepView::Finish(Err(ProgramError::AccountCreationFailure(code))),
                Ok(_) => match next {
                    Some(creation) => StepView::Fund(FundingView { creation, next: None }),
                    None => StepView::Finish(Ok(())),
                },
            },
            PurposeView::Forward => match outcome {
                Err(code) => StepView::Finish(Err(ProgramError::DelegatedCallFailed(code))),
                Ok(_) => StepView::Finish(Ok(())),
            },
        }
    }
}

/// Derives the address of the address record of `account`, the owner.
#[allow(non_snake_case)]
pub fn getAddressSeeds(account: &AccountInfo, program_id: &Pubkey) -> (found: Option<(Pubkey, u8)>)
    ensures
        match found {
            Some((address, bump)) => derived(Tag::Address, account@.key, program_id@) == Some(
                (address@, bump),
            ),
            None => derived(Tag::Address, account@.key, program_id@) is None,
        },
{
    crate::derivation::derive(Tag::Address, &account.key, program_id)
}

/// Derives the address of the profile record of `account`, the owner.
#[allow(non_snake_case)]
pub fn getUserProfileSeeds(account: &AccountInfo, program_id: &Pubkey) -> (found: Option<
    (Pubkey, u8),
>)
    ensures
        match found {
            Some((address, bump)) => derived(Tag::Profile, account@.key, program_id@) == Some(
                (address@, bump),
            ),
            None => derived(Tag::Profile, account@.key, program_id@) is None,
        },
{
    crate::derivation::derive(Tag::Profile, &account.key, program_id)
}

/// Derives the address for the owner and the namespace `tag`, and returns
/// its bump seed where the record account supplied is that address.
fn checked_bump(
    tag: Tag,
    program_id: &Pubkey,
    accounts: &[AccountInfo],
    account_at: usize,
) -> (bump: Option<u8>)
    requires
        accounts@.len() > account_at,
        accounts@.len() > OWNER_AT,
    ensures
        match bump {
            Some(b) => is_derived(
                accounts@[account_at as int]@.key,
                tag,
                accounts@[OWNER_AT as int]@.key,
                program_id@,
            ) && b == derived(tag, accounts@[OWNER_AT as int]@.key, program_id@).unwrap().1,
            None => !is_derived(
                accounts@[account_at as int]@.key,
                tag,
                accounts@[OWNER_AT as int]@.key,
                program_id@,
            ),
        },
{
    let found = match tag {
        Tag::Address => getAddressSeeds(&accounts[OWNER_AT], program_id),
        Tag::Profile => getUserProfileSeeds(&accounts[OWNER_AT], program_id),
    };
    match found {
        Some((address, bump)) => {
            if address == accounts[account_at].key {
                Some(bump)
            } else {
                None
            }
        },
        None => None,
    }
}

/// Plans the creation of one record account.
fn plan_creation(
    tag: Tag,
    program_id: &Pubkey,
    accounts: &[AccountInfo],
    account_at: usize,
    service_at: usize,
) -> (creation: Option<Creation>)
    requires
        accounts@.len() > account_at,
        accounts@.len() > service_at,
        accounts@.len() > OWNER_AT,
    ensures
        creation_view(creation) == planned_creation(
            tag,
            program_id@,
            states(accounts@),
            account_at,
            service_at,
        ),
{
    let space: u64 = match tag {
        Tag::Address => ADDRESS_WIDTH as u64,
        Tag::Profile => PROFILE_WIDTH as u64,
    };
    match checked_bump(tag, program_id, accounts, account_at) {
        Some(bump) => Some(
            Creation {
                funder: accounts[OWNER_AT].key,
                account: accounts[account_at].key,
                space,
                controller: accounts[service_at].key,
                proof: CapabilityProof { tag, owner: accounts[OWNER_AT].key, bump },
                account_at,
            },
        ),
        None => None,
    }
}

/// Answers `Initialize`.
fn initialize(program_id: &Pubkey, accounts: &[AccountInfo]) -> (step: Step)
    ensures
        step@ == initialize_step(program_id@, states(accounts@)),
{
    if accounts.len() < 6 {
        return Step::Finish(Err(ProgramError::NotEnoughAccounts));
    }
    let address = plan_creation(
        Tag::Address,
        program_id,
        accounts,
        ADDRESS_ACCOUNT_AT,
        ADDRESS_SERVICE_AT,
    );
    let profile = plan_creation(
        Tag::Profile,
        program_id,
        accounts,
        PROFILE_ACCOUNT_AT,
        PROFILE_SERVICE_AT,
    );
    match (address, profile) {
        (Some(address), Some(profile)) => Step::Fund(
            Funding { creation: address, next: Some(profile) },
        ),
        _ => Step::Finish(Err(ProgramError::InvalidDerivation)),
    }
}

/// Answers an update: forwards `payload` to the record service.
fn forward(tag: Tag, payload: Vec<u8>, program_id: &Pubkey, accounts: &[AccountInfo]) -> (step:
    Step)
    ensures
        step@ == update_step(tag, payload@, program_id@, states(accounts@)),
{
    if accounts.len() < 3 {
        return Step::Finish(Err(ProgramError::NotEnoughAccounts));
    }
    match checked_bump(tag, program_id, accounts, RECORD_ACCOUNT_AT) {
        Some(bump) => {
            let mut metas: Vec<AccountMeta> = Vec::new();
            metas.push(
                AccountMeta {
                    pubkey: accounts[RECORD_ACCOUNT_AT].key,
                    is_signer: true,
                    is_writable: true,
                },
            );
            let instruction = Instruction {
                program_id: accounts[RECORD_SERVICE_AT].key,
                accounts: metas,
                data: payload,
            };
            let mut handles: Vec<usize> = Vec::new();
            handles.push(RECORD_ACCOUNT_AT);
            let invocation = Invocation {
                instruction,
                accounts: handles,
                proof: CapabilityProof { tag, owner: accounts[OWNER_AT].key, bump },
                purpose: Purpose::Forward,
            };
            assert(invocation@.instruction.accounts =~= seq![
                AccountMetaView {
                    pubkey: accounts@[RECORD_ACCOUNT_AT as int]@.key,
                    is_signer: true,
                    is_writable: true,
                },
            ]);
            Step::Invoke(invocation)
        },
        None => Step::Finish(Err(ProgramError::InvalidDerivation)),
    }
}

/// Answers the request `instruction_data`, made of the orchestrator
/// `program_id` with `accounts`: the owner first, the record accounts and the
/// record services after it, in the order that the request's kind fixes. No
/// account is read beyond its address, and nothing is asked of the host
/// before the request has been decoded, its accounts counted and its record
/// accounts found to be the addresses derived for the owner.
pub fn process_instruction(
    program_id: &Pubkey,
    accounts: &[AccountInfo],
    instruction_data: &[u8],
) -> (step: Step)
    ensures
        step@ == first_step(program_id@, states(accounts@), instruction_data@),
{
    let instruction = match InstructionData::try_from_slice(instruction_data) {
        Some(instruction) => instruction,
        None => return Step::Finish(Err(ProgramError::InstructionDecodeFailure)),
    };
    match instruction {
        InstructionData::Initialize {} => initialize(program_id, accounts),
        InstructionData::UpdateAddress { address } => {
            let request = AddressInstructionData { address };
            forward(Tag::Address, request.try_to_vec(), program_id, accounts)
        },
        InstructionData::UpdateUserInfo { name, date, month, year } => {
            let request = UserProfileInstructionData { name, date, month, year };
            forward(Tag::Profile, request.try_to_vec(), program_id, accounts)
        },
    }
}

impl Funding {
    /// Takes the host's answer to the question of the minimum balance:
    /// `Err` with the host's code where the host could not tell.
    pub fn funded(self, balance: Result<u64, u64>) -> (step: Step)
        ensures
            step@ == self@.funded(balance),
    {
        match balance {
            Err(code) => Step::Finish(Err(ProgramError::AccountCreationFailure(code))),
            Ok(lamports) => {
                let creation = self.creation;
                let instruction = create_account(
                    &creation.funder,
                    &creation.account,
                    lamports,
                    creation.space,
                    &creation.controller,
                );
                let mut handles: Vec<usize> = Vec::new();
                handles.push(creation.account_at);
                handles.push(OWNER_AT);
                handles.push(SYSTEM_AT);
                let invocation = Invocation {
                    instruction,
                    accounts: handles,
                    proof: creation.proof,
                    purpose: Purpose::Create { next: self.next },
                };
                assert(invocation@.accounts =~= seq![creation.account_at, OWNER_AT, SYSTEM_AT]);
                Step::Invoke(invocation)
            },
        }
    }
}

impl Invocation {
    /// Takes the host's answer to the instruction: `Err` with the host's
    /// code where the instruction failed.
    pub fn completed(self, outcome: Result<(), u64>) -> (step: Step)
        ensures
            step@ == self@.completed(outcome),
    {
        match self.purpose {
            Purpose::Create { next } => match outcome {
                Err(code) => Step::Finish(Err(ProgramError::AccountCreationFailure(code))),
                Ok(_) => match next {
                    Some(creation) => Step::Fund(Funding { creation, next: None }),
                    None => Step::Finish(Ok(())),
                },
            },
            Purpose::Forward => match outcome {
                Err(code) => Step::Finish(Err(ProgramError::DelegatedCallFailed(code))),
                Ok(_) => Step::Finish(Ok(())),
            },
        }
    }
}

impl Request {
    /// The text buffer of the request, if it has one, has its fixed length.
    pub open spec fn wf(self) -> bool {
        match self {
            Request::UpdateAddress(fields) => fields.wf(),
            Request::UpdateUserInfo(fields) => fields.wf(),
            Request::Initialize => true,
        }
    }

    /// The namespace of the record that the request updates.
    pub open spec fn namespace(self) -> Option<Tag> {
        match self {
            Request::UpdateAddress(_) => Some(Tag::Address),
            Request::UpdateUserInfo(_) => Some(Tag::Profile),
            Request::Initialize => None,
        }
    }
}

/// Reading back the encoding of a request yields the request.
pub proof fn lemma_request_round_trip(request: Request)
    requires
        request.wf(),
    ensures
        request_decoding(request_encoding(request)) == Some(request),
{
    let bytes = request_encoding(request);
    match request {
        Request::UpdateAddress(fields) => {
            assert(bytes.skip(1) =~= address_encoding(fields));
        },
        Request::UpdateUserInfo(fields) => {
            assert(bytes.skip(1) =~= profile_encoding(fields));
            lemma_profile_round_trip(fields);
        },
        Request::Initialize => {},
    }
}

/// Derivation gate: an update whose record account is not the address
/// derived for the owner is aborted with `InvalidDerivation`, and nothing is
/// asked of the host.
pub proof fn lemma_derivation_gate(
    program_id: Seq<u8>,
    accounts: Seq<AccountState>,
    instruction_data: Seq<u8>,
    tag: Tag,
)
    requires
        request_decoding(instruction_data) is Some,
        request_decoding(instruction_data).unwrap().namespace() == Some(tag),
        accounts.len() >= 3,
        !is_derived(
            accounts[RECORD_ACCOUNT_AT as int].key,
            tag,
            accounts[OWNER_AT as int].key,
            program_id,
        ),
    ensures
        first_step(program_id, accounts, instruction_data) == StepView::Finish(
            Err(ProgramError::InvalidDerivation),
        ),
{
}

/// Derivation gate of `Initialize`: where one of the two record accounts is
/// not the address derived for the owner, the request is aborted with
/// `InvalidDerivation`, and nothing is asked of the host.
pub proof fn lemma_initialize_gate(
    program_id: Seq<u8>,
    accounts: Seq<AccountState>,
    instruction_data: Seq<u8>,
)
    requires
        request_decoding(instruction_data) == Some(Request::Initialize),
        accounts.len() >= 6,
        !is_derived(
            accounts[ADDRESS_ACCOUNT_AT as int].key,
            Tag::Address,
            accounts[OWNER_AT as int].key,
            program_id,
        ) || !is_derived(
            accounts[PROFILE_ACCOUNT_AT as int].key,
            Tag::Profile,
            accounts[OWNER_AT as int].key,
            program_id,
        ),
    ensures
        first_step(program_id, accounts, instruction_data) == StepView::Finish(
            Err(ProgramError::InvalidDerivation),
        ),
{
}

/// The host is asked for nothing on behalf of an address that was not
/// checked: whenever the first step of a request is not its verdict, every
/// record account that the request names is the address derived for the
/// owner in its namespace.
pub proof fn lemma_host_is_asked_after_the_checks(
    program_id: Seq<u8>,
    accounts: Seq<AccountState>,
    instruction_data: Seq<u8>,
)
    requires
        !(first_step(program_id, accounts, instruction_data) is Finish),
    ensures
        match request_decoding(instruction_data) {
            Some(Request::Initialize) => {
                &&& accounts.len() >= 6
                &&& is_derived(
                    accounts[ADDRESS_ACCOUNT_AT as int].key,
                    Tag::Address,
                    accounts[OWNER_AT as int].key,
                    program_id,
                )
                &&& is_derived(
                    accounts[PROFILE_ACCOUNT_AT as int].key,
                    Tag::Profile,
                    accounts[OWNER_AT as int].key,
                    program_id,
                )
            },
            Some(request) => {
                &&& accounts.len() >= 3
                &&& is_derived(
                    accounts[RECORD_ACCOUNT_AT as int].key,
                    request.namespace().unwrap(),
                    accounts[OWNER_AT as int].key,
                    program_id,
                )
            },
            None => false,
        },
{
}

/// A failure of the host ends the request with an error that carries the
/// host's code, whatever was waited for: no further account is created after
/// a failed creation. The host discards the effects of a request that ends
/// with an error, so that no account created by an aborted `Initialize` is
/// kept; that part is the host's and is not shown here.
pub proof fn lemma_failure_ends_the_request(
    funding: FundingView,
    invocation: InvocationView,
    code: u64,
)
    ensures
        funding.funded(Err(code)) == StepView::Finish(
            Err(ProgramError::AccountCreationFailure(code)),
        ),
        invocation.purpose is Create ==> invocation.completed(Err(code)) == StepView::Finish(
            Err(ProgramError::AccountCreationFailure(code)),
        ),
        invocation.purpose is Forward ==> invocation.completed(Err(code)) == StepView::Finish(
            Err(ProgramError::DelegatedCallFailed(code)),
        ),
{
}

/// The course of an `Initialize` that the host carries out: the address
/// record account is created at the address derived in the namespace
/// `Address`, with the width of an address record and under the control of
/// the address record service; after it the profile record account, likewise
/// in the namespace `Profile`; after that the request is over. `first` and
/// `second` are the balances that the host reports.
pub proof fn lemma_initialize_creates_both_accounts(
    program_id: Seq<u8>,
    accounts: Seq<AccountState>,
    instruction_data: Seq<u8>,
    first: u64,
    second: u64,
)
    requires
        first_step(program_id, accounts, instruction_data) is Fund,
    ensures
        ({
            let owner = accounts[OWNER_AT as int].key;
            let funding = first_step(program_id, accounts, instruction_data)->Fund_0;
            let creating = funding.funded(Ok(first))->Invoke_0;
            let funding_next = creating.completed(Ok(()))->Fund_0;
            let creating_next = funding_next.funded(Ok(second))->Invoke_0;
            &&& derived(Tag::Address, owner, program_id) is Some
            &&& derived(Tag::Profile, owner, program_id) is Some
            &&& funding.creation.space == ADDRESS_WIDTH
            &&& funding.funded(Ok(first)) is Invoke
            &&& creating.instruction == create_account_instruction(
                owner,
                derived(Tag::Address, owner, program_id).unwrap().0,
                first,
                ADDRESS_WIDTH as u64,
                accounts[ADDRESS_SERVICE_AT as int].key,
            )
            &&& creating.accounts == seq![ADDRESS_ACCOUNT_AT, OWNER_AT, SYSTEM_AT]
            &&& creating.proof == (CapabilityProofView {
                tag: Tag::Address,
                owner,
                bump: derived(Tag::Address, owner, program_id).unwrap().1,
            })
            &&& creating.completed(Ok(())) is Fund
            &&& funding_next.creation.space == PROFILE_WIDTH
            &&& funding_next.funded(Ok(second)) is Invoke
            &&& creating_next.instruction == create_account_instruction(
                owner,
                derived(Tag::Profile, owner, program_id).unwrap().0,
                second,
                PROFILE_WIDTH as u64,
                accounts[PROFILE_SERVICE_AT as int].key,
            )
            &&& creating_next.accounts == seq![PROFILE_ACCOUNT_AT, OWNER_AT, SYSTEM_AT]
            &&& creating_next.proof == (CapabilityProofView {
                tag: Tag::Profile,
                owner,
                bump: derived(Tag::Profile, owner, program_id).unwrap().1,
            })
            &&& creating_next.completed(Ok(())) == StepView::Finish(Ok(()))
        }),
{
}

/// A forwarded update of the address record does what the request asks:
/// when the address record service is handed the forwarded instruction and
/// `record`, the record account with the authorization that the instruction
/// claims for it, and the service controls the account and finds a record in
/// it, the record stored afterwards holds the address of the request.
pub proof fn lemma_forwarded_address_is_stored(
    program_id: Seq<u8>,
    accounts: Seq<AccountState>,
    instruction_data: Seq<u8>,
    record: AccountState,
)
    requires
        request_decoding(instruction_data) is Some,
        request_decoding(instruction_data).unwrap() is UpdateAddress,
        first_step(program_id, accounts, instruction_data) is Invoke,
        record.key == accounts[RECORD_ACCOUNT_AT as int].key,
        record.owner == accounts[RECORD_SERVICE_AT as int].key,
        record.is_signer,
        address_decoding(record.data) is Some,
    ensures
        ({
            let call = first_step(program_id, accounts, instruction_data)->Invoke_0;
            let fields = request_decoding(instruction_data).unwrap()->UpdateAddress_0;
            &&& call.instruction.accounts == seq![
                AccountMetaView { pubkey: record.key, is_signer: true, is_writable: true },
            ]
            &&& crate::address_contract::verdict(
                call.instruction.program_id,
                seq![record],
                call.instruction.data,
            ) is Ok
            &&& crate::address_contract::accounts_after(
                call.instruction.program_id,
                seq![record],
                call.instruction.data,
            ) == seq![AccountState { data: address_encoding(fields), ..record }]
        }),
{
}

/// A forwarded update of the profile record does what the request asks:
/// when the profile record service is handed the forwarded instruction and
/// `record`, the record account with the authorization that the instruction
/// claims for it, and the service controls the account and finds a record in
/// it, the record stored afterwards holds the fields of the request.
pub proof fn lemma_forwarded_profile_is_stored(
    program_id: Seq<u8>,
    accounts: Seq<AccountState>,
    instruction_data: Seq<u8>,
    record: AccountState,
)
    requires
        request_decoding(instruction_data) is Some,
        request_decoding(instruction_data).unwrap() is UpdateUserInfo,
        first_step(program_id, accounts, instruction_data) is Invoke,
        record.key == accounts[RECORD_ACCOUNT_AT as int].key,
        record.owner == accounts[RECORD_SERVICE_AT as int].key,
        record.is_signer,
        profile_decoding(record.data) is Some,
    ensures
        ({
            let call = first_step(program_id, accounts, instruction_data)->Invoke_0;
            let fields = request_decoding(instruction_data).unwrap()->UpdateUserInfo_0;
            &&& call.instruction.accounts == seq![
                AccountMetaView { pubkey: record.key, is_signer: true, is_writable: true },
            ]
            &&& crate::profile_contract::verdict(
                call.instruction.program_id,
                seq![record],
                call.instruction.data,
            ) is Ok
            &&& crate::profile_contract::accounts_after(
                call.instruction.program_id,
                seq![record],
                call.instruction.data,
            ) == seq![AccountState { data: profile_encoding(fields), ..record }]
        }),
{
    lemma_profile_round_trip(request_decoding(instruction_data).unwrap()->UpdateUserInfo_0);
}

} // verus!
