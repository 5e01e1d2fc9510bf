use pda_contracts::account::AccountInfo;
use pda_contracts::address_contract;
use pda_contracts::derivation;
use pda_contracts::derivation::{verify, Tag};
use pda_contracts::ecom_contract::{
    getAddressSeeds, getUserProfileSeeds, process_instruction, AddressInstructionData,
    AddressSchema, Creation, Funding, InstructionData, Invocation, Purpose, Step,
    UserProfileInstructionData,
};
use pda_contracts::error::ProgramError;
use pda_contracts::host::{AccountMeta, CapabilityProof, Instruction};
use pda_contracts::profile_contract;
use pda_contracts::pubkey::Pubkey;
use solana_program::pubkey::Pubkey as HostKey;

fn key(byte: u8) -> Pubkey {
    Pubkey::new_from_array([byte; 32])
}

fn host_key(key: &Pubkey) -> HostKey {
    HostKey::new_from_array(key.to_bytes())
}

fn plain(key: &Pubkey) -> AccountInfo {
    AccountInfo::new(key, false, false, 0, Vec::new(), &Pubkey::new_from_array([0; 32]), false, 0)
}

fn pda(tag: &[u8], owner: &Pubkey, program_id: &Pubkey) -> (Pubkey, u8) {
    let (address, bump) =
        HostKey::find_program_address(&[tag, &owner.to_bytes()], &host_key(program_id));
    (Pubkey::new_from_array(address.to_bytes()), bump)
}

fn text(s: &str) -> [u8; 512] {
    address_contract::string_to_array(String::from(s))
}

const ORCHESTRATOR: u8 = 0x0c;
const OWNER_A: u8 = 0xa1;
const OWNER_B: u8 = 0xb2;
const ADDRESS_SERVICE: u8 = 0xad;
const PROFILE_SERVICE: u8 = 0x9f;

fn initialize_accounts(owner: &Pubkey) -> Vec<AccountInfo> {
    let program_id = key(ORCHESTRATOR);
    vec![
        AccountInfo::new(owner, true, true, 1_000_000, Vec::new(), &key(0), false, 0),
        plain(&pda(b"profile", owner, &program_id).0),
        plain(&pda(b"address", owner, &program_id).0),
        plain(&key(PROFILE_SERVICE)),
        plain(&key(ADDRESS_SERVICE)),
        plain(&key(0)),
    ]
}

fn update_accounts(owner: &Pubkey, tag: &[u8], service: u8) -> Vec<AccountInfo> {
    let program_id = key(ORCHESTRATOR);
    vec![plain(owner), plain(&pda(tag, owner, &program_id).0), plain(&key(service))]
}

fn expect_invoke(step: Step) -> Invocation {
    match step {
        Step::Invoke(invocation) => invocation,
        other => panic!("expected an instruction for the host, got {:?}", other),
    }
}

fn expect_fund(step: Step) -> Funding {
    match step {
        Step::Fund(funding) => funding,
        other => panic!("expected a question of balance, got {:?}", other),
    }
}

fn mirrors(instruction: &Instruction, made: &solana_program::instruction::Instruction) -> bool {
    instruction.program_id.to_bytes() == made.program_id.to_bytes()
        && instruction.data == made.data
        && instruction.accounts.len() == made.accounts.len()
        && instruction.accounts.iter().zip(made.accounts.iter()).all(|(ours, theirs)| {
            ours.pubkey.to_bytes() == theirs.pubkey.to_bytes()
                && ours.is_signer == theirs.is_signer
                && ours.is_writable == theirs.is_writable
        })
}

#[test]
fn seeds_are_those_of_the_host() {
    let program_id = key(ORCHESTRATOR);
    let owner = plain(&key(OWNER_A));
    let (address, address_bump) = getAddressSeeds(&owner, &program_id).unwrap();
    let (profile, profile_bump) = getUserProfileSeeds(&owner, &program_id).unwrap();
    assert_eq!((address, address_bump), pda(b"address", &owner.key, &program_id));
    assert_eq!((profile, profile_bump), pda(b"profile", &owner.key, &program_id));
    assert_ne!(address, profile);
    assert_ne!(address, owner.key);
    assert_ne!(address, program_id);
    assert!(!host_key(&address).is_on_curve());
    assert_eq!(
        HostKey::create_program_address(
            &[b"address", &owner.key.to_bytes(), &[address_bump]],
            &host_key(&program_id)
        )
        .unwrap(),
        host_key(&address)
    );
}

#[test]
fn deriving_twice_gives_the_same_address_and_bump() {
    for tag in [Tag::Address, Tag::Profile] {
        for owner in [key(OWNER_A), key(OWNER_B), key(0)] {
            let first = derivation::derive(tag, &owner, &key(ORCHESTRATOR));
            let second = derivation::derive(tag, &owner, &key(ORCHESTRATOR));
            assert!(first.is_some());
            assert_eq!(first, second);
        }
    }
}

#[test]
fn derived_address_depends_on_the_controller() {
    let owner = key(OWNER_A);
    assert_ne!(
        derivation::derive(Tag::Address, &owner, &key(ORCHESTRATOR)).unwrap().0,
        derivation::derive(Tag::Address, &owner, &key(ADDRESS_SERVICE)).unwrap().0
    );
}

#[test]
fn distinct_owners_get_distinct_addresses() {
    let program_id = key(ORCHESTRATOR);
    for tag in [Tag::Address, Tag::Profile] {
        let mut seen = std::collections::HashSet::new();
        for i in 0..200u32 {
            let mut bytes = [0u8; 32];
            bytes[..4].copy_from_slice(&i.to_be_bytes());
            let owner = Pubkey::new_from_array(bytes);
            let (address, _) = derivation::derive(tag, &owner, &program_id).unwrap();
            assert!(seen.insert(address.to_bytes()));
        }
        assert_eq!(seen.len(), 200);
    }
}

#[test]
fn verify_accepts_the_derived_address_only() {
    let program_id = key(ORCHESTRATOR);
    let owner = key(OWNER_A);
    let (address, _) = derivation::derive(Tag::Address, &owner, &program_id).unwrap();
    assert!(verify(&address, Tag::Address, &owner, &program_id));
    assert!(!verify(&address, Tag::Profile, &owner, &program_id));
    assert!(!verify(&address, Tag::Address, &key(OWNER_B), &program_id));
    assert!(!verify(&address, Tag::Address, &owner, &key(ADDRESS_SERVICE)));
    assert!(!verify(&owner, Tag::Address, &owner, &program_id));
}

#[test]
fn proof_presents_tag_owner_and_bump() {
    let proof = CapabilityProof { tag: Tag::Profile, owner: key(OWNER_A), bump: 254 };
    assert_eq!(proof.seeds(), vec![b"profile".to_vec(), vec![OWNER_A; 32], vec![254u8]]);
    let proof = CapabilityProof { tag: Tag::Address, owner: key(OWNER_B), bump: 0 };
    assert_eq!(proof.seeds(), vec![b"address".to_vec(), vec![OWNER_B; 32], vec![0u8]]);
    assert_eq!(Tag::Address.seed_bytes(), *b"address");
    assert_eq!(Tag::Profile.seed_bytes(), *b"profile");
}

#[test]
fn request_wire_format() {
    assert_eq!(InstructionData::Initialize {}.try_to_vec(), vec![2u8]);

    let address = text("2265");
    let bytes = InstructionData::UpdateAddress { address }.try_to_vec();
    assert_eq!(bytes.len(), 513);
    assert_eq!(bytes[0], 0);
    assert_eq!(&bytes[1..], &address[..]);

    let name = text("kirat");
    let request = InstructionData::UpdateUserInfo { name, date: 1, month: 2, year: 1996 };
    let bytes = request.try_to_vec();
    assert_eq!(bytes.len(), 525);
    assert_eq!(bytes[0], 1);
    assert_eq!(&bytes[1..513], &name[..]);
    assert_eq!(&bytes[513..], &[1u8, 0, 0, 0, 2, 0, 0, 0, 0xcc, 0x07, 0, 0][..]);
}

#[test]
fn request_round_trip() {
    for request in [
        InstructionData::Initialize {},
        InstructionData::UpdateAddress { address: text("2265") },
        InstructionData::UpdateUserInfo { name: text("kirat"), date: -1, month: 2, year: 1996 },
    ] {
        assert_eq!(InstructionData::try_from_slice(&request.try_to_vec()), Some(request));
    }
}

#[test]
fn malformed_requests_do_not_decode() {
    assert_eq!(InstructionData::try_from_slice(&[]), None);
    assert_eq!(InstructionData::try_from_slice(&[3]), None);
    assert_eq!(InstructionData::try_from_slice(&[255]), None);
    assert_eq!(InstructionData::try_from_slice(&[2, 0]), None);
    assert_eq!(InstructionData::try_from_slice(&[0]), None);
    assert_eq!(InstructionData::try_from_slice(&[1]), None);
    assert_eq!(InstructionData::try_from_slice(&[0u8; 512]), None);
    assert_eq!(InstructionData::try_from_slice(&[0u8; 514]), None);
    let mut profile = vec![1u8];
    profile.extend_from_slice(&[0u8; 512]);
    assert_eq!(InstructionData::try_from_slice(&profile), None);
    let mut swapped = vec![1u8];
    swapped.extend_from_slice(&[0u8; 525]);
    assert_eq!(InstructionData::try_from_slice(&swapped), None);
}

#[test]
fn sub_requests_are_read_by_the_services() {
    let request = AddressInstructionData { address: text("2265") };
    assert_eq!(
        address_contract::InstructionData::try_from_slice(&request.try_to_vec()),
        Some(address_contract::InstructionData { address: text("2265") })
    );
    let request = UserProfileInstructionData { name: text("kirat"), date: 1, month: 2, year: 1996 };
    assert_eq!(
        profile_contract::InstructionData::try_from_slice(&request.try_to_vec()),
        Some(profile_contract::InstructionData {
            name: text("kirat"),
            date: 1,
            month: 2,
            year: 1996
        })
    );
    assert_eq!(AddressSchema { address: text("x") }.try_to_vec().len(), 512);
}

#[test]
fn undecodable_request_is_refused() {
    let accounts = initialize_accounts(&key(OWNER_A));
    for payload in [&[][..], &[9u8][..], &[2u8, 2][..], &[0u8; 40][..]] {
        assert_eq!(
            process_instruction(&key(ORCHESTRATOR), &accounts, payload),
            Step::Finish(Err(ProgramError::InstructionDecodeFailure))
        );
    }
}

#[test]
fn request_with_too_few_accounts_is_refused() {
    let program_id = key(ORCHESTRATOR);
    let owner = key(OWNER_A);
    let mut accounts = initialize_accounts(&owner);
    accounts.pop();
    assert_eq!(
        process_instruction(&program_id, &accounts, &[2]),
        Step::Finish(Err(ProgramError::NotEnoughAccounts))
    );
    let mut accounts = update_accounts(&owner, b"address", ADDRESS_SERVICE);
    accounts.pop();
    let update = InstructionData::UpdateAddress { address: text("2265") }.try_to_vec();
    assert_eq!(
        process_instruction(&program_id, &accounts, &update),
        Step::Finish(Err(ProgramError::NotEnoughAccounts))
    );
    let update = InstructionData::UpdateUserInfo { name: text("k"), date: 1, month: 1, year: 1 };
    let update = update.try_to_vec();
    assert_eq!(
        process_instruction(&program_id, &[], &update),
        Step::Finish(Err(ProgramError::NotEnoughAccounts))
    );
    assert_eq!(
        process_instruction(&program_id, &[], &[7]),
        Step::Finish(Err(ProgramError::InstructionDecodeFailure))
    );
}

#[test]
fn initialize_creates_both_record_accounts() {
    let program_id = key(ORCHESTRATOR);
    let owner = key(OWNER_A);
    let accounts = initialize_accounts(&owner);
    let (address, address_bump) = pda(b"address", &owner, &program_id);
    let (profile, profile_bump) = pda(b"profile", &owner, &program_id);

    let funding = expect_fund(process_instruction(&program_id, &accounts, &[2]));
    assert_eq!(funding.creation.space, 512);
    assert_eq!(funding.creation.account, address);
    assert_eq!(funding.creation.funder, owner);
    assert_eq!(funding.creation.controller, key(ADDRESS_SERVICE));

    let creating = expect_invoke(funding.funded(Ok(4_454_400)));
    let made = solana_program::system_instruction::create_account(
        &host_key(&owner),
        &host_key(&address),
        4_454_400,
        512,
        &host_key(&key(ADDRESS_SERVICE)),
    );
    assert!(mirrors(&creating.instruction, &made));
    assert_eq!(creating.instruction.program_id, key(0));
    assert_eq!(
        creating.instruction.accounts,
        vec![
            AccountMeta { pubkey: owner, is_signer: true, is_writable: true },
            AccountMeta { pubkey: address, is_signer: true, is_writable: true },
        ]
    );
    assert_eq!(creating.accounts, vec![2, 0, 5]);
    assert_eq!(creating.proof, CapabilityProof { tag: Tag::Address, owner, bump: address_bump });

    let funding = expect_fund(creating.completed(Ok(())));
    assert_eq!(funding.creation.space, 524);
    assert_eq!(funding.creation.account, profile);
    assert_eq!(funding.next, None);

    let creating = expect_invoke(funding.funded(Ok(4_537_920)));
    let made = solana_program::system_instruction::create_account(
        &host_key(&owner),
        &host_key(&profile),
        4_537_920,
        524,
        &host_key(&key(PROFILE_SERVICE)),
    );
    assert!(mirrors(&creating.instruction, &made));
    assert_eq!(creating.accounts, vec![1, 0, 5]);
    assert_eq!(creating.proof, CapabilityProof { tag: Tag::Profile, owner, bump: profile_bump });

    assert_eq!(creating.completed(Ok(())), Step::Finish(Ok(())));
}

#[test]
fn initialize_with_a_wrong_record_account_is_refused() {
    let program_id = key(ORCHESTRATOR);
    let owner = key(OWNER_A);
    let refused = Step::Finish(Err(ProgramError::InvalidDerivation));

    let mut accounts = initialize_accounts(&owner);
    accounts[2] = plain(&pda(b"address", &key(OWNER_B), &program_id).0);
    assert_eq!(process_instruction(&program_id, &accounts, &[2]), refused);

    let mut accounts = initialize_accounts(&owner);
    accounts[1] = plain(&pda(b"profile", &key(OWNER_B), &program_id).0);
    assert_eq!(process_instruction(&program_id, &accounts, &[2]), refused);

    let mut accounts = initialize_accounts(&owner);
    accounts.swap(1, 2);
    assert_eq!(process_instruction(&program_id, &accounts, &[2]), refused);

    let accounts = initialize_accounts(&owner);
    assert_eq!(process_instruction(&key(ADDRESS_SERVICE), &accounts, &[2]), refused);
}

#[test]
fn failed_creation_aborts_the_request() {
    let program_id = key(ORCHESTRATOR);
    let accounts = initialize_accounts(&key(OWNER_A));
    let failed = |code| Step::Finish(Err(ProgramError::AccountCreationFailure(code)));

    let funding = expect_fund(process_instruction(&program_id, &accounts, &[2]));
    assert_eq!(funding.funded(Err(3)), failed(3));

    let creating = expect_invoke(funding.funded(Ok(1)));
    assert_eq!(creating.clone().completed(Err(17)), failed(17));

    let funding = expect_fund(creating.completed(Ok(())));
    assert_eq!(funding.funded(Err(u64::MAX)), failed(u64::MAX));
    assert_eq!(expect_invoke(funding.funded(Ok(1))).completed(Err(0)), failed(0));
}

#[test]
fn update_address_is_forwarded_and_stored() {
    let program_id = key(ORCHESTRATOR);
    let owner = key(OWNER_A);
    let (address, bump) = pda(b"address", &owner, &program_id);
    let accounts = update_accounts(&owner, b"address", ADDRESS_SERVICE);
    let request = InstructionData::UpdateAddress { address: text("2265") }.try_to_vec();

    let call = expect_invoke(process_instruction(&program_id, &accounts, &request));
    assert_eq!(call.instruction.program_id, key(ADDRESS_SERVICE));
    assert_eq!(
        call.instruction.accounts,
        vec![AccountMeta { pubkey: address, is_signer: true, is_writable: true }]
    );
    assert_eq!(call.instruction.data, text("2265").to_vec());
    assert_eq!(call.accounts, vec![1]);
    assert_eq!(call.proof, CapabilityProof { tag: Tag::Address, owner, bump });
    assert_eq!(call.purpose, Purpose::Forward);

    let meta = call.instruction.accounts[0];
    let mut handed = vec![AccountInfo::new(
        &meta.pubkey,
        meta.is_signer,
        meta.is_writable,
        4_454_400,
        vec![0; 512],
        &key(ADDRESS_SERVICE),
        false,
        0,
    )];
    let outcome = address_contract::process_instruction(
        &call.instruction.program_id,
        &mut handed,
        &call.instruction.data,
    );
    assert_eq!(outcome, Ok(()));
    let mut expected = vec![0u8; 512];
    expected[..4].copy_from_slice(b"2265");
    assert_eq!(handed[0].data, expected);

    assert_eq!(call.completed(Ok(())), Step::Finish(Ok(())));
}

#[test]
fn update_user_info_is_forwarded_and_stored() {
    let program_id = key(ORCHESTRATOR);
    let owner = key(OWNER_A);
    let (profile, bump) = pda(b"profile", &owner, &program_id);
    let accounts = update_accounts(&owner, b"profile", PROFILE_SERVICE);
    let request =
        InstructionData::UpdateUserInfo { name: text("kirat"), date: 1, month: 2, year: 1996 }
            .try_to_vec();

    let call = expect_invoke(process_instruction(&program_id, &accounts, &request));
    assert_eq!(call.instruction.program_id, key(PROFILE_SERVICE));
    assert_eq!(
        call.instruction.accounts,
        vec![AccountMeta { pubkey: profile, is_signer: true, is_writable: true }]
    );
    assert_eq!(call.accounts, vec![1]);
    assert_eq!(call.proof, CapabilityProof { tag: Tag::Profile, owner, bump });

    let mut handed = vec![AccountInfo::new(
        &profile,
        true,
        true,
        4_537_920,
        vec![0; 524],
        &key(PROFILE_SERVICE),
        false,
        0,
    )];
    profile_contract::process_instruction(
        &call.instruction.program_id,
        &mut handed,
        &call.instruction.data,
    )
    .unwrap();
    let stored = profile_contract::ProfileSchema::try_from_slice(&handed[0].data).unwrap();
    assert_eq!(
        stored,
        profile_contract::ProfileSchema { name: text("kirat"), date: 1, month: 2, year: 1996 }
    );
    assert_eq!(call.completed(Ok(())), Step::Finish(Ok(())));
}

#[test]
fn update_of_the_record_of_another_owner_is_refused() {
    let program_id = key(ORCHESTRATOR);
    let mut accounts = update_accounts(&key(OWNER_B), b"address", ADDRESS_SERVICE);
    accounts[0] = AccountInfo::new(&key(OWNER_A), true, true, 0, Vec::new(), &key(0), false, 0);
    let request = InstructionData::UpdateAddress { address: text("2265") }.try_to_vec();
    assert_eq!(
        process_instruction(&program_id, &accounts, &request),
        Step::Finish(Err(ProgramError::InvalidDerivation))
    );

    let mut accounts = update_accounts(&key(OWNER_B), b"profile", PROFILE_SERVICE);
    accounts[0] = plain(&key(OWNER_A));
    let request =
        InstructionData::UpdateUserInfo { name: text("kirat"), date: 1, month: 2, year: 1996 }
            .try_to_vec();
    assert_eq!(
        process_instruction(&program_id, &accounts, &request),
        Step::Finish(Err(ProgramError::InvalidDerivation))
    );
}

#[test]
fn update_in_the_wrong_namespace_is_refused() {
    let program_id = key(ORCHESTRATOR);
    let accounts = update_accounts(&key(OWNER_A), b"profile", ADDRESS_SERVICE);
    let request = InstructionData::UpdateAddress { address: text("2265") }.try_to_vec();
    assert_eq!(
        process_instruction(&program_id, &accounts, &request),
        Step::Finish(Err(ProgramError::InvalidDerivation))
    );
}

#[test]
fn failure_of_the_record_service_comes_back_with_its_code() {
    let program_id = key(ORCHESTRATOR);
    let accounts = update_accounts(&key(OWNER_A), b"address", ADDRESS_SERVICE);
    let request = InstructionData::UpdateAddress { address: text("2265") }.try_to_vec();
    let call = expect_invoke(process_instruction(&program_id, &accounts, &request));
    assert_eq!(
        call.clone().completed(Err(0x7_0000_0000)),
        Step::Finish(Err(ProgramError::DelegatedCallFailed(0x7_0000_0000)))
    );
    assert_eq!(call.completed(Err(0)), Step::Finish(Err(ProgramError::DelegatedCallFailed(0))));
}

#[test]
fn update_before_initialize_fails_at_the_service() {
    let program_id = key(ORCHESTRATOR);
    let owner = key(OWNER_A);
    let accounts = update_accounts(&owner, b"address", ADDRESS_SERVICE);
    let request = InstructionData::UpdateAddress { address: text("2265") }.try_to_vec();
    let call = expect_invoke(process_instruction(&program_id, &accounts, &request));

    let mut handed =
        vec![AccountInfo::new(&accounts[1].key, true, true, 0, Vec::new(), &key(0), false, 0)];
    assert_eq!(
        address_contract::process_instruction(
            &call.instruction.program_id,
            &mut handed,
            &call.instruction.data
        ),
        Err(ProgramError::WrongController)
    );
    assert!(handed[0].data.is_empty());
    assert_eq!(handed[0].owner, key(0));
}

#[test]
fn the_next_creation_follows_a_completed_one() {
    let owner = key(OWNER_A);
    let creation = Creation {
        funder: owner,
        account: key(1),
        space: 9,
        controller: key(2),
        proof: CapabilityProof { tag: Tag::Profile, owner, bump: 3 },
        account_at: 1,
    };
    let invocation = Invocation {
        instruction: Instruction { program_id: key(0), accounts: Vec::new(), data: Vec::new() },
        accounts: vec![2, 0, 5],
        proof: CapabilityProof { tag: Tag::Address, owner, bump: 4 },
        purpose: Purpose::Create { next: Some(creation) },
    };
    assert_eq!(
        invocation.completed(Ok(())),
        Step::Fund(Funding { creation, next: None })
    );
}
