use pda_contracts::account::AccountInfo;
use pda_contracts::error::ProgramError;
use pda_contracts::profile_contract::{
    apply_update, process_instruction, string_to_array, InstructionData, ProfileSchema,
};
use pda_contracts::pubkey::Pubkey;

fn unique_key() -> Pubkey {
    Pubkey::new_from_array(solana_program::pubkey::Pubkey::new_unique().to_bytes())
}

fn profile(name: &str, date: i32, month: i32, year: i32) -> InstructionData {
    InstructionData { name: string_to_array(String::from(name)), date, month, year }
}

#[test]
fn test_sanity() {
    let program_id = unique_key();
    let key = unique_key();
    let lamports = 0;
    let data = vec![0; std::mem::size_of::<ProfileSchema>()];

    let account = AccountInfo::new(&key, true, true, lamports, data, &program_id, false, 0);
    let name = String::from("kirat");
    let name_bytes: [u8; 512] = string_to_array(name);
    let instruction_data = InstructionData { name: name_bytes, date: 1, month: 2, year: 1996 };

    let mut accounts = vec![account];
    let instruction_data_u8 = instruction_data.try_to_vec();

    process_instruction(&program_id, &mut accounts, &instruction_data_u8).unwrap();
    assert_eq!(ProfileSchema::try_from_slice(&accounts[0].data).unwrap().year, 1996);
}

#[test]
fn profile_update_stores_every_field() {
    let program_id = unique_key();
    let key = unique_key();
    let mut accounts =
        vec![AccountInfo::new(&key, true, true, 0, vec![0xaa; 524], &program_id, false, 0)];
    let request = profile("kirat", 1, 2, 1996);
    process_instruction(&program_id, &mut accounts, &request.try_to_vec()).unwrap();
    let stored = ProfileSchema::try_from_slice(&accounts[0].data).unwrap();
    assert_eq!(&stored.name[..5], b"kirat");
    assert!(stored.name[5..].iter().all(|b| *b == 0));
    assert_eq!((stored.date, stored.month, stored.year), (1, 2, 1996));
    assert_eq!(accounts[0].data.len(), 524);
}

#[test]
fn profile_string_to_array_pads_and_cuts() {
    let buffer = string_to_array(String::from("kirat"));
    assert_eq!(&buffer[..6], &[0x6bu8, 0x69, 0x72, 0x61, 0x74, 0][..]);
    assert!(buffer[5..].iter().all(|b| *b == 0));
    let long: String = (0..700).map(|i| (b'0' + (i % 10) as u8) as char).collect();
    assert_eq!(&string_to_array(long.clone())[..], &long.as_bytes()[..512]);
}

#[test]
fn profile_record_layout() {
    let record = ProfileSchema { name: [0x41; 512], date: 1, month: -2, year: 1996 };
    let bytes = record.try_to_vec();
    assert_eq!(bytes.len(), 524);
    assert_eq!(&bytes[..512], &[0x41u8; 512][..]);
    assert_eq!(&bytes[512..516], &[1u8, 0, 0, 0][..]);
    assert_eq!(&bytes[516..520], &[0xfeu8, 0xff, 0xff, 0xff][..]);
    assert_eq!(&bytes[520..524], &[0xccu8, 0x07, 0, 0][..]);
    assert_eq!(ProfileSchema::try_from_slice(&bytes), Some(record));
}

#[test]
fn profile_integers_are_little_endian_twos_complement() {
    for value in [0, 1, -1, 255, 256, 65536, 16777216, i32::MAX, i32::MIN, -1996, 0x12345678] {
        let bytes = profile("", value, 0, 0).try_to_vec();
        assert_eq!(&bytes[512..516], &value.to_le_bytes()[..]);
        assert_eq!(
            bytes[512..516].to_vec(),
            borsh::BorshSerialize::try_to_vec(&value).unwrap()
        );
        assert_eq!(InstructionData::try_from_slice(&bytes).unwrap().date, value);
    }
    let bytes = profile("", 0, 0, 0x0a0b0c0d).try_to_vec();
    assert_eq!(&bytes[520..524], &[0x0du8, 0x0c, 0x0b, 0x0a][..]);
}

#[test]
fn profile_record_of_another_width_does_not_decode() {
    assert_eq!(ProfileSchema::try_from_slice(&[0u8; 523]), None);
    assert_eq!(ProfileSchema::try_from_slice(&[0u8; 525]), None);
    assert_eq!(ProfileSchema::try_from_slice(&[0u8; 512]), None);
    assert_eq!(InstructionData::try_from_slice(&[]), None);
}

#[test]
fn profile_request_round_trip() {
    let request = profile("kirat", 31, 12, -44);
    assert_eq!(InstructionData::try_from_slice(&request.try_to_vec()), Some(request));
}

#[test]
fn profile_update_is_checked_in_order() {
    let program_id = unique_key();
    let other = unique_key();
    let key = unique_key();
    let request = profile("kirat", 1, 2, 1996).try_to_vec();

    let mut none: Vec<AccountInfo> = Vec::new();
    assert_eq!(
        process_instruction(&program_id, &mut none, &request[..523]),
        Err(ProgramError::InstructionDecodeFailure)
    );
    assert_eq!(
        process_instruction(&program_id, &mut none, &request),
        Err(ProgramError::NotEnoughAccounts)
    );

    let mut foreign = vec![AccountInfo::new(&key, false, true, 0, vec![1; 10], &other, false, 0)];
    assert_eq!(
        process_instruction(&program_id, &mut foreign, &request),
        Err(ProgramError::WrongController)
    );
    assert_eq!(foreign[0].data, vec![1; 10]);

    let mut unsigned =
        vec![AccountInfo::new(&key, false, true, 0, vec![1; 10], &program_id, false, 0)];
    assert_eq!(
        process_instruction(&program_id, &mut unsigned, &request),
        Err(ProgramError::MissingAuthority)
    );
    assert_eq!(unsigned[0].data, vec![1; 10]);

    let mut short =
        vec![AccountInfo::new(&key, true, true, 0, vec![1; 512], &program_id, false, 0)];
    assert_eq!(
        process_instruction(&program_id, &mut short, &request),
        Err(ProgramError::InvalidAccountData)
    );
    assert_eq!(short[0].data, vec![1; 512]);
}

#[test]
fn profile_apply_update_overwrites_the_record_in_place() {
    let service = unique_key();
    let key = unique_key();
    let update = profile("kirat", 1, 2, 1996);

    let stored = ProfileSchema { name: [7; 512], date: -5, month: 6, year: 7 }.try_to_vec();
    let mut account = AccountInfo::new(&key, true, true, 0, stored, &service, false, 0);
    assert_eq!(apply_update(&mut account, &update), Ok(()));
    assert_eq!(account.data, update.try_to_vec());

    let mut narrow = AccountInfo::new(&key, true, true, 0, vec![0; 512], &service, false, 0);
    assert_eq!(apply_update(&mut narrow, &update), Err(ProgramError::InvalidAccountData));
    assert_eq!(narrow.data, vec![0; 512]);
}
