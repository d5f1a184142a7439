use hello_counter::account::{same_key, Account};
use hello_counter::counter::{increment_counter, read_counter, write_counter};
use hello_counter::decimal::decimal_text;
use hello_counter::greeting::{greet, greeting};
use hello_counter::program::{process_instruction, process_instruction_readonly, GreetingError};
use solana_program::pubkey::Pubkey;

fn one_account(owner: [u8; 32], data: Vec<u8>) -> Vec<Account> {
    vec![Account::new([7u8; 32], owner, data)]
}

#[test]
fn test_hello_world() {
    let program_id = Pubkey::default().to_bytes();
    let key = Pubkey::default().to_bytes();
    let data = vec![0; 4];
    let owner = program_id;

    let account = Account::new(key, owner, data);

    let mut accounts = vec![account];
    let instruction_data = b"Solana Developer";
    let mut log = Vec::new();

    let result = process_instruction(&program_id, &mut accounts, instruction_data, &mut log);
    assert!(result.is_ok());
}

#[test]
fn named_greeting_counts_from_zero() {
    let pid = [3u8; 32];
    let mut accounts = one_account(pid, vec![0, 0, 0, 0]);
    let mut log = Vec::new();
    let r = process_instruction(&pid, &mut accounts, b"Solana Developer", &mut log);
    assert_eq!(r, Ok(()));
    assert_eq!(accounts[0].data, vec![1, 0, 0, 0]);
    assert_eq!(log.len(), 5);
    assert_eq!(log[0], "Hello World Solana program entrypoint");
    assert_eq!(log[1], format!("Program ID: {}", Pubkey::new_from_array(pid)));
    assert_eq!(log[2], "Hello, Solana Developer!");
    assert_eq!(log[3], "Greeting count: 1");
    assert_eq!(log[4], "Program complete!");
}

#[test]
fn empty_instruction_uses_default_greeting() {
    let pid = [3u8; 32];
    let mut accounts = one_account(pid, vec![1, 0, 0, 0]);
    let mut log = Vec::new();
    let r = process_instruction(&pid, &mut accounts, b"", &mut log);
    assert_eq!(r, Ok(()));
    assert_eq!(accounts[0].data, vec![2, 0, 0, 0]);
    assert_eq!(log[2], "Hello, Solana!");
    assert_eq!(log[3], "Greeting count: 2");
}

#[test]
fn program_id_line_is_base58() {
    let pid = [0u8; 32];
    let mut accounts = one_account(pid, vec![0, 0, 0, 0]);
    let mut log = Vec::new();
    let r = process_instruction(&pid, &mut accounts, b"", &mut log);
    assert_eq!(r, Ok(()));
    assert_eq!(log[1], "Program ID: 11111111111111111111111111111111");
}

#[test]
fn wrong_owner_is_refused_without_change() {
    let pid = [3u8; 32];
    let mut accounts = one_account([4u8; 32], vec![5, 0, 0, 0]);
    let mut log = Vec::new();
    let r = process_instruction(&pid, &mut accounts, b"Ann", &mut log);
    assert_eq!(r, Err(GreetingError::IncorrectProgramId));
    assert_eq!(accounts[0].data, vec![5, 0, 0, 0]);
    assert_eq!(log.len(), 3);
    assert_eq!(log[2], "Greeted account does not have the correct program id");
}

#[test]
fn short_data_is_refused_without_change() {
    let pid = [3u8; 32];
    let mut accounts = one_account(pid, vec![5, 0, 0]);
    let mut log = Vec::new();
    let r = process_instruction(&pid, &mut accounts, b"Ann", &mut log);
    assert_eq!(r, Err(GreetingError::InvalidAccountData));
    assert_eq!(accounts[0].data, vec![5, 0, 0]);
    assert_eq!(log.len(), 4);
    assert_eq!(log[2], "Hello, Ann!");
    assert_eq!(log[3], "Account data too small to store counter");
}

#[test]
fn empty_data_is_refused() {
    let pid = [3u8; 32];
    let mut accounts = one_account(pid, vec![]);
    let mut log = Vec::new();
    let r = process_instruction(&pid, &mut accounts, b"", &mut log);
    assert_eq!(r, Err(GreetingError::InvalidAccountData));
    assert!(accounts[0].data.is_empty());
}

#[test]
fn missing_account_is_refused() {
    let pid = [3u8; 32];
    let mut accounts: Vec<Account> = Vec::new();
    let mut log = Vec::new();
    let r = process_instruction(&pid, &mut accounts, b"Ann", &mut log);
    assert_eq!(r, Err(GreetingError::NotEnoughAccountKeys));
    assert_eq!(log.len(), 2);
}

#[test]
fn counter_wraps_past_max() {
    let pid = [3u8; 32];
    let mut accounts = one_account(pid, vec![255, 255, 255, 255]);
    let mut log = Vec::new();
    let r = process_instruction(&pid, &mut accounts, b"", &mut log);
    assert_eq!(r, Ok(()));
    assert_eq!(accounts[0].data, vec![0, 0, 0, 0]);
    assert_eq!(log[3], "Greeting count: 0");
}

#[test]
fn bytes_after_counter_are_kept() {
    let pid = [3u8; 32];
    let mut accounts = one_account(pid, vec![255, 2, 3, 4, 5, 6]);
    accounts.push(Account::new([8u8; 32], pid, vec![9, 9, 9, 9]));
    let mut log = Vec::new();
    let r = process_instruction(&pid, &mut accounts, b"x", &mut log);
    assert_eq!(r, Ok(()));
    assert_eq!(accounts[0].data, vec![0, 3, 3, 4, 5, 6]);
    assert_eq!(accounts[1].data, vec![9, 9, 9, 9]);
    assert_eq!(log[3], "Greeting count: 67306240");
}

#[test]
fn repeated_calls_count_up() {
    let pid = [3u8; 32];
    let mut accounts = one_account(pid, vec![0, 0, 0, 0]);
    for _ in 0..300 {
        let mut log = Vec::new();
        assert_eq!(process_instruction(&pid, &mut accounts, b"", &mut log), Ok(()));
    }
    assert_eq!(accounts[0].data, vec![44, 1, 0, 0]);
}

#[test]
fn readonly_never_changes_data() {
    let pid = [3u8; 32];
    let mut accounts = one_account([4u8; 32], vec![1, 2]);
    let mut log = Vec::new();
    let r = process_instruction_readonly(&pid, &mut accounts, b"Bo", &mut log);
    assert_eq!(r, Ok(()));
    assert_eq!(accounts[0].data, vec![1, 2]);
    assert_eq!(accounts[0].owner, [4u8; 32]);
    assert_eq!(log.len(), 3);
    assert_eq!(log[0], format!("Account owner: {}", Pubkey::new_from_array([4u8; 32])));
    assert_eq!(log[1], format!("Account key: {}", Pubkey::new_from_array([7u8; 32])));
    assert_eq!(log[2], "Hello, Bo!");
}

#[test]
fn readonly_default_greeting() {
    let pid = [3u8; 32];
    let mut accounts = one_account(pid, vec![0, 0, 0, 0]);
    let mut log = Vec::new();
    let r = process_instruction_readonly(&pid, &mut accounts, b"", &mut log);
    assert_eq!(r, Ok(()));
    assert_eq!(accounts[0].data, vec![0, 0, 0, 0]);
    assert_eq!(log[2], "Hello, Solana!");
}

#[test]
fn readonly_missing_account_is_refused() {
    let pid = [3u8; 32];
    let mut accounts: Vec<Account> = Vec::new();
    let mut log = Vec::new();
    let r = process_instruction_readonly(&pid, &mut accounts, b"Bo", &mut log);
    assert_eq!(r, Err(GreetingError::NotEnoughAccountKeys));
    assert!(log.is_empty());
}

#[test]
fn greeting_decodes_utf8() {
    assert_eq!(greeting("José".as_bytes()), "Hello, José!");
    assert_eq!(greeting(b""), "Hello, Solana!");
    assert_eq!(greet(""), "Hello, !");
}

#[test]
fn greeting_replaces_invalid_utf8() {
    assert_eq!(greeting(&[b'a', 0xff, b'b']), "Hello, a\u{FFFD}b!");
}

#[test]
fn decimal_text_values() {
    assert_eq!(decimal_text(0), "0");
    assert_eq!(decimal_text(7), "7");
    assert_eq!(decimal_text(42), "42");
    assert_eq!(decimal_text(1000), "1000");
    assert_eq!(decimal_text(u32::MAX), "4294967295");
}

#[test]
fn counter_bytes_are_little_endian() {
    let mut data = vec![0x78, 0x56, 0x34, 0x12, 0xaa];
    assert_eq!(read_counter(&data), 0x12345678);
    write_counter(&mut data, 0x01020304);
    assert_eq!(data, vec![4, 3, 2, 1, 0xaa]);
    assert_eq!(increment_counter(&mut data), 0x01020305);
    assert_eq!(data, vec![5, 3, 2, 1, 0xaa]);
}

#[test]
fn keys_compare_bytewise() {
    let a = [1u8; 32];
    let mut b = [1u8; 32];
    assert!(same_key(&a, &b));
    b[31] = 2;
    assert!(!same_key(&a, &b));
}
