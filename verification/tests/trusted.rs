use std::str::FromStr;

use pubsub_counter::account::Account;
use pubsub_counter::instruction::close_instruction;
use pubsub_counter::program::{id, process, CLOSE};
use pubsub_counter::pubkey::Pubkey;
use pubsub_counter::test_validator::{new_counter_account, start_test_validator};
use solana_sdk::account::{AccountSharedData, ReadableAccount};

#[test]
fn program_identity_is_the_declared_one() {
    let declared =
        solana_sdk::pubkey::Pubkey::from_str("Counter111111111111111111111111111111111111")
            .unwrap();
    assert_eq!(id().to_bytes(), declared.to_bytes());
}

#[test]
fn closed_account_goes_to_the_system_program() {
    let mut accounts = vec![
        Account::new(5, vec![1], id()),
        Account::new(0, Vec::new(), Pubkey::new_from_array([8; 32])),
    ];
    assert_eq!(process(&id(), &mut accounts, &[CLOSE]), Ok(()));
    assert_eq!(accounts[0].owner.to_bytes(), [0u8; 32]);
    assert_eq!(
        accounts[0].owner.to_bytes(),
        solana_program::system_program::id().to_bytes()
    );
    assert_ne!(accounts[0].owner, id());
}

#[test]
fn closure_is_recognised_by_the_system_program_as_owner() {
    let left = Account::new(0, Vec::new(), Pubkey::new_from_array([0; 32]));
    assert!(left.is_destroyed());
    let kept = Account::new(0, Vec::new(), Pubkey::new_from_array([8; 32]));
    assert!(!kept.is_destroyed());
}

#[test]
fn close_instruction_sends_the_balance_to_the_incinerator() {
    let target = Pubkey::new_from_array([5; 32]);
    let built = close_instruction(&target);
    assert_eq!(built.accounts.len(), 2);
    assert_eq!(
        built.accounts[1].pubkey.to_bytes(),
        solana_sdk::incinerator::id().to_bytes()
    );
    assert_eq!(
        built.accounts[1].pubkey.to_bytes(),
        [
            0, 51, 144, 114, 141, 52, 17, 96, 121, 189, 201, 17, 191, 255, 0, 219, 212, 77, 46,
            205, 204, 247, 156, 166, 225, 0, 56, 225, 0, 0, 0, 0
        ]
    );
    assert_ne!(built.accounts[1].pubkey, target);
}

#[test]
fn counter_account_is_rent_exempt() {
    let account = new_counter_account();
    assert_eq!(account.lamports, 897_840);
    assert_eq!(account.lamports, (128 + 1) * 3480 * 2);
    assert_eq!(
        account.lamports,
        solana_sdk::rent::Rent::default().minimum_balance(1)
    );
}

#[test]
fn counter_account_starts_at_zero_under_the_program() {
    let account = new_counter_account();
    assert_eq!(account.data, vec![0u8]);
    assert_eq!(account.owner, id());
    let made = AccountSharedData::new_data(
        account.lamports,
        &0u8,
        &solana_sdk::pubkey::Pubkey::new_from_array(id().to_bytes()),
    )
    .unwrap();
    assert_eq!(made.lamports(), account.lamports);
    assert_eq!(made.data(), account.data.as_slice());
    assert_eq!(made.owner().to_bytes(), account.owner.to_bytes());
}

#[test]
fn genesis_gives_every_key_a_counter_account() {
    let first = Pubkey::new_from_array([1; 32]);
    let second = Pubkey::new_from_array([2; 32]);
    let ledger = start_test_validator(&[first, second]);
    assert_eq!(ledger.get_account(&first), Some(Account::new(897_840, vec![0], id())));
    assert_eq!(ledger.get_account(&second), Some(Account::new(897_840, vec![0], id())));
}

#[test]
fn default_rent_is_linear_in_the_payload_length() {
    let rent = solana_sdk::rent::Rent::default();
    for data_len in [0usize, 1, 2, 127, 128, 1_000, 10 * 1024 * 1024, u32::MAX as usize] {
        assert_eq!(rent.minimum_balance(data_len), (128 + data_len as u64) * 6960);
    }
}

#[test]
fn a_one_byte_state_is_stored_as_that_byte() {
    let owner = solana_sdk::pubkey::Pubkey::new_from_array([7; 32]);
    for state in [0u8, 1, 127, 128, 255] {
        let made = AccountSharedData::new_data(42, &state, &owner).unwrap();
        assert_eq!(made.data(), &[state]);
        assert_eq!(made.lamports(), 42);
        assert_eq!(made.owner(), &owner);
    }
}
