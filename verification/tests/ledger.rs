use pubsub_counter::account::Account;
use pubsub_counter::notification::Notification;
use pubsub_counter::program::id;
use pubsub_counter::pubkey::Pubkey;
use pubsub_counter::test_validator::{counter_of, start_test_validator, AccountError};

fn key(tag: u8) -> Pubkey {
    Pubkey::new_from_array([tag; 32])
}

fn neutral() -> Pubkey {
    Pubkey::new_from_array([0; 32])
}

#[test]
fn genesis_is_at_slot_zero_with_nothing_burned() {
    let ledger = start_test_validator(&[key(1)]);
    assert_eq!(ledger.slot(), 0);
    assert_eq!(ledger.burned(), 0);
    assert_eq!(ledger.get_counter(&key(1)), Ok(0));
}

#[test]
fn genesis_without_keys_holds_nothing() {
    let ledger = start_test_validator(&[]);
    assert_eq!(ledger.get_account(&key(1)), None);
    assert_eq!(ledger.get_counter(&key(1)), Err(AccountError::MissingAccount));
}

#[test]
fn genesis_takes_a_repeated_key_once() {
    let mut ledger = start_test_validator(&[key(1), key(2), key(1)]);
    assert_eq!(ledger.get_counter(&key(1)), Ok(0));
    assert_eq!(ledger.get_counter(&key(2)), Ok(0));
    assert!(ledger.close_counter(&key(1)).is_ok());
    assert_eq!(ledger.get_account(&key(1)), None);
    assert_eq!(ledger.get_counter(&key(2)), Ok(0));
}

#[test]
fn increment_commits_and_notifies() {
    let mut ledger = start_test_validator(&[key(1), key(2)]);
    let told = ledger.increment_counter(&key(2)).unwrap();
    assert_eq!(
        told,
        Notification { key: key(2), slot: 1, account: Account::new(897_840, vec![1], id()) }
    );
    assert_eq!(ledger.slot(), 1);
    assert_eq!(ledger.get_counter(&key(2)), Ok(1));
    assert_eq!(ledger.get_counter(&key(1)), Ok(0));
    let told = ledger.increment_counter(&key(2)).unwrap();
    assert_eq!(told.slot, 2);
    assert_eq!(told.account.data, vec![2]);
    assert_eq!(ledger.get_counter(&key(2)), Ok(2));
}

#[test]
fn increment_of_a_missing_account_commits_nothing() {
    let mut ledger = start_test_validator(&[key(1)]);
    assert_eq!(ledger.increment_counter(&key(3)), Err(AccountError::MissingAccount));
    assert_eq!(ledger.slot(), 0);
    assert_eq!(ledger.get_counter(&key(1)), Ok(0));
}

#[test]
fn increment_of_an_empty_payload_commits_nothing() {
    let mut ledger = start_test_validator(&[]);
    assert!(ledger.add_account(key(4), 10, Vec::new()));
    assert_eq!(ledger.increment_counter(&key(4)), Err(AccountError::MalformedData));
    assert_eq!(ledger.get_counter(&key(4)), Err(AccountError::MalformedData));
    assert_eq!(ledger.slot(), 0);
    assert_eq!(ledger.get_account(&key(4)), Some(Account::new(10, Vec::new(), id())));
}

#[test]
fn counter_stops_at_255_on_the_ledger() {
    let mut ledger = start_test_validator(&[]);
    assert!(ledger.add_account(key(4), 10, vec![254, 17]));
    assert_eq!(ledger.increment_counter(&key(4)).unwrap().account.data, vec![255, 17]);
    assert_eq!(ledger.increment_counter(&key(4)).unwrap().account.data, vec![255, 17]);
    assert_eq!(ledger.get_counter(&key(4)), Ok(255));
    assert_eq!(ledger.slot(), 2);
}

#[test]
fn close_removes_the_account_and_burns_its_balance() {
    let mut ledger = start_test_validator(&[key(1), key(2)]);
    ledger.increment_counter(&key(1)).unwrap();
    let told = ledger.close_counter(&key(1)).unwrap();
    assert_eq!(
        told,
        Notification { key: key(1), slot: 2, account: Account::new(0, Vec::new(), neutral()) }
    );
    assert!(told.reports_closure());
    assert_eq!(ledger.get_account(&key(1)), None);
    assert_eq!(ledger.burned(), 897_840);
    assert_eq!(ledger.slot(), 2);
    assert_eq!(ledger.get_counter(&key(2)), Ok(0));
}

#[test]
fn read_before_and_after_close() {
    let mut ledger = start_test_validator(&[key(1)]);
    ledger.increment_counter(&key(1)).unwrap();
    ledger.increment_counter(&key(1)).unwrap();
    assert_eq!(ledger.get_account(&key(1)), Some(Account::new(897_840, vec![2], id())));
    assert_eq!(ledger.get_counter(&key(1)), Ok(2));
    assert!(ledger.close_counter(&key(1)).is_ok());
    assert_eq!(ledger.get_account(&key(1)), None);
    assert_eq!(ledger.get_counter(&key(1)), Err(AccountError::MissingAccount));
}

#[test]
fn close_twice_fails_the_second_time() {
    let mut ledger = start_test_validator(&[key(1)]);
    assert!(ledger.close_counter(&key(1)).is_ok());
    assert_eq!(ledger.close_counter(&key(1)), Err(AccountError::MissingAccount));
    assert_eq!(ledger.increment_counter(&key(1)), Err(AccountError::MissingAccount));
    assert_eq!(ledger.slot(), 1);
    assert_eq!(ledger.burned(), 897_840);
}

#[test]
fn close_of_an_absent_account_commits_nothing() {
    let mut ledger = start_test_validator(&[key(1)]);
    assert_eq!(ledger.close_counter(&key(2)), Err(AccountError::MissingAccount));
    assert_eq!(ledger.slot(), 0);
    assert_eq!(ledger.burned(), 0);
    assert_eq!(ledger.get_counter(&key(1)), Ok(0));
}

#[test]
fn burned_balance_adds_up_and_stops_at_the_largest() {
    let mut ledger = start_test_validator(&[]);
    assert!(ledger.add_account(key(1), u64::MAX - 5, vec![0]));
    assert!(ledger.add_account(key(2), 3, vec![0]));
    assert!(ledger.add_account(key(3), 9, vec![0]));
    ledger.close_counter(&key(2)).unwrap();
    assert_eq!(ledger.burned(), 3);
    ledger.close_counter(&key(1)).unwrap();
    assert_eq!(ledger.burned(), u64::MAX - 2);
    ledger.close_counter(&key(3)).unwrap();
    assert_eq!(ledger.burned(), u64::MAX);
}

#[test]
fn add_account_refuses_a_taken_key_and_a_dead_account() {
    let mut ledger = start_test_validator(&[key(1)]);
    assert!(!ledger.add_account(key(1), 5, vec![9]));
    assert_eq!(ledger.get_counter(&key(1)), Ok(0));
    assert!(!ledger.add_account(key(2), 0, Vec::new()));
    assert_eq!(ledger.get_account(&key(2)), None);
    assert!(ledger.add_account(key(2), 0, vec![9]));
    assert_eq!(ledger.get_account(&key(2)), Some(Account::new(0, vec![9], id())));
}

#[test]
fn a_closed_key_can_be_provisioned_again() {
    let mut ledger = start_test_validator(&[key(1)]);
    ledger.close_counter(&key(1)).unwrap();
    assert!(ledger.add_account(key(1), 7, vec![40]));
    assert_eq!(ledger.increment_counter(&key(1)).unwrap().account.data, vec![41]);
}

#[test]
fn slots_strictly_increase_over_commits() {
    let mut ledger = start_test_validator(&[key(1), key(2)]);
    let mut last = 0;
    for round in 0..4 {
        let target = if round % 2 == 0 { key(1) } else { key(2) };
        let told = ledger.increment_counter(&target).unwrap();
        assert!(told.slot > last);
        last = told.slot;
    }
    let told = ledger.close_counter(&key(2)).unwrap();
    assert!(told.slot > last);
    assert_eq!(told.slot, 5);
}

#[test]
fn read_errors_say_what_went_wrong() {
    assert_eq!(AccountError::MissingAccount.message(), "Counter account not found");
    assert_eq!(AccountError::MalformedData.message(), "Account data too small");
}

#[test]
fn counter_of_reads_the_first_byte() {
    assert_eq!(counter_of(&None), Err(AccountError::MissingAccount));
    assert_eq!(
        counter_of(&Some(Account::new(5, Vec::new(), id()))),
        Err(AccountError::MalformedData)
    );
    assert_eq!(counter_of(&Some(Account::new(0, vec![9, 8], id()))), Ok(9));
}
