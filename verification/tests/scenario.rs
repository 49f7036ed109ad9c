use pubsub_counter::notification::Notification;
use pubsub_counter::program::id;
use pubsub_counter::pubkey::Pubkey;
use pubsub_counter::pubsub::SubscriptionContext;
use pubsub_counter::registry::SubscriptionRegistry;
use pubsub_counter::test_validator::{start_test_validator, ValidatorContext};

fn key(tag: u8) -> Pubkey {
    Pubkey::new_from_array([tag; 32])
}

fn increment(
    ledger: &mut ValidatorContext,
    target: &Pubkey,
    endpoints: &mut [&mut SubscriptionContext],
) -> Notification {
    let told = ledger.increment_counter(target).unwrap();
    for endpoint in endpoints.iter_mut() {
        endpoint.deliver(&told);
    }
    told
}

fn close(
    ledger: &mut ValidatorContext,
    target: &Pubkey,
    endpoints: &mut [&mut SubscriptionContext],
) -> Notification {
    let told = ledger.close_counter(target).unwrap();
    for endpoint in endpoints.iter_mut() {
        endpoint.deliver(&told);
    }
    told
}

#[test]
fn two_accounts_three_increments_then_one_closed() {
    let key1 = key(1);
    let key2 = key(2);
    let mut ledger = start_test_validator(&[key1, key2]);
    let mut registry = SubscriptionRegistry::new();
    let account_1 = registry.register(SubscriptionContext::account(&key1, Ok(())).unwrap());
    let account_2 = registry.register(SubscriptionContext::account(&key2, Ok(())).unwrap());
    let program = registry.register(SubscriptionContext::program(&id(), Ok(())).unwrap());

    for round in 1..=3u8 {
        let told = ledger.increment_counter(&key1).unwrap();
        registry.publish(&told);
        assert_eq!(ledger.get_counter(&key1), Ok(round));
        let told = ledger.increment_counter(&key2).unwrap();
        registry.publish(&told);
        assert_eq!(ledger.get_counter(&key2), Ok(round));
    }

    let told = ledger.close_counter(&key2).unwrap();
    registry.publish(&told);
    assert!(ledger.get_account(&key2).is_none());

    assert_eq!(registry.get(account_1).unwrap().len(), 3);
    assert_eq!(registry.get(account_2).unwrap().len(), 4);
    assert_eq!(registry.get(program).unwrap().len(), 6);

    assert!(!registry.get(account_1).unwrap().detects_closure());
    assert!(registry.get(account_2).unwrap().detects_closure());
    assert!(!registry.get(program).unwrap().detects_closure());

    let report = registry.shutdown_all();
    assert!(report.failures.is_empty());
    assert!(registry.all_closed());
    assert_eq!(registry.get(account_1).unwrap().len(), 3);
    assert_eq!(registry.get(account_2).unwrap().len(), 4);
    assert_eq!(registry.get(program).unwrap().len(), 6);
}

#[test]
fn closing_grows_the_account_log_by_one_and_not_the_program_log() {
    let target = key(1);
    let mut ledger = start_test_validator(&[target, key(2)]);
    let mut by_account = SubscriptionContext::account(&target, Ok(())).unwrap();
    let mut by_program = SubscriptionContext::program(&id(), Ok(())).unwrap();
    increment(&mut ledger, &target, &mut [&mut by_account, &mut by_program]);
    increment(&mut ledger, &key(2), &mut [&mut by_account, &mut by_program]);
    let (account_before, program_before) = (by_account.len(), by_program.len());
    assert_eq!((account_before, program_before), (1, 2));
    let told = close(&mut ledger, &target, &mut [&mut by_account, &mut by_program]);
    assert!(told.reports_closure());
    assert_eq!(by_account.len(), account_before + 1);
    assert_eq!(by_program.len(), program_before);
}

#[test]
fn increments_then_close_are_all_counted_by_the_account_log() {
    for times in [0usize, 1, 5, 12] {
        let target = key(1);
        let mut ledger = start_test_validator(&[target]);
        let mut by_account = SubscriptionContext::account(&target, Ok(())).unwrap();
        for _ in 0..times {
            increment(&mut ledger, &target, &mut [&mut by_account]);
        }
        close(&mut ledger, &target, &mut [&mut by_account]);
        assert_eq!(by_account.len(), times + 1);
    }
}

#[test]
fn two_accounts_incremented_alike_fill_the_program_log_twice_over() {
    for times in [0usize, 1, 4, 9] {
        let mut ledger = start_test_validator(&[key(1), key(2)]);
        let mut by_program = SubscriptionContext::program(&id(), Ok(())).unwrap();
        for _ in 0..times {
            increment(&mut ledger, &key(1), &mut [&mut by_program]);
        }
        for _ in 0..times {
            increment(&mut ledger, &key(2), &mut [&mut by_program]);
        }
        assert_eq!(by_program.len(), 2 * times);
    }
}

#[test]
fn the_order_of_increments_does_not_change_the_program_log_length() {
    let mut ledger = start_test_validator(&[key(1), key(2)]);
    let mut by_program = SubscriptionContext::program(&id(), Ok(())).unwrap();
    for target in [key(2), key(1), key(1), key(2), key(2), key(1)] {
        increment(&mut ledger, &target, &mut [&mut by_program]);
    }
    assert_eq!(by_program.len(), 6);
}

#[test]
fn closures_never_reach_the_program_log() {
    let keys = [key(1), key(2), key(3), key(4)];
    let mut ledger = start_test_validator(&keys);
    let mut by_program = SubscriptionContext::program(&id(), Ok(())).unwrap();
    let mut watched = SubscriptionContext::account(&keys[3], Ok(())).unwrap();
    for _ in 0..2 {
        for target in keys.iter() {
            increment(&mut ledger, target, &mut [&mut by_program, &mut watched]);
        }
    }
    for target in keys[1..].iter() {
        close(&mut ledger, target, &mut [&mut by_program, &mut watched]);
    }
    assert_eq!(by_program.len(), 4 * 2);
    assert_eq!(watched.len(), 2 + 1);
}

#[test]
fn a_rejected_mutation_notifies_nobody() {
    let mut ledger = start_test_validator(&[key(1)]);
    let mut registry = SubscriptionRegistry::new();
    registry.register(SubscriptionContext::account(&key(2), Ok(())).unwrap());
    registry.register(SubscriptionContext::program(&id(), Ok(())).unwrap());
    assert!(ledger.increment_counter(&key(2)).is_err());
    assert!(ledger.close_counter(&key(2)).is_err());
    assert_eq!(registry.get(0).unwrap().len(), 0);
    assert_eq!(registry.get(1).unwrap().len(), 0);
    assert_eq!(ledger.slot(), 0);
}

#[test]
fn logs_are_in_commit_order() {
    let mut ledger = start_test_validator(&[key(1), key(2)]);
    let mut by_program = SubscriptionContext::program(&id(), Ok(())).unwrap();
    let mut by_account = SubscriptionContext::account(&key(2), Ok(())).unwrap();
    for target in [key(1), key(2), key(2), key(1), key(2)] {
        increment(&mut ledger, &target, &mut [&mut by_program, &mut by_account]);
    }
    close(&mut ledger, &key(2), &mut [&mut by_program, &mut by_account]);
    let slots = |endpoint: &SubscriptionContext| -> Vec<u64> {
        (0..endpoint.len()).map(|place| endpoint.get(place).unwrap().slot).collect()
    };
    assert_eq!(slots(&by_program), vec![1, 2, 3, 4, 5]);
    assert_eq!(slots(&by_account), vec![2, 3, 5, 6]);
}
