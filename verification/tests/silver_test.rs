//! The stand-alone privacy contract.

use quickex::silver::{EventPublisher, PrivacyContract, PrivacyStorage, QuickSilverContract};
use quickex::storage::get_escrow_parties;
use quickex::{AccountId, Ledger, QuickexError};

fn setup() -> Ledger {
    Ledger::new()
}

/// An account whose encoding ends in 32 times the byte `seed`.
fn generate(seed: u8) -> AccountId {
    let mut encoding = vec![0u8, 0, 0, 18, 0, 0, 0, 0, 0, 0, 0, 0];
    encoding.extend_from_slice(&[seed; 32]);
    AccountId::from_encoding(encoding).unwrap()
}

#[test]
fn test_enable_and_check_privacy() {
    let mut env = setup();

    let account1 = generate(1);
    let account2 = generate(2);

    assert!(QuickSilverContract::enable_privacy(&mut env, &account1, 2));
    assert!(QuickSilverContract::enable_privacy(&mut env, &account2, 3));

    assert_eq!(QuickSilverContract::privacy_status(&env, &account1), Some(2));
    assert_eq!(QuickSilverContract::privacy_status(&env, &account2), Some(3));

    let account3 = generate(3);
    assert_eq!(QuickSilverContract::privacy_status(&env, &account3), None);
}

#[test]
fn test_privacy_history() {
    let mut env = setup();

    let account = generate(1);

    QuickSilverContract::enable_privacy(&mut env, &account, 1);
    QuickSilverContract::enable_privacy(&mut env, &account, 2);
    QuickSilverContract::enable_privacy(&mut env, &account, 3);

    let history = QuickSilverContract::privacy_history(&env, &account);

    assert_eq!(history.len(), 3);
    assert_eq!(*history.get(0).unwrap(), 3);
    assert_eq!(*history.get(1).unwrap(), 2);
    assert_eq!(*history.get(2).unwrap(), 1);
}

#[test]
fn test_test_create_escrow() {
    let mut env = setup();
    env.set_timestamp(1_700_000_000);

    let from = generate(1);
    let to = generate(2);
    let amount = 1_000;

    let escrow_id = QuickSilverContract::create_escrow(&mut env, &from, &to, amount);

    assert!(escrow_id > 0);
}

#[test]
fn test_test_health_check() {
    let _ = setup();
    assert!(QuickSilverContract::health_check());
}

#[test]
fn test_storage_isolation() {
    let mut env = setup();

    let account1 = generate(1);
    let account2 = generate(2);

    QuickSilverContract::enable_privacy(&mut env, &account1, 1);
    QuickSilverContract::enable_privacy(&mut env, &account2, 2);

    assert_eq!(QuickSilverContract::privacy_status(&env, &account1), Some(1));
    assert_eq!(QuickSilverContract::privacy_status(&env, &account2), Some(2));
}

#[test]
fn test_privacy_toggle_default_false() {
    let env = setup();

    let account = generate(1);

    assert!(!QuickSilverContract::get_privacy(&env, &account));
}

#[test]
fn test_privacy_toggle_owner_can_set() {
    let _env = setup();
}

#[test]
fn test_privacy_toggle_non_owner_unauthorized() {
    let env = setup();

    let owner = generate(1);
    let _non_owner = generate(2);
    assert!(!QuickSilverContract::get_privacy(&env, &owner));
}

#[test]
fn test_privacy_toggle_events() {
    let _env = setup();
}

#[test]
fn test_privacy_toggle_multiple_accounts() {
    let mut env = setup();

    let account1 = generate(1);
    let account2 = generate(2);

    QuickSilverContract::set_privacy(&mut env, &account1, true).unwrap();
    assert!(QuickSilverContract::get_privacy(&env, &account1));
    assert_eq!(QuickSilverContract::get_privacy(&env, &account2), false);

    QuickSilverContract::set_privacy(&mut env, &account2, true).unwrap();
    assert!(QuickSilverContract::get_privacy(&env, &account1));
    assert!(QuickSilverContract::get_privacy(&env, &account2));

    QuickSilverContract::set_privacy(&mut env, &account1, false).unwrap();
    assert_eq!(QuickSilverContract::get_privacy(&env, &account1), false);
    assert!(QuickSilverContract::get_privacy(&env, &account2));
}

#[test]
fn setting_the_flag_to_its_value_fails() {
    let mut env = setup();
    let account = generate(1);

    assert_eq!(
        QuickSilverContract::set_privacy(&mut env, &account, false),
        Err(QuickexError::PrivacyAlreadySet)
    );
    assert!(!QuickSilverContract::get_privacy(&env, &account));

    assert_eq!(QuickSilverContract::set_privacy(&mut env, &account, true), Ok(()));
    assert_eq!(
        QuickSilverContract::set_privacy(&mut env, &account, true),
        Err(QuickexError::PrivacyAlreadySet)
    );
    assert_eq!(
        PrivacyContract::set_privacy(&mut env, &account, true),
        Err(QuickexError::PrivacyAlreadySet)
    );
    assert!(PrivacyContract::get_privacy(&env, &account));

    assert!(env.events().is_empty());
    assert_eq!(
        env.take_required_auths(),
        vec![account.clone(), account.clone(), account.clone(), account]
    );
}

#[test]
fn alternating_the_flag_succeeds_each_time() {
    let mut env = setup();
    let account = generate(1);

    assert_eq!(PrivacyContract::set_privacy(&mut env, &account, true), Ok(()));
    assert!(PrivacyContract::get_privacy(&env, &account));
    assert_eq!(PrivacyContract::set_privacy(&mut env, &account, false), Ok(()));
    assert!(!PrivacyContract::get_privacy(&env, &account));
    assert_eq!(QuickSilverContract::set_privacy(&mut env, &account, true), Ok(()));
    assert!(QuickSilverContract::get_privacy(&env, &account));
    assert!(!QuickSilverContract::get_privacy(&env, &generate(2)));
}

#[test]
fn privacy_storage_reads_what_it_wrote() {
    let mut env = setup();
    let account = generate(1);

    assert!(!PrivacyStorage::get_privacy_state(&env, &account));
    PrivacyStorage::set_privacy_state(&mut env, &account, true);
    assert!(PrivacyStorage::get_privacy_state(&env, &account));
    assert!(!PrivacyStorage::get_privacy_state(&env, &generate(2)));
}

#[test]
fn the_event_carries_the_ledger_time() {
    let mut env = setup();
    env.set_timestamp(1234);
    let account = generate(1);

    let event = EventPublisher::privacy_toggled(&env, &account, true);

    assert_eq!(event.owner, account);
    assert!(event.enabled);
    assert_eq!(event.timestamp, 1234);
}

#[test]
fn create_escrow_numbers_by_ledger_time() {
    let mut env = setup();
    env.set_timestamp(1_700_000_000);
    let from = generate(1);
    let to = generate(2);

    let escrow_id = QuickSilverContract::create_escrow(&mut env, &from, &to, 1_000);

    assert_eq!(escrow_id, 1_700_000_000);
    assert_eq!(get_escrow_parties(&env, escrow_id), Some((from, to)));
}

#[test]
fn escrows_created_at_one_time_share_a_number() {
    let mut env = setup();
    env.set_timestamp(5);

    let first = QuickSilverContract::create_escrow(&mut env, &generate(1), &generate(2), 1);
    let second = QuickSilverContract::create_escrow(&mut env, &generate(3), &generate(4), 1);

    assert_eq!(first, second);
    assert_eq!(get_escrow_parties(&env, 5), Some((generate(3), generate(4))));
}
