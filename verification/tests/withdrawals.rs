use card_ledger::manager::CardManager;
use card_ledger::types::{Address, Error};

fn addr(id: u64) -> Address {
    Address { id }
}

fn funded_manager(funding: i128) -> CardManager {
    let mut manager = CardManager::new();
    manager.initialize(addr(99));
    manager
        .register_card(addr(1), "NFC001".to_string(), addr(2), 1_000_0000000)
        .unwrap();
    manager.top_up(addr(1), "NFC001".to_string(), funding).unwrap();
    manager
}

#[test]
fn partial_withdrawal_keeps_card_active() {
    let mut manager = funded_manager(10_0000000);
    let event = manager.withdraw(addr(1), "NFC001".to_string(), 3_0000000).unwrap();
    assert_eq!(event.card_id, "NFC001".to_string());
    assert_eq!(event.amount, 3_0000000);
    assert_eq!(event.remaining_balance, 7_0000000);
    let card = manager.get_card_info("NFC001".to_string()).unwrap();
    assert_eq!(card.balance, 7_0000000);
    assert!(card.is_active);
}

#[test]
fn withdraw_zero_takes_everything_and_deactivates() {
    let mut manager = funded_manager(10_0000000);
    let event = manager.withdraw(addr(1), "NFC001".to_string(), 0).unwrap();
    // The event reports the amount actually taken: the whole balance.
    assert_eq!(event.amount, 10_0000000);
    assert_eq!(event.remaining_balance, 0);
    let card = manager.get_card_info("NFC001".to_string()).unwrap();
    assert_eq!(card.balance, 0);
    assert!(!card.is_active);
}

#[test]
fn withdraw_exact_balance_matches_withdraw_zero() {
    let mut first = funded_manager(10_0000000);
    let mut second = funded_manager(10_0000000);

    let by_zero = first.withdraw(addr(1), "NFC001".to_string(), 0).unwrap();
    let by_amount = second.withdraw(addr(1), "NFC001".to_string(), 10_0000000).unwrap();

    assert_eq!(by_zero.amount, by_amount.amount);
    assert_eq!(by_zero.remaining_balance, by_amount.remaining_balance);
    assert_eq!(
        first.get_card_info("NFC001".to_string()).unwrap(),
        second.get_card_info("NFC001".to_string()).unwrap()
    );
    let card = first.get_card_info("NFC001".to_string()).unwrap();
    assert_eq!(card.balance, 0);
    assert!(!card.is_active);
}

#[test]
fn withdraw_all_from_empty_card_is_invalid() {
    let mut manager = CardManager::new();
    manager.initialize(addr(99));
    manager
        .register_card(addr(1), "NFC001".to_string(), addr(2), 1_000_0000000)
        .unwrap();
    // Balance is zero, so a withdraw-all request asks for zero.
    assert_eq!(
        manager.withdraw(addr(1), "NFC001".to_string(), 0),
        Err(Error::InvalidAmount)
    );
    assert_eq!(
        manager.withdraw(addr(1), "NFC001".to_string(), -1),
        Err(Error::InvalidAmount)
    );
}

#[test]
fn withdraw_beyond_balance_fails() {
    let mut manager = funded_manager(10_0000000);
    assert_eq!(
        manager.withdraw(addr(1), "NFC001".to_string(), 10_0000001),
        Err(Error::InsufficientBalance)
    );
    let card = manager.get_card_info("NFC001".to_string()).unwrap();
    assert_eq!(card.balance, 10_0000000);
}

#[test]
fn withdraw_needs_the_owner() {
    let mut manager = funded_manager(10_0000000);
    assert_eq!(
        manager.withdraw(addr(2), "NFC001".to_string(), 0),
        Err(Error::NotCardOwner)
    );
    assert_eq!(
        manager.withdraw(addr(1), "NFC404".to_string(), 0),
        Err(Error::CardNotFound)
    );
}
