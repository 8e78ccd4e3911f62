use card_ledger::manager::CardManager;
use card_ledger::types::{Address, Error};

fn addr(id: u64) -> Address {
    Address { id }
}

#[test]
fn test_register_card() {
    let mut manager = CardManager::new();
    let owner = addr(1);
    let card_address = addr(2);
    let token_address = addr(3);

    manager.initialize(token_address);

    let result = manager.register_card(owner, "NFC001".to_string(), card_address, 1_000_0000000);
    assert!(result.is_ok());

    let card = manager.get_card_info("NFC001".to_string()).unwrap();
    assert_eq!(card.balance, 0);
    assert_eq!(card.daily_limit, 1_000_0000000);
    assert_eq!(card.is_active, false);
}

#[test]
fn register_fills_every_field() {
    let mut manager = CardManager::new();
    let event = manager
        .register_card(addr(10), "NFC-A".to_string(), addr(11), 500)
        .unwrap();
    assert_eq!(event.card_id, "NFC-A".to_string());
    assert_eq!(event.owner, addr(10));
    assert_eq!(event.card_address, addr(11));
    assert_eq!(event.daily_limit, 500);

    let card = manager.get_card_info("NFC-A".to_string()).unwrap();
    assert_eq!(card.owner, addr(10));
    assert_eq!(card.card_address, addr(11));
    assert_eq!(card.daily_limit, 500);
    assert_eq!(card.balance, 0);
    assert_eq!(card.spent_today, 0);
    assert_eq!(card.last_spend_date, 0);
    assert!(!card.is_active);
}

#[test]
fn register_same_id_twice_fails_whatever_the_arguments() {
    let mut manager = CardManager::new();
    manager.initialize(addr(3));
    assert!(manager
        .register_card(addr(1), "NFC001".to_string(), addr(2), 1_000)
        .is_ok());

    // Identical arguments.
    assert_eq!(
        manager.register_card(addr(1), "NFC001".to_string(), addr(2), 1_000),
        Err(Error::CardAlreadyExists)
    );
    // Entirely different owner, card address and limit.
    assert_eq!(
        manager.register_card(addr(7), "NFC001".to_string(), addr(8), 999_999),
        Err(Error::CardAlreadyExists)
    );
    // Even an otherwise invalid limit: existence is checked first.
    assert_eq!(
        manager.register_card(addr(7), "NFC001".to_string(), addr(8), -1),
        Err(Error::CardAlreadyExists)
    );

    // The stored record is untouched.
    let card = manager.get_card_info("NFC001".to_string()).unwrap();
    assert_eq!(card.owner, addr(1));
    assert_eq!(card.daily_limit, 1_000);
}

#[test]
fn register_rejects_non_positive_daily_limit() {
    let mut manager = CardManager::new();
    assert_eq!(
        manager.register_card(addr(1), "NFC002".to_string(), addr(2), 0),
        Err(Error::InvalidDailyLimit)
    );
    assert_eq!(
        manager.register_card(addr(1), "NFC002".to_string(), addr(2), -50),
        Err(Error::InvalidDailyLimit)
    );
    assert_eq!(
        manager.get_card_info("NFC002".to_string()),
        Err(Error::CardNotFound)
    );
}

#[test]
fn register_works_without_asset_configuration() {
    let mut manager = CardManager::new();
    assert!(manager
        .register_card(addr(1), "NFC003".to_string(), addr(2), 10)
        .is_ok());
    assert_eq!(manager.get_token_address(), Err(Error::AssetNotConfigured));
}

#[test]
fn distinct_ids_are_independent_records() {
    let mut manager = CardManager::new();
    assert!(manager
        .register_card(addr(1), "NFC-A".to_string(), addr(2), 100)
        .is_ok());
    assert!(manager
        .register_card(addr(3), "NFC-B".to_string(), addr(4), 200)
        .is_ok());
    let a = manager.get_card_info("NFC-A".to_string()).unwrap();
    let b = manager.get_card_info("NFC-B".to_string()).unwrap();
    assert_eq!(a.owner, addr(1));
    assert_eq!(b.owner, addr(3));
    assert_eq!(a.daily_limit, 100);
    assert_eq!(b.daily_limit, 200);
}
