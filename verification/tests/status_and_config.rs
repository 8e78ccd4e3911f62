use card_ledger::manager::CardManager;
use card_ledger::types::{Address, Error};

fn addr(id: u64) -> Address {
    Address { id }
}

#[test]
fn set_card_status_overwrites_unconditionally() {
    let mut manager = CardManager::new();
    manager.initialize(addr(99));
    manager
        .register_card(addr(1), "NFC001".to_string(), addr(2), 1_000_0000000)
        .unwrap();

    // Activate a card that was never funded.
    let event = manager.set_card_status(addr(1), "NFC001".to_string(), true).unwrap();
    assert_eq!(event.card_id, "NFC001".to_string());
    assert!(event.is_active);
    assert!(manager.get_card_info("NFC001".to_string()).unwrap().is_active);

    // Freeze it again; the balance is untouched.
    manager.top_up(addr(1), "NFC001".to_string(), 10_0000000).unwrap();
    manager.set_card_status(addr(1), "NFC001".to_string(), false).unwrap();
    let card = manager.get_card_info("NFC001".to_string()).unwrap();
    assert!(!card.is_active);
    assert_eq!(card.balance, 10_0000000);

    // A frozen card rejects charges until reactivated.
    assert_eq!(
        manager
            .process_transaction(
                addr(2),
                "NFC001".to_string(),
                1_0000000,
                addr(4),
                "M1".to_string(),
                1000,
            )
            .unwrap_err(),
        Error::CardInactive
    );
    manager.set_card_status(addr(1), "NFC001".to_string(), true).unwrap();
    assert!(manager
        .process_transaction(
            addr(2),
            "NFC001".to_string(),
            1_0000000,
            addr(4),
            "M1".to_string(),
            1000,
        )
        .is_ok());
}

#[test]
fn set_card_status_needs_the_owner() {
    let mut manager = CardManager::new();
    manager
        .register_card(addr(1), "NFC001".to_string(), addr(2), 100)
        .unwrap();
    assert_eq!(
        manager.set_card_status(addr(2), "NFC001".to_string(), true),
        Err(Error::NotCardOwner)
    );
    assert_eq!(
        manager.set_card_status(addr(1), "NFC404".to_string(), true),
        Err(Error::CardNotFound)
    );
    assert!(!manager.get_card_info("NFC001".to_string()).unwrap().is_active);
}

#[test]
fn token_address_is_set_once_and_read_back() {
    let mut manager = CardManager::new();
    assert_eq!(manager.get_token_address(), Err(Error::AssetNotConfigured));
    manager.initialize(addr(42));
    assert_eq!(manager.get_token_address(), Ok(addr(42)));
    // The configuration write is an unconditional overwrite.
    manager.initialize(addr(43));
    assert_eq!(manager.get_token_address(), Ok(addr(43)));
}

#[test]
fn get_card_info_unknown_id_fails_not_found() {
    let manager = CardManager::new();
    assert_eq!(
        manager.get_card_info("NFC001".to_string()),
        Err(Error::CardNotFound)
    );
}
