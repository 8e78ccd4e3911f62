//! Notification payloads. Every successfully committed operation hands one
//! of these back to the caller, which forwards it to the event sink; the
//! sink's delivery and durability are outside the ledger.

use vstd::prelude::*;
use crate::types::Address;

verus! {

/// A card was registered.
#[derive(Clone, PartialEq, Eq, Debug)]
pub struct CardRegisteredEvent {
    pub card_id: String,
    pub card_address: Address,
    pub owner: Address,
    pub daily_limit: i128,
}

/// A card was funded; `new_balance` is the balance after the funding.
#[derive(Clone, PartialEq, Eq, Debug)]
pub struct CardToppedUpEvent {
    pub card_id: String,
    pub amount: i128,
    pub new_balance: i128,
}

/// A point-of-sale charge was committed.
#[derive(Clone, PartialEq, Eq, Debug)]
pub struct TransactionProcessedEvent {
    pub card_id: String,
    pub amount: i128,
    pub merchant: Address,
    pub merchant_id: String,
    pub remaining_balance: i128,
}

/// Funds were withdrawn; `amount` is the amount actually taken, so a
/// withdraw-all request reports the drained balance.
#[derive(Clone, PartialEq, Eq, Debug)]
pub struct CardWithdrawnEvent {
    pub card_id: String,
    pub amount: i128,
    pub remaining_balance: i128,
}

/// The activation flag was overwritten.
#[derive(Clone, PartialEq, Eq, Debug)]
pub struct CardStatusChangedEvent {
    pub card_id: String,
    pub is_active: bool,
}

} // verus!
