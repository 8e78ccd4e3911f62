use vstd::prelude::*;

verus! {

/// A principal identity (a card owner, a card's point-of-sale identity, a
/// merchant, or the asset contract). The substrate's cryptographic addresses
/// are opaque to the ledger: the only thing the ledger ever does with one is
/// compare it against another, so an address is carried as a plain numeric
/// identifier.
#[derive(Clone, Copy, PartialEq, Eq, Structural, Hash, Debug)]
pub struct Address {
    pub id: u64,
}

/// Smallest funding amount accepted: one whole unit of the asset,
/// at seven fractional digits.
pub const MIN_FUNDING_AMOUNT: i128 = 10_000_000;

/// Length of the rolling spend window, in seconds.
pub const SECONDS_PER_DAY: u64 = 86_400;

/// One prepaid card record, as persisted per card identifier.
#[derive(Clone, Copy, PartialEq, Eq, Structural, Debug)]
pub struct Card {
    /// Principal that authorizes point-of-sale charges.
    pub card_address: Address,
    /// Principal that custodies funds and controls configuration.
    pub owner: Address,
    /// Current funds on the card, in minor units; never negative.
    pub balance: i128,
    /// Cap on cumulative spend within one rolling window; always positive.
    pub daily_limit: i128,
    /// Cumulative spend within the current window.
    pub spent_today: i128,
    /// Timestamp (seconds) of the most recent charge; anchors the window.
    pub last_spend_date: u64,
    /// Whether the card is eligible for point-of-sale charges.
    pub is_active: bool,
}

/// Mathematical image of a `Card`: the machine integers widened to `int`.
pub struct CardView {
    pub card_address: Address,
    pub owner: Address,
    pub balance: int,
    pub daily_limit: int,
    pub spent_today: int,
    pub last_spend_date: int,
    pub is_active: bool,
}

impl View for Card {
    type V = CardView;

    open spec fn view(&self) -> CardView {
        CardView {
            card_address: self.card_address,
            owner: self.owner,
            balance: self.balance as int,
            daily_limit: self.daily_limit as int,
            spent_today: self.spent_today as int,
            last_spend_date: self.last_spend_date as int,
            is_active: self.is_active,
        }
    }
}

impl CardView {
    /// Validity of a stored card record: the balance is non-negative, the
    /// daily limit is positive, and the spend counter never exceeds the
    /// limit (a charge only ever raises it to at most the limit, and a
    /// window reset drops it to zero).
    pub open spec fn inv(self) -> bool {
        &&& 0 <= self.balance
        &&& 0 < self.daily_limit
        &&& 0 <= self.spent_today <= self.daily_limit
        &&& 0 <= self.last_spend_date
    }
}

/// Key of the two-tier persisted layout: one durable record per card
/// identifier, plus the singleton asset-contract configuration. The ledger
/// itself holds its state in typed fields; this enum names the layout for
/// hosts that persist it in a key-value substrate.
#[derive(Clone, PartialEq, Eq, Hash, Debug)]
pub enum DataKey {
    Card(String),
    TokenAddress,
}

/// Typed rejection of an operation. Errors carry only a discriminant;
/// callers branch on the kind.
#[derive(Clone, Copy, PartialEq, Eq, Structural, Debug)]
pub enum Error {
    CardAlreadyExists,
    CardNotFound,
    /// Reserved for client compatibility; no operation currently returns it.
    InvalidCardAddress,
    InvalidDailyLimit,
    NotCardOwner,
    NotCardAddress,
    InvalidAmount,
    CardInactive,
    InsufficientBalance,
    DailyLimitExceeded,
    AssetNotConfigured,
}

} // verus!
