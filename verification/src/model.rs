//! Mathematical model of the ledger and of every operation on it.
//!
//! Each executable operation of [`crate::manager::CardManager`] promises in
//! its contract that its outcome — the new state and the returned status —
//! equals the outcome that one of the spec functions below computes on the
//! state's mathematical image. The laws of the ledger are stated and proved
//! over these functions.

use vstd::prelude::*;
use crate::types::{Address, CardView, Error, MIN_FUNDING_AMOUNT, SECONDS_PER_DAY};

verus! {

/// Mathematical image of the whole ledger: the singleton asset
/// configuration and the map from card identifier to card record.
pub struct LedgerView {
    pub token: Option<Address>,
    pub cards: Map<Seq<char>, CardView>,
}

impl LedgerView {
    /// Every stored card record is valid.
    pub open spec fn inv(self) -> bool {
        forall|k: Seq<char>| #[trigger] self.cards.contains_key(k) ==> self.cards[k].inv()
    }
}

/// The record a registration creates: empty, window unanchored, inactive.
pub open spec fn fresh_card(owner: Address, card_address: Address, daily_limit: int) -> CardView {
    CardView {
        card_address: card_address,
        owner: owner,
        balance: 0,
        daily_limit: daily_limit,
        spent_today: 0,
        last_spend_date: 0,
        is_active: false,
    }
}

/// The rolling window anchored at the card's last charge has elapsed at
/// time `now`, so the spend counter is due for a reset.
pub open spec fn window_expired(card: CardView, now: int) -> bool {
    now >= card.last_spend_date + SECONDS_PER_DAY
}

/// The spend counter a charge at time `now` is evaluated against: zero if
/// the window has elapsed, the accumulated counter otherwise.
pub open spec fn effective_spent(card: CardView, now: int) -> int {
    if window_expired(card, now) {
        0
    } else {
        card.spent_today
    }
}

/// Outcome of setting the asset configuration: unconditional overwrite.
pub open spec fn initialize_outcome(pre: LedgerView, token: Address) -> LedgerView {
    LedgerView { token: Some(token), ..pre }
}

/// Outcome of registering a card: fails if the identifier is taken or the
/// daily limit is not positive; otherwise creates a fresh record.
pub open spec fn register_outcome(
    pre: LedgerView,
    owner: Address,
    card_id: Seq<char>,
    card_address: Address,
    daily_limit: int,
) -> (LedgerView, Result<(), Error>) {
    if pre.cards.contains_key(card_id) {
        (pre, Err(Error::CardAlreadyExists))
    } else if daily_limit <= 0 {
        (pre, Err(Error::InvalidDailyLimit))
    } else {
        (
            LedgerView {
                cards: pre.cards.insert(card_id, fresh_card(owner, card_address, daily_limit)),
                ..pre
            },
            Ok(()),
        )
    }
}

/// Outcome of funding a card: the caller must be the stored owner, the
/// amount at least one whole unit, and the asset configured; on success the
/// balance grows by the amount and the card is active.
pub open spec fn top_up_outcome(
    pre: LedgerView,
    owner: Address,
    card_id: Seq<char>,
    amount: int,
) -> (LedgerView, Result<(), Error>) {
    if !pre.cards.contains_key(card_id) {
        (pre, Err(Error::CardNotFound))
    } else {
        let card = pre.cards[card_id];
        if owner != card.owner {
            (pre, Err(Error::NotCardOwner))
        } else if amount < MIN_FUNDING_AMOUNT {
            (pre, Err(Error::InvalidAmount))
        } else if pre.token is None {
            (pre, Err(Error::AssetNotConfigured))
        } else {
            (
                LedgerView {
                    cards: pre.cards.insert(
                        card_id,
                        CardView { balance: card.balance + amount, is_active: true, ..card },
                    ),
                    ..pre
                },
                Ok(()),
            )
        }
    }
}

/// Outcome of a point-of-sale charge at time `now`: the caller must be the
/// stored card address, the card active, the amount positive and covered by
/// the balance, the spend counter — reset first if the window elapsed —
/// must stay within the daily limit with the amount added, and the asset
/// must be configured. On success the balance shrinks, the counter grows,
/// and the window is re-anchored at `now`. A charge never deactivates the
/// card, even when it drains the balance to exactly zero.
pub open spec fn charge_outcome(
    pre: LedgerView,
    card_address: Address,
    card_id: Seq<char>,
    amount: int,
    now: int,
) -> (LedgerView, Result<(), Error>) {
    if !pre.cards.contains_key(card_id) {
        (pre, Err(Error::CardNotFound))
    } else {
        let card = pre.cards[card_id];
        if card_address != card.card_address {
            (pre, Err(Error::NotCardAddress))
        } else if !card.is_active {
            (pre, Err(Error::CardInactive))
        } else if amount <= 0 {
            (pre, Err(Error::InvalidAmount))
        } else if card.balance < amount {
            (pre, Err(Error::InsufficientBalance))
        } else if effective_spent(card, now) + amount > card.daily_limit {
            (pre, Err(Error::DailyLimitExceeded))
        } else if pre.token is None {
            (pre, Err(Error::AssetNotConfigured))
        } else {
            (
                LedgerView {
                    cards: pre.cards.insert(
                        card_id,
                        CardView {
                            balance: card.balance - amount,
                            spent_today: effective_spent(card, now) + amount,
                            last_spend_date: now,
                            ..card
                        },
                    ),
                    ..pre
                },
                Ok(()),
            )
        }
    }
}

/// The amount a withdrawal request stands for: zero asks for the full
/// current balance.
pub open spec fn requested_withdrawal(card: CardView, amount: int) -> int {
    if amount == 0 {
        card.balance
    } else {
        amount
    }
}

/// Outcome of a withdrawal: the caller must be the stored owner, the
/// effective amount positive and covered by the balance, and the asset
/// configured. On success the balance shrinks, and the card is deactivated
/// exactly when the balance is drained to zero.
pub open spec fn withdraw_outcome(
    pre: LedgerView,
    owner: Address,
    card_id: Seq<char>,
    amount: int,
) -> (LedgerView, Result<(), Error>) {
    if !pre.cards.contains_key(card_id) {
        (pre, Err(Error::CardNotFound))
    } else {
        let card = pre.cards[card_id];
        if owner != card.owner {
            (pre, Err(Error::NotCardOwner))
        } else {
            let taken = requested_withdrawal(card, amount);
            if taken <= 0 {
                (pre, Err(Error::InvalidAmount))
            } else if card.balance < taken {
                (pre, Err(Error::InsufficientBalance))
            } else if pre.token is None {
                (pre, Err(Error::AssetNotConfigured))
            } else {
                (
                    LedgerView {
                        cards: pre.cards.insert(
                            card_id,
                            CardView {
                                balance: card.balance - taken,
                                is_active: (if card.balance == taken {
                                    false
                                } else {
                                    card.is_active
                                }),
                                ..card
                            },
                        ),
                        ..pre
                    },
                    Ok(()),
                )
            }
        }
    }
}

/// Outcome of toggling activation: the caller must be the stored owner;
/// the flag is overwritten unconditionally, with no balance effect.
pub open spec fn set_status_outcome(
    pre: LedgerView,
    owner: Address,
    card_id: Seq<char>,
    is_active: bool,
) -> (LedgerView, Result<(), Error>) {
    if !pre.cards.contains_key(card_id) {
        (pre, Err(Error::CardNotFound))
    } else {
        let card = pre.cards[card_id];
        if owner != card.owner {
            (pre, Err(Error::NotCardOwner))
        } else {
            (
                LedgerView {
                    cards: pre.cards.insert(card_id, CardView { is_active: is_active, ..card }),
                    ..pre
                },
                Ok(()),
            )
        }
    }
}

} // verus!
