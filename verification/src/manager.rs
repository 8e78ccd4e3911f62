//! The transaction engine. A `CardManager` holds the asset configuration
//! and the card record store, and runs every operation as
//! validate → mutate → report: each call either commits in full — the new
//! record is stored and the notification payload returned — or rejects with
//! a typed error and changes nothing.
//!
//! The host around the engine supplies what the substrate decides: it
//! verifies the invoking principal's signature before passing the principal
//! in, supplies the current time to a charge, performs the asset transfer
//! that a successful funding, charge or withdrawal calls for, and delivers
//! the returned event. The substrate guarantees atomicity: if the transfer
//! fails, the host abandons the mutated state and keeps the old one.

use vstd::prelude::*;
use crate::events::{
    CardRegisteredEvent, CardStatusChangedEvent, CardToppedUpEvent, CardWithdrawnEvent,
    TransactionProcessedEvent,
};
use crate::model::{
    charge_outcome, initialize_outcome, register_outcome, requested_withdrawal,
    set_status_outcome, top_up_outcome, withdraw_outcome, LedgerView,
};
use crate::store::CardStore;
use crate::types::{Address, Card, CardView, Error, MIN_FUNDING_AMOUNT, SECONDS_PER_DAY};

verus! {

/// The ledger: singleton asset configuration plus the card record store.
#[derive(Clone)]
pub struct CardManager {
    pub token_address: Option<Address>,
    pub cards: CardStore,
}

impl View for CardManager {
    type V = LedgerView;

    open spec fn view(&self) -> LedgerView {
        LedgerView { token: self.token_address, cards: self.cards@ }
    }
}

impl CardManager {
    /// Well-formedness: the store keeps its keys distinct and every stored
    /// record is valid. Established at creation, preserved by every
    /// operation.
    pub open spec fn wf(&self) -> bool {
        self.cards.wf() && self@.inv()
    }

    /// A ledger with no cards and no asset configured.
    pub fn new() -> (manager: Self)
        ensures
            manager.wf(),
            manager@.token is None,
            manager@.cards == Map::<Seq<char>, CardView>::empty(),
    {
        CardManager { token_address: None, cards: CardStore::new() }
    }

    /// Set the asset-contract reference all fund movement settles in.
    /// Unconditional overwrite; the substrate restricts who may call it.
    pub fn initialize(&mut self, token: Address)
        requires
            old(self).wf(),
        ensures
            final(self).wf(),
            final(self)@ == initialize_outcome(old(self)@, token),
    {
        self.token_address = Some(token);
    }

    /// Register a new card under `card_id`: fresh record, zero balance,
    /// inactive, window unanchored. The invoking principal is `owner`.
    pub fn register_card(
        &mut self,
        owner: Address,
        card_id: String,
        card_address: Address,
        daily_limit: i128,
    ) -> (r: Result<CardRegisteredEvent, Error>)
        requires
            old(self).wf(),
        ensures
            final(self).wf(),
            ({
                let (post, status) = register_outcome(
                    old(self)@,
                    owner,
                    card_id@,
                    card_address,
                    daily_limit as int,
                );
                &&& final(self)@ == post
                &&& match r {
                    Ok(ev) => {
                        &&& status is Ok
                        &&& ev.card_id@ == card_id@
                        &&& ev.card_address == card_address
                        &&& ev.owner == owner
                        &&& ev.daily_limit == daily_limit
                    },
                    Err(e) => status == Err::<(), Error>(e),
                }
            }),
    {
        if self.cards.get(&card_id).is_some() {
            return Err(Error::CardAlreadyExists);
        }
        if daily_limit <= 0 {
            return Err(Error::InvalidDailyLimit);
        }
        let card = Card {
            card_address: card_address,
            owner: owner,
            balance: 0,
            daily_limit: daily_limit,
            spent_today: 0,
            last_spend_date: 0,
            is_active: false,
        };
        self.cards.set(&card_id, card);
        Ok(CardRegisteredEvent { card_id, card_address, owner, daily_limit })
    }

    /// Fund a card. The invoking principal is `owner` and must match the
    /// stored owner; the amount must be at least one whole unit. On success
    /// the host moves `amount` from the owner into custody; the returned
    /// event carries the new balance.
    pub fn top_up(&mut self, owner: Address, card_id: String, amount: i128) -> (r: Result<
        CardToppedUpEvent,
        Error,
    >)
        requires
            old(self).wf(),
            top_up_outcome(old(self)@, owner, card_id@, amount as int).1 is Ok ==> old(
                self,
            )@.cards[card_id@].balance + amount <= i128::MAX,
        ensures
            final(self).wf(),
            ({
                let (post, status) = top_up_outcome(old(self)@, owner, card_id@, amount as int);
                &&& final(self)@ == post
                &&& match r {
                    Ok(ev) => {
                        &&& status is Ok
                        &&& ev.card_id@ == card_id@
                        &&& ev.amount == amount
                        &&& ev.new_balance == post.cards[card_id@].balance
                    },
                    Err(e) => status == Err::<(), Error>(e),
                }
            }),
    {
        let card = match self.cards.get(&card_id) {
            None => {
                return Err(Error::CardNotFound);
            },
            Some(card) => card,
        };
        if owner != card.owner {
            return Err(Error::NotCardOwner);
        }
        if amount < MIN_FUNDING_AMOUNT {
            return Err(Error::InvalidAmount);
        }
        if self.token_address.is_none() {
            return Err(Error::AssetNotConfigured);
        }
        let new_balance = card.balance + amount;
        let updated = Card { balance: new_balance, is_active: true, ..card };
        self.cards.set(&card_id, updated);
        Ok(CardToppedUpEvent { card_id, amount, new_balance })
    }

    /// Charge a card at a point of sale, at time `now`. The invoking
    /// principal is `card_address` and must match the stored one; the card
    /// must be active, the amount positive and covered by the balance, and
    /// the spend counter — reset first if the window anchored at the last
    /// charge has elapsed — must stay within the daily limit. On success
    /// the host moves `amount` from custody to `merchant`.
    pub fn process_transaction(
        &mut self,
        card_address: Address,
        card_id: String,
        amount: i128,
        merchant: Address,
        merchant_id: String,
        now: u64,
    ) -> (r: Result<TransactionProcessedEvent, Error>)
        requires
            old(self).wf(),
        ensures
            final(self).wf(),
            ({
                let (post, status) = charge_outcome(
                    old(self)@,
                    card_address,
                    card_id@,
                    amount as int,
                    now as int,
                );
                &&& final(self)@ == post
                &&& match r {
                    Ok(ev) => {
                        &&& status is Ok
                        &&& ev.card_id@ == card_id@
                        &&& ev.amount == amount
                        &&& ev.merchant == merchant
                        &&& ev.merchant_id@ == merchant_id@
                        &&& ev.remaining_balance == post.cards[card_id@].balance
                    },
                    Err(e) => status == Err::<(), Error>(e),
                }
            }),
    {
        let card = match self.cards.get(&card_id) {
            None => {
                return Err(Error::CardNotFound);
            },
            Some(card) => card,
        };
        if card_address != card.card_address {
            return Err(Error::NotCardAddress);
        }
        if !card.is_active {
            return Err(Error::CardInactive);
        }
        if amount <= 0 {
            return Err(Error::InvalidAmount);
        }
        if card.balance < amount {
            return Err(Error::InsufficientBalance);
        }
        let spent: i128 = if now >= SECONDS_PER_DAY && now - SECONDS_PER_DAY
            >= card.last_spend_date {
            0
        } else {
            card.spent_today
        };
        if amount > card.daily_limit - spent {
            return Err(Error::DailyLimitExceeded);
        }
        if self.token_address.is_none() {
            return Err(Error::AssetNotConfigured);
        }
        let updated = Card {
            balance: card.balance - amount,
            spent_today: spent + amount,
            last_spend_date: now,
            ..card
        };
        self.cards.set(&card_id, updated);
        Ok(
            TransactionProcessedEvent {
                card_id,
                amount,
                merchant,
                merchant_id,
                remaining_balance: updated.balance,
            },
        )
    }

    /// Withdraw funds back to the owner; an `amount` of zero asks for the
    /// full current balance. The invoking principal is `owner` and must
    /// match the stored owner. On success the host moves the taken amount
    /// from custody to the owner; the card is deactivated exactly when the
    /// balance is drained to zero.
    pub fn withdraw(&mut self, owner: Address, card_id: String, amount: i128) -> (r: Result<
        CardWithdrawnEvent,
        Error,
    >)
        requires
            old(self).wf(),
        ensures
            final(self).wf(),
            ({
                let (post, status) = withdraw_outcome(old(self)@, owner, card_id@, amount as int);
                &&& final(self)@ == post
                &&& match r {
                    Ok(ev) => {
                        &&& status is Ok
                        &&& ev.card_id@ == card_id@
                        &&& ev.amount == requested_withdrawal(
                            old(self)@.cards[card_id@],
                            amount as int,
                        )
                        &&& ev.remaining_balance == post.cards[card_id@].balance
                    },
                    Err(e) => status == Err::<(), Error>(e),
                }
            }),
    {
        let card = match self.cards.get(&card_id) {
            None => {
                return Err(Error::CardNotFound);
            },
            Some(card) => card,
        };
        if owner != card.owner {
            return Err(Error::NotCardOwner);
        }
        let taken: i128 = if amount == 0 {
            card.balance
        } else {
            amount
        };
        if taken <= 0 {
            return Err(Error::InvalidAmount);
        }
        if card.balance < taken {
            return Err(Error::InsufficientBalance);
        }
        if self.token_address.is_none() {
            return Err(Error::AssetNotConfigured);
        }
        let remaining = card.balance - taken;
        let updated = Card {
            balance: remaining,
            is_active: (if remaining == 0 {
                false
            } else {
                card.is_active
            }),
            ..card
        };
        self.cards.set(&card_id, updated);
        Ok(CardWithdrawnEvent { card_id, amount: taken, remaining_balance: remaining })
    }

    /// Overwrite the activation flag. The invoking principal is `owner`
    /// and must match the stored owner; no balance effect.
    pub fn set_card_status(&mut self, owner: Address, card_id: String, is_active: bool) -> (r:
        Result<CardStatusChangedEvent, Error>)
        requires
            old(self).wf(),
        ensures
            final(self).wf(),
            ({
                let (post, status) = set_status_outcome(old(self)@, owner, card_id@, is_active);
                &&& final(self)@ == post
                &&& match r {
                    Ok(ev) => {
                        &&& status is Ok
                        &&& ev.card_id@ == card_id@
                        &&& ev.is_active == is_active
                    },
                    Err(e) => status == Err::<(), Error>(e),
                }
            }),
    {
        let card = match self.cards.get(&card_id) {
            None => {
                return Err(Error::CardNotFound);
            },
            Some(card) => card,
        };
        if owner != card.owner {
            return Err(Error::NotCardOwner);
        }
        let updated = Card { is_active: is_active, ..card };
        self.cards.set(&card_id, updated);
        Ok(CardStatusChangedEvent { card_id, is_active })
    }

    /// Read a card record; no authorization required.
    pub fn get_card_info(&self, card_id: String) -> (r: Result<Card, Error>)
        requires
            self.wf(),
        ensures
            match r {
                Ok(card) => self@.cards.contains_key(card_id@) && card@ == self@.cards[card_id@],
                Err(e) => !self@.cards.contains_key(card_id@) && e == Error::CardNotFound,
            },
    {
        match self.cards.get(&card_id) {
            Some(card) => Ok(card),
            None => Err(Error::CardNotFound),
        }
    }

    /// Read the asset-contract reference.
    pub fn get_token_address(&self) -> (r: Result<Address, Error>)
        ensures
            match r {
                Ok(token) => self@.token == Some(token),
                Err(e) => self@.token is None && e == Error::AssetNotConfigured,
            },
    {
        match self.token_address {
            Some(token) => Ok(token),
            None => Err(Error::AssetNotConfigured),
        }
    }
}

} // verus!
