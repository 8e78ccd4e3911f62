//! Laws of the ledger, stated and proved over the mathematical model.
//! Every executable operation's contract ties its outcome to the model, so
//! these laws hold of the executable ledger as well.

use vstd::prelude::*;
use crate::model::{
    charge_outcome, effective_spent, initialize_outcome, register_outcome, set_status_outcome,
    top_up_outcome, withdraw_outcome, LedgerView,
};
use crate::types::{Address, Error, SECONDS_PER_DAY};

verus! {

/// One invocation of the ledger, with the inputs the substrate supplies.
pub enum LedgerOp {
    Initialize { token: Address },
    Register { owner: Address, card_id: Seq<char>, card_address: Address, daily_limit: int },
    TopUp { owner: Address, card_id: Seq<char>, amount: int },
    Charge { card_address: Address, card_id: Seq<char>, amount: int, now: int },
    Withdraw { owner: Address, card_id: Seq<char>, amount: int },
    SetStatus { owner: Address, card_id: Seq<char>, is_active: bool },
}

/// The invocation's inputs are ones a substrate can supply: a charge's
/// timestamp is never negative.
pub open spec fn op_wf(op: LedgerOp) -> bool {
    match op {
        LedgerOp::Charge { now, .. } => 0 <= now,
        _ => true,
    }
}

pub open spec fn ops_wf(ops: Seq<LedgerOp>) -> bool {
    forall|i: int| 0 <= i < ops.len() ==> op_wf(#[trigger] ops[i])
}

/// The state after one invocation, whether it committed or rejected.
pub open spec fn step(s: LedgerView, op: LedgerOp) -> LedgerView {
    match op {
        LedgerOp::Initialize { token } => initialize_outcome(s, token),
        LedgerOp::Register { owner, card_id, card_address, daily_limit } => register_outcome(
            s,
            owner,
            card_id,
            card_address,
            daily_limit,
        ).0,
        LedgerOp::TopUp { owner, card_id, amount } => top_up_outcome(s, owner, card_id, amount).0,
        LedgerOp::Charge { card_address, card_id, amount, now } => charge_outcome(
            s,
            card_address,
            card_id,
            amount,
            now,
        ).0,
        LedgerOp::Withdraw { owner, card_id, amount } => withdraw_outcome(
            s,
            owner,
            card_id,
            amount,
        ).0,
        LedgerOp::SetStatus { owner, card_id, is_active } => set_status_outcome(
            s,
            owner,
            card_id,
            is_active,
        ).0,
    }
}

/// The state after a sequence of invocations, applied in order.
pub open spec fn run(s: LedgerView, ops: Seq<LedgerOp>) -> LedgerView
    decreases ops.len(),
{
    if ops.len() == 0 {
        s
    } else {
        step(run(s, ops.drop_last()), ops.last())
    }
}

/// Every single invocation preserves validity of every stored record.
pub proof fn lemma_step_preserves_inv(s: LedgerView, op: LedgerOp)
    requires
        s.inv(),
        op_wf(op),
    ensures
        step(s, op).inv(),
{
}

/// Every sequence of invocations preserves validity of every stored record.
pub proof fn lemma_run_preserves_inv(s: LedgerView, ops: Seq<LedgerOp>)
    requires
        s.inv(),
        ops_wf(ops),
    ensures
        run(s, ops).inv(),
    decreases ops.len(),
{
    if ops.len() > 0 {
        assert forall|i: int| 0 <= i < ops.drop_last().len() implies op_wf(
            #[trigger] ops.drop_last()[i],
        ) by {
            assert(op_wf(ops[i]));
        }
        lemma_run_preserves_inv(s, ops.drop_last());
        lemma_step_preserves_inv(run(s, ops.drop_last()), ops.last());
    }
}

/// Whatever sequence of invocations a valid ledger runs, no card's balance
/// ever goes negative.
pub proof fn lemma_balance_never_negative(s: LedgerView, ops: Seq<LedgerOp>, card_id: Seq<char>)
    requires
        s.inv(),
        ops_wf(ops),
        run(s, ops).cards.contains_key(card_id),
    ensures
        run(s, ops).cards[card_id].balance >= 0,
{
    lemma_run_preserves_inv(s, ops);
}

/// Registering a card identifier a second time always fails with
/// `CardAlreadyExists` and changes nothing, whatever the second call's
/// arguments.
pub proof fn lemma_reregister_always_fails(
    s: LedgerView,
    owner1: Address,
    card_id: Seq<char>,
    card_address1: Address,
    daily_limit1: int,
    owner2: Address,
    card_address2: Address,
    daily_limit2: int,
)
    requires
        register_outcome(s, owner1, card_id, card_address1, daily_limit1).1 is Ok,
    ensures
        ({
            let s1 = register_outcome(s, owner1, card_id, card_address1, daily_limit1).0;
            register_outcome(s1, owner2, card_id, card_address2, daily_limit2) == (
                s1,
                Err::<(), Error>(Error::CardAlreadyExists),
            )
        }),
{
}

/// Two charges at times `t1 < t2` on the same card: after the first, the
/// window is anchored at `t1` and the counter holds what that charge was
/// evaluated against plus its amount. If the second comes within the
/// window, the amounts accumulate and its cap check uses the sum; if the
/// window has elapsed, the counter resets to zero before the second charge
/// is evaluated.
pub proof fn lemma_daily_window(
    s: LedgerView,
    card_address: Address,
    card_id: Seq<char>,
    amount1: int,
    t1: int,
    amount2: int,
    t2: int,
)
    requires
        s.inv(),
        charge_outcome(s, card_address, card_id, amount1, t1).1 is Ok,
        t1 < t2,
    ensures
        ({
            let s1 = charge_outcome(s, card_address, card_id, amount1, t1).0;
            let c1 = s1.cards[card_id];
            let second = charge_outcome(s1, card_address, card_id, amount2, t2);
            &&& c1.last_spend_date == t1
            &&& c1.spent_today == effective_spent(s.cards[card_id], t1) + amount1
            &&& (t2 - t1 < SECONDS_PER_DAY ==> (second.1 is Ok <==> (0 < amount2 <= c1.balance
                && c1.spent_today + amount2 <= c1.daily_limit)))
            &&& (t2 - t1 < SECONDS_PER_DAY && second.1 is Ok
                ==> second.0.cards[card_id].spent_today == c1.spent_today + amount2)
            &&& (t2 - t1 >= SECONDS_PER_DAY ==> (second.1 is Ok <==> (0 < amount2 <= c1.balance
                && amount2 <= c1.daily_limit)))
            &&& (t2 - t1 >= SECONDS_PER_DAY && second.1 is Ok
                ==> second.0.cards[card_id].spent_today == amount2)
        }),
{
}

/// A charge invoked by any principal other than the card's stored
/// point-of-sale address — the owner included — fails with
/// `NotCardAddress` and changes nothing.
pub proof fn lemma_charge_needs_card_address(
    s: LedgerView,
    invoker: Address,
    card_id: Seq<char>,
    amount: int,
    now: int,
)
    requires
        s.cards.contains_key(card_id),
        invoker != s.cards[card_id].card_address,
    ensures
        charge_outcome(s, invoker, card_id, amount, now) == (
            s,
            Err::<(), Error>(Error::NotCardAddress),
        ),
{
}

/// A funding invoked by any principal other than the card's stored owner —
/// the card's point-of-sale address included — fails with `NotCardOwner`
/// and changes nothing.
pub proof fn lemma_top_up_needs_owner(
    s: LedgerView,
    invoker: Address,
    card_id: Seq<char>,
    amount: int,
)
    requires
        s.cards.contains_key(card_id),
        invoker != s.cards[card_id].owner,
    ensures
        top_up_outcome(s, invoker, card_id, amount) == (s, Err::<(), Error>(Error::NotCardOwner)),
{
}

/// The activation state machine: registration creates an inactive card; a
/// successful funding always leaves the card active; a charge never changes
/// the flag, even when it drains the balance to exactly zero; a successful
/// withdrawal deactivates the card exactly when it drains the balance to
/// zero; and a status write overwrites the flag unconditionally.
pub proof fn lemma_activation_lifecycle(
    s: LedgerView,
    owner: Address,
    card_address: Address,
    card_id: Seq<char>,
    amount: int,
    now: int,
    flag: bool,
)
    ensures
        register_outcome(s, owner, card_id, card_address, amount).1 is Ok ==> !register_outcome(
            s,
            owner,
            card_id,
            card_address,
            amount,
        ).0.cards[card_id].is_active,
        top_up_outcome(s, owner, card_id, amount).1 is Ok ==> top_up_outcome(
            s,
            owner,
            card_id,
            amount,
        ).0.cards[card_id].is_active,
        charge_outcome(s, card_address, card_id, amount, now).1 is Ok ==> charge_outcome(
            s,
            card_address,
            card_id,
            amount,
            now,
        ).0.cards[card_id].is_active == s.cards[card_id].is_active,
        withdraw_outcome(s, owner, card_id, amount).1 is Ok ==> ({
            let post = withdraw_outcome(s, owner, card_id, amount).0;
            post.cards[card_id].is_active == (if post.cards[card_id].balance == 0 {
                false
            } else {
                s.cards[card_id].is_active
            })
        }),
        set_status_outcome(s, owner, card_id, flag).1 is Ok ==> set_status_outcome(
            s,
            owner,
            card_id,
            flag,
        ).0.cards[card_id].is_active == flag,
{
}

/// Requesting a withdrawal of zero and requesting exactly the current
/// balance give identical outcomes; whenever either succeeds, the card is
/// left empty and inactive.
pub proof fn lemma_withdraw_zero_is_withdraw_all(
    s: LedgerView,
    owner: Address,
    card_id: Seq<char>,
)
    requires
        s.cards.contains_key(card_id),
    ensures
        withdraw_outcome(s, owner, card_id, 0) == withdraw_outcome(
            s,
            owner,
            card_id,
            s.cards[card_id].balance,
        ),
        ({
            let drained = withdraw_outcome(s, owner, card_id, 0);
            drained.1 is Ok ==> drained.0.cards[card_id].balance == 0
                && !drained.0.cards[card_id].is_active
        }),
{
}

} // verus!
