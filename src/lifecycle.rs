use vstd::prelude::*;

use crate::escrow::{pending_for, settled, Escrow, EscrowError, Transfer};
use crate::state::{EscrowState, Operation};

verus! {

/// One thing that can happen to a record after Create: an Accept or Refund
/// call together with whether its custodial transfer succeeded, or the
/// arbiter's move into `Disputed`.
pub enum Event {
    Operate(Operation, bool),
    Dispute,
}

/// The arbiter may put a record into `Disputed` only while it is `Initialized`.
pub open spec fn dispute_state(s: EscrowState) -> EscrowState {
    if s == EscrowState::Initialized {
        EscrowState::Disputed
    } else {
        s
    }
}

/// The record after one event: only the state changes.
pub open spec fn apply(e: Escrow, ev: Event) -> Escrow {
    match ev {
        Event::Operate(op, ok) => Escrow { state: op.next_state(e.state, ok), ..e },
        Event::Dispute => Escrow { state: dispute_state(e.state), ..e },
    }
}

/// The amounts that leave custody on one event: the locked amount when an
/// operation moves funds, nothing otherwise.
pub open spec fn payout(e: Escrow, ev: Event) -> Seq<u64> {
    match ev {
        Event::Operate(op, ok) => if op.moves_funds(e.state, ok) {
            seq![e.initializer_amount]
        } else {
            Seq::empty()
        },
        Event::Dispute => Seq::empty(),
    }
}

/// The record after a sequence of events.
pub open spec fn run(e: Escrow, evs: Seq<Event>) -> Escrow
    decreases evs.len(),
{
    if evs.len() == 0 {
        e
    } else {
        run(apply(e, evs[0]), evs.drop_first())
    }
}

/// Every amount that leaves custody over a sequence of events, in order.
pub open spec fn payouts(e: Escrow, evs: Seq<Event>) -> Seq<u64>
    decreases evs.len(),
{
    if evs.len() == 0 {
        Seq::empty()
    } else {
        payout(e, evs[0]) + payouts(apply(e, evs[0]), evs.drop_first())
    }
}

/// A permitted `accept` (for `Operation::Accept`) or `refund` (for
/// `Operation::Refund`) followed by `settle`, which together are `settled`
/// against the record before the call, is the event
/// `Operate(op, transfer succeeded)`: the record becomes what `apply` says,
/// and `Ok` comes back exactly when that event pays out the locked amount.
pub proof fn lemma_settled_call_is_event<E>(
    op: Operation,
    before: Escrow,
    outcome: Result<(), E>,
    after: Escrow,
    r: Result<(), EscrowError<E>>,
)
    requires
        op.permitted_from(before.state),
        settled(op, before, outcome, after, r),
    ensures
        after == apply(before, Event::Operate(op, outcome is Ok)),
        r is Ok <==> payout(before, Event::Operate(op, outcome is Ok)) == seq![before.initializer_amount],
        r is Err <==> payout(before, Event::Operate(op, outcome is Ok)).len() == 0,
{
    assert(seq![before.initializer_amount].len() == 1);
}

/// The transfer that a permitted `accept` or `refund` asks for carries the
/// amount that the matching event pays out when the transfer succeeds, and
/// that is the locked amount.
pub proof fn lemma_pending_is_payout(op: Operation, before: Escrow, transfer: Transfer)
    requires
        op.permitted_from(before.state),
    ensures
        pending_for(op, before, transfer).amount == before.initializer_amount,
        payout(before, Event::Operate(op, true)) == seq![pending_for(op, before, transfer).amount],
        payout(before, Event::Operate(op, false)).len() == 0,
{
}

/// When `accept` or `refund` refuses a call with `InvalidState` it hands back
/// no transfer to make and leaves the record as it was; in the model this is
/// the event `Operate(op, _)`, whatever a transfer would have done, and it
/// changes nothing and pays out nothing.
pub proof fn lemma_refused_call_is_event(op: Operation, before: Escrow, transfer_ok: bool)
    requires
        !op.permitted_from(before.state),
    ensures
        apply(before, Event::Operate(op, transfer_ok)) == before,
        payout(before, Event::Operate(op, transfer_ok)).len() == 0,
{
}

/// From a terminal state nothing moves and nothing leaves custody.
proof fn lemma_terminal_is_final(e: Escrow, evs: Seq<Event>)
    requires
        e.state.is_terminal(),
    ensures
        run(e, evs) == e,
        payouts(e, evs).len() == 0,
    decreases evs.len(),
{
    if evs.len() > 0 {
        assert(apply(e, evs[0]) == e);
        lemma_terminal_is_final(e, evs.drop_first());
    }
}

/// No double transfer: over any lifetime, at most one custodial transfer
/// succeeds, and none once the record is terminal.
pub proof fn lemma_at_most_one_transfer(e: Escrow, evs: Seq<Event>)
    ensures
        payouts(e, evs).len() <= 1,
        e.state.is_terminal() ==> payouts(e, evs).len() == 0,
    decreases evs.len(),
{
    if e.state.is_terminal() {
        lemma_terminal_is_final(e, evs);
    } else if evs.len() > 0 {
        let next = apply(e, evs[0]);
        lemma_at_most_one_transfer(next, evs.drop_first());
        if payout(e, evs[0]).len() > 0 {
            assert(next.state.is_terminal());
        }
    }
}

/// Amount fidelity: the locked amount never changes, and every amount that
/// leaves custody is exactly the amount locked at Create.
pub proof fn lemma_amount_fidelity(e: Escrow, evs: Seq<Event>)
    ensures
        run(e, evs).initializer_amount == e.initializer_amount,
        run(e, evs).initializer == e.initializer,
        forall|i: int| 0 <= i < payouts(e, evs).len() ==> #[trigger] payouts(e, evs)[i] == e.initializer_amount,
    decreases evs.len(),
{
    if evs.len() > 0 {
        let next = apply(e, evs[0]);
        lemma_amount_fidelity(next, evs.drop_first());
        let head = payout(e, evs[0]);
        let tail = payouts(next, evs.drop_first());
        assert forall|i: int| 0 <= i < payouts(e, evs).len() implies #[trigger] payouts(e, evs)[i] == e.initializer_amount by {
            if i < head.len() {
                assert(payouts(e, evs)[i] == head[i]);
            } else {
                assert(payouts(e, evs)[i] == tail[i - head.len()]);
            }
        }
    }
}

/// State monotonicity: once a record has left `Initialized` it never comes
/// back, and a terminal record stays exactly as it is.
pub proof fn lemma_initialized_never_reentered(e: Escrow, evs: Seq<Event>)
    requires
        e.state != EscrowState::Initialized,
    ensures
        run(e, evs).state != EscrowState::Initialized,
        e.state.is_terminal() ==> run(e, evs) == e,
    decreases evs.len(),
{
    if e.state.is_terminal() {
        lemma_terminal_is_final(e, evs);
    } else if evs.len() > 0 {
        lemma_initialized_never_reentered(apply(e, evs[0]), evs.drop_first());
    }
}

/// A terminal state refuses every operation: nothing moves and the state stays.
pub proof fn lemma_terminal_refuses(s: EscrowState, op: Operation, transfer_ok: bool)
    requires
        s.is_terminal(),
    ensures
        !op.permitted_from(s),
        !op.moves_funds(s, transfer_ok),
        op.next_state(s, transfer_ok) == s,
{
}

/// Atomic rollback: when the custodial transfer fails, the operation leaves
/// the state where it was and moves nothing.
pub proof fn lemma_failed_transfer_rolls_back(s: EscrowState, op: Operation)
    ensures
        op.next_state(s, false) == s,
        !op.moves_funds(s, false),
{
}

/// The dispute path: a disputed record can be refunded, moving to `Refunded`,
/// but cannot be accepted.
pub proof fn lemma_dispute_path(transfer_ok: bool)
    ensures
        Operation::Refund.permitted_from(EscrowState::Disputed),
        Operation::Refund.next_state(EscrowState::Disputed, true) == EscrowState::Refunded,
        !Operation::Accept.permitted_from(EscrowState::Disputed),
        Operation::Accept.next_state(EscrowState::Disputed, transfer_ok) == EscrowState::Disputed,
        !Operation::Accept.moves_funds(EscrowState::Disputed, transfer_ok),
{
}

} // verus!
