//! Liveness of the production path across downstream outages.
//!
//! A production cycle is a tick followed by the reply to the proposal
//! request the tick issued. When the transaction service is unreachable the
//! reply is empty, the cycle ends with no side effect, and the loop is back
//! where it started: an outage costs exactly the affected ticks, and the
//! first cycle after recovery proceeds as if the outage never happened.

use vstd::prelude::*;
use crate::block::{Block, cleared};
use crate::codec::content_digest;
use crate::consensus::{LoopEvent, LoopState, next_state, event_publishes};
use crate::engine::first_valid_nonce;

verus! {

/// The loop's state after consuming the events in order.
pub open spec fn state_after(state: LoopState, events: Seq<LoopEvent>) -> LoopState
    decreases events.len(),
{
    if events.len() == 0 {
        state
    } else {
        state_after(next_state(events[0]), events.skip(1))
    }
}

/// The events are legal from the given state: a proposal reply arrives
/// exactly while a proposal is outstanding, at every point of the run.
pub open spec fn run_ok(state: LoopState, events: Seq<LoopEvent>) -> bool
    decreases events.len(),
{
    if events.len() == 0 {
        true
    } else {
        &&& ((state is AwaitingProposal) <==> (events[0] is ProposalReply))
        &&& run_ok(next_state(events[0]), events.skip(1))
    }
}

/// Some event of the run publishes a block.
pub open spec fn any_publish(events: Seq<LoopEvent>, target: u64, limit: int) -> bool
    decreases events.len(),
{
    if events.len() == 0 {
        false
    } else {
        event_publishes(events[0], target, limit) || any_publish(events.skip(1), target, limit)
    }
}

/// One production cycle whose proposal fetch fails.
pub open spec fn failed_cycle() -> Seq<LoopEvent> {
    seq![LoopEvent::Tick, LoopEvent::ProposalReply(None)]
}

/// `n` production cycles in a row, each with a failing proposal fetch.
pub open spec fn failed_cycles(n: nat) -> Seq<LoopEvent>
    decreases n,
{
    if n == 0 {
        Seq::empty()
    } else {
        failed_cycle() + failed_cycles((n - 1) as nat)
    }
}

/// One production cycle whose proposal fetch returns a proposal.
pub open spec fn recovered_cycle(p: Block) -> Seq<LoopEvent> {
    seq![LoopEvent::Tick, LoopEvent::ProposalReply(Some(p))]
}

/// Inbound messages that queued while an iteration ran are drained without
/// loss: a run of nothing but inbound messages is legal from idle, consumes
/// every message in order, one per iteration, and ends idle again. What
/// each message decides is fixed per event by `step`'s contract, so the
/// decisions land in queue order.
pub proof fn lemma_queued_messages_drain(events: Seq<LoopEvent>)
    requires
        forall|i: int| 0 <= i < events.len() ==> (#[trigger] events[i]) is Inbound,
    ensures
        run_ok(LoopState::Idle, events),
        state_after(LoopState::Idle, events) is Idle,
    decreases events.len(),
{
    if events.len() > 0 {
        assert(events[0] is Inbound);
        assert forall|i: int| 0 <= i < events.skip(1).len() implies (#[trigger] events.skip(
            1,
        )[i]) is Inbound by {
            assert(events.skip(1)[i] == events[i + 1]);
        }
        lemma_queued_messages_drain(events.skip(1));
    }
}

/// Runs compose: legal events from a state followed by legal events from
/// where they leave the loop form one legal run.
pub proof fn lemma_run_ok_append(state: LoopState, a: Seq<LoopEvent>, b: Seq<LoopEvent>)
    requires
        run_ok(state, a),
        run_ok(state_after(state, a), b),
    ensures
        run_ok(state, a + b),
        state_after(state, a + b) == state_after(state_after(state, a), b),
    decreases a.len(),
{
    if a.len() == 0 {
        assert(a + b =~= b);
    } else {
        assert((a + b)[0] == a[0]);
        assert((a + b).skip(1) =~= a.skip(1) + b);
        lemma_run_ok_append(next_state(a[0]), a.skip(1), b);
    }
}

/// A concatenated run publishes exactly when one of its parts does.
pub proof fn lemma_any_publish_append(a: Seq<LoopEvent>, b: Seq<LoopEvent>, target: u64, limit: int)
    ensures
        any_publish(a + b, target, limit) == (any_publish(a, target, limit) || any_publish(
            b,
            target,
            limit,
        )),
    decreases a.len(),
{
    if a.len() == 0 {
        assert(a + b =~= b);
    } else {
        assert((a + b)[0] == a[0]);
        assert((a + b).skip(1) =~= a.skip(1) + b);
        lemma_any_publish_append(a.skip(1), b, target, limit);
    }
}

/// Liveness under outage, the failing half: any number of failing
/// production cycles is a legal run from idle, publishes nothing, and
/// leaves the loop idle again.
pub proof fn lemma_outage_publishes_nothing(n: nat, target: u64, limit: int)
    ensures
        run_ok(LoopState::Idle, failed_cycles(n)),
        state_after(LoopState::Idle, failed_cycles(n)) is Idle,
        !any_publish(failed_cycles(n), target, limit),
    decreases n,
{
    if n > 0 {
        lemma_outage_publishes_nothing((n - 1) as nat, target, limit);
        let rest = failed_cycles((n - 1) as nat);
        let fc = failed_cycle();
        let tail = seq![LoopEvent::ProposalReply(None::<Block>)];
        assert(fc.skip(1) =~= tail);
        assert(tail.skip(1) =~= Seq::<LoopEvent>::empty());
        assert(fc[0] == LoopEvent::Tick);
        assert(tail[0] == LoopEvent::ProposalReply(None::<Block>));
        assert(run_ok(LoopState::Idle, Seq::<LoopEvent>::empty()));
        assert(state_after(LoopState::Idle, Seq::<LoopEvent>::empty()) is Idle);
        assert(!any_publish(Seq::<LoopEvent>::empty(), target, limit));
        assert(run_ok(LoopState::AwaitingProposal, tail));
        assert(state_after(LoopState::AwaitingProposal, tail) is Idle);
        assert(!any_publish(tail, target, limit));
        assert(run_ok(LoopState::Idle, fc));
        assert(state_after(LoopState::Idle, fc) is Idle);
        assert(!any_publish(fc, target, limit));
        lemma_run_ok_append(LoopState::Idle, fc, rest);
        lemma_any_publish_append(fc, rest, target, limit);
    }
}

/// Liveness under outage, recovery: after `n` failing cycles the next
/// successful cycle is legal, returns the loop to idle, and the whole run
/// publishes exactly when the nonce search for the fetched proposal
/// succeeds — the outage leaves no trace.
pub proof fn lemma_liveness_under_outage(n: nat, p: Block, target: u64, limit: int)
    ensures
        run_ok(LoopState::Idle, failed_cycles(n) + recovered_cycle(p)),
        state_after(LoopState::Idle, failed_cycles(n) + recovered_cycle(p)) is Idle,
        any_publish(failed_cycles(n) + recovered_cycle(p), target, limit) == (first_valid_nonce(
            content_digest(cleared(p@)),
            target,
            limit,
        ) is Some),
{
    lemma_outage_publishes_nothing(n, target, limit);
    let rc = recovered_cycle(p);
    let tail = seq![LoopEvent::ProposalReply(Some(p))];
    assert(rc.skip(1) =~= tail);
    assert(tail.skip(1) =~= Seq::<LoopEvent>::empty());
    assert(rc[0] == LoopEvent::Tick);
    assert(tail[0] == LoopEvent::ProposalReply(Some(p)));
    assert(run_ok(LoopState::Idle, Seq::<LoopEvent>::empty()));
    assert(state_after(LoopState::Idle, Seq::<LoopEvent>::empty()) is Idle);
    assert(run_ok(LoopState::AwaitingProposal, tail));
    assert(run_ok(LoopState::Idle, rc));
    assert(state_after(LoopState::AwaitingProposal, tail) is Idle);
    assert(state_after(LoopState::Idle, rc) is Idle);
    assert(!any_publish(Seq::<LoopEvent>::empty(), target, limit));
    assert(any_publish(tail, target, limit) == event_publishes(
        LoopEvent::ProposalReply(Some(p)),
        target,
        limit,
    ));
    assert(any_publish(rc, target, limit) == event_publishes(
        LoopEvent::ProposalReply(Some(p)),
        target,
        limit,
    ));
    lemma_run_ok_append(LoopState::Idle, failed_cycles(n), rc);
    lemma_any_publish_append(failed_cycles(n), rc, target, limit);
}

} // verus!
