//! An abstract model of a guard's life, and proofs of its two structural
//! guarantees: polling is transparent to the cleanup slot, and the cleanup
//! action runs exactly once, at release.
//!
//! A guard passes through two phases: [`GuardPhase::Armed`] while the action
//! still waits in its slot, [`GuardPhase::Fired`] once it has been taken. A
//! consumer causes two kinds of events: polls, in any number and with any
//! outcome, and the single release of its handle. The spec functions here say
//! how each event moves the phase and when the action runs; the lemmas prove
//! that over every admissible history the action runs exactly once.

use vstd::prelude::*;

verus! {

/// The two phases of a guard: the action still pending, or already taken.
/// The move from `Armed` to `Fired` is the taking of the action, and it is
/// terminal — nothing re-arms a guard.
pub enum GuardPhase {
    Armed,
    Fired,
}

/// One consumer-visible event in the life of a guard.
pub enum GuardEvent {
    /// One poll of the guard, whatever the stream answered — not ready yet,
    /// an item, or end of sequence.
    Polled,
    /// The consumer gave up its handle, at whatever point of the sequence.
    Released,
}

/// The phase after `event` happens in `phase`: polling moves nothing, and a
/// release leaves the guard fired for good.
pub open spec fn step(phase: GuardPhase, event: GuardEvent) -> GuardPhase {
    match event {
        GuardEvent::Polled => phase,
        GuardEvent::Released => GuardPhase::Fired,
    }
}

/// How many times the cleanup action runs when `event` happens in `phase`:
/// once at the release of an armed guard, never otherwise.
pub open spec fn runs_at(phase: GuardPhase, event: GuardEvent) -> nat {
    if phase is Armed && event is Released {
        1
    } else {
        0
    }
}

/// The phase after a whole sequence of events, applied in order.
pub open spec fn phase_after(phase: GuardPhase, events: Seq<GuardEvent>) -> GuardPhase
    decreases events.len(),
{
    if events.len() == 0 {
        phase
    } else {
        phase_after(step(phase, events[0]), events.skip(1))
    }
}

/// How many times the cleanup action runs over a whole sequence of events.
pub open spec fn runs_in(phase: GuardPhase, events: Seq<GuardEvent>) -> nat
    decreases events.len(),
{
    if events.len() == 0 {
        0
    } else {
        runs_at(phase, events[0]) + runs_in(step(phase, events[0]), events.skip(1))
    }
}

/// Events that only poll and never release.
pub open spec fn all_polls(events: Seq<GuardEvent>) -> bool {
    forall|i: int| 0 <= i < events.len() ==> events[i] is Polled
}

/// A complete consumer history: zero or more polls, then the one release.
pub open spec fn is_history(events: Seq<GuardEvent>) -> bool {
    &&& events.len() > 0
    &&& events.last() is Released
    &&& all_polls(events.take(events.len() - 1))
}

/// A fired guard is fired for good: whatever happens afterwards, the action
/// never runs again, and the phase never leaves `Fired`.
pub proof fn lemma_fired_is_terminal(events: Seq<GuardEvent>)
    ensures
        runs_in(GuardPhase::Fired, events) == 0,
        phase_after(GuardPhase::Fired, events) is Fired,
    decreases events.len(),
{
    if events.len() > 0 {
        lemma_fired_is_terminal(events.skip(1));
    }
}

/// Late cleanup: while the consumer only polls — however often, and however
/// the stream answers, end of sequence included — the guard stays armed and
/// the action does not run.
pub proof fn lemma_polls_leave_guard_armed(events: Seq<GuardEvent>)
    requires
        all_polls(events),
    ensures
        runs_in(GuardPhase::Armed, events) == 0,
        phase_after(GuardPhase::Armed, events) is Armed,
    decreases events.len(),
{
    if events.len() > 0 {
        assert(events[0] is Polled);
        assert(all_polls(events.skip(1))) by {
            assert forall|i: int| 0 <= i < events.skip(1).len() implies events.skip(1)[i]
                is Polled by {
                assert(events.skip(1)[i] == events[i + 1]);
            }
        }
        lemma_polls_leave_guard_armed(events.skip(1));
    }
}

/// Exactly once: over any complete history — any number of polls, ended by
/// the one release, whether that comes before the first item, after a partial
/// read, or long after the sequence ended — the action runs exactly once, and
/// the guard ends fired.
pub proof fn lemma_exactly_once(events: Seq<GuardEvent>)
    requires
        is_history(events),
    ensures
        runs_in(GuardPhase::Armed, events) == 1,
        phase_after(GuardPhase::Armed, events) is Fired,
    decreases events.len(),
{
    let polls = events.take(events.len() - 1);
    if events.len() == 1 {
        assert(events[0] is Released);
        lemma_fired_is_terminal(events.skip(1));
    } else {
        assert(events[0] == polls[0]);
        assert(events[0] is Polled);
        let tail = events.skip(1);
        assert(tail.last() == events.last());
        assert(all_polls(tail.take(tail.len() - 1))) by {
            assert forall|i: int| 0 <= i < tail.len() - 1 implies (#[trigger] tail.take(
                tail.len() - 1,
            )[i]) is Polled by {
                assert(tail.take(tail.len() - 1)[i] == events[i + 1]);
                assert(polls[i + 1] == events[i + 1]);
            }
        }
        lemma_exactly_once(tail);
    }
}

} // verus!
