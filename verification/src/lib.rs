//! An RAII-style guard for pull-based streams: a wrapper that owns a stream
//! together with a zero-argument cleanup action, forwards every poll outcome
//! and size estimate of the stream unchanged, and hands the action out exactly
//! once, at teardown.
//!
//! The guard itself never runs the action: it guards the slot that holds it.
//! The embedding that implements the asynchronous polling protocol drives the
//! guard — it forwards each poll through [`StreamGuard::forward_poll`] and, on
//! teardown, extracts the action once through [`StreamGuard::take_action`] and
//! runs it before the stream itself is released.

use vstd::prelude::*;

pub mod lifecycle;

verus! {

/// One outcome of polling a stream: no item ready yet, the next item, or end
/// of sequence.
pub enum PollOutcome<T> {
    Pending,
    Item(T),
    Done,
}

/// A stream paired with a cleanup action that must run exactly once, when the
/// guard is torn down — never during polling, however the stream answers.
pub struct StreamGuard<S, F> {
    /// The wrapped stream, owned by the guard for its whole life.
    pub stream: S,
    on_drop: Option<F>,
}

impl<S, F> StreamGuard<S, F> {
    /// Whether the cleanup action is still waiting in its slot.
    pub closed spec fn armed(self) -> bool {
        self.on_drop is Some
    }

    /// The cleanup action the guard holds; meaningful only while armed.
    pub closed spec fn action(self) -> F
        recommends
            self.armed(),
    {
        self.on_drop->0
    }

    /// The stream the guard owns.
    pub closed spec fn inner(self) -> S {
        self.stream
    }

    /// Wraps `stream`, arming the guard with `on_drop`. Nothing runs yet: the
    /// action only sits in its slot until teardown extracts it.
    pub fn new(stream: S, on_drop: F) -> (g: Self)
        ensures
            g.armed(),
            g.action() == on_drop,
            g.inner() == stream,
    {
        StreamGuard { stream, on_drop: Some(on_drop) }
    }

    /// Where the guard stands in the two-phase life that [`lifecycle`] models.
    pub open spec fn phase(self) -> lifecycle::GuardPhase {
        if self.armed() {
            lifecycle::GuardPhase::Armed
        } else {
            lifecycle::GuardPhase::Fired
        }
    }

    /// Reports whether the cleanup action is still waiting to run.
    pub fn is_armed(&self) -> (armed: bool)
        ensures
            armed == self.armed(),
    {
        self.on_drop.is_some()
    }

    /// Forwards one poll outcome of the owned stream to the consumer.
    ///
    /// The outcome comes back verbatim — the guard adds no items, drops none,
    /// and reorders nothing — and the guard itself is left untouched: polling
    /// never fires the action, not even when the stream reports end of
    /// sequence.
    pub fn forward_poll<T>(&mut self, outcome: PollOutcome<T>) -> (forwarded: PollOutcome<T>)
        ensures
            forwarded == outcome,
            *final(self) == *old(self),
            final(self).phase() == lifecycle::step(
                old(self).phase(),
                lifecycle::GuardEvent::Polled,
            ),
    {
        outcome
    }

    /// Forwards the owned stream's size estimate — a lower bound and an
    /// optional upper bound on the items still to come — unchanged: guarding
    /// a stream changes the count of its items in no way.
    pub fn forward_size_hint(&self, hint: (usize, Option<usize>)) -> (forwarded: (
        usize,
        Option<usize>,
    ))
        ensures
            forwarded == hint,
    {
        hint
    }

    /// Tears the guard down one step: takes the cleanup action out of its
    /// slot, leaving the slot irreversibly empty, and hands it to the caller
    /// to run. Returns `None` exactly when the action was already taken — a
    /// caller driving a teardown must treat that as a broken invariant and
    /// fail loudly, never ignore it.
    pub fn take_action(&mut self) -> (taken: Option<F>)
        ensures
            !final(self).armed(),
            final(self).inner() == old(self).inner(),
            old(self).armed() ==> taken == Some(old(self).action()),
            !old(self).armed() ==> taken is None,
            final(self).phase() == lifecycle::step(
                old(self).phase(),
                lifecycle::GuardEvent::Released,
            ),
    {
        self.on_drop.take()
    }
}

} // verus!
