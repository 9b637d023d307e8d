//! Capacity-one backpressured handoff of distance measurements.
//!
//! The ranging task publishes each successful measurement; the steering task
//! takes it.  The slot holds at most one unconsumed value: an attempt to
//! publish while a prior value is still unconsumed is refused and changes
//! nothing, so no measurement is ever silently overwritten.  A suspending
//! `publish` or `take` is the caller retrying the `try_` operation after
//! yielding; both operations here are single non-blocking transitions.
use vstd::prelude::*;

verus! {

/// What a publish attempt does to the slot: a value lands only in an empty
/// slot; a full slot is left exactly as it was and the attempt reports false.
pub open spec fn publish_transition(slot: Option<u64>, value: u64) -> (Option<u64>, bool) {
    match slot {
        Option::None => (Option::Some(value), true),
        Option::Some(held) => (Option::Some(held), false),
    }
}

/// What a take attempt does to the slot: a held value is removed and
/// returned; an empty slot stays empty and yields nothing.
pub open spec fn take_transition(slot: Option<u64>) -> (Option<u64>, Option<u64>) {
    match slot {
        Option::None => (Option::None, Option::None),
        Option::Some(held) => (Option::None, Option::Some(held)),
    }
}

/// Single-slot mailbox carrying distances in millimeters.
pub struct Mailbox {
    slot: Option<u64>,
}

impl Mailbox {
    /// The value currently in flight, if any.
    pub closed spec fn contents(self) -> Option<u64> {
        self.slot
    }

    /// A fresh mailbox holds nothing.
    pub fn new() -> (m: Mailbox)
        ensures
            m.contents() is None,
    {
        Mailbox { slot: Option::None }
    }

    /// One publish attempt.  Succeeds exactly when the slot is empty; a full
    /// slot is never overwritten.  The producer suspends by retrying after a
    /// yield until this returns true.
    pub fn try_publish(&mut self, value: u64) -> (accepted: bool)
        ensures
            (final(self).contents(), accepted) == publish_transition(
                old(self).contents(),
                value,
            ),
    {
        match self.slot {
            Option::None => {
                self.slot = Option::Some(value);
                true
            },
            Option::Some(_) => false,
        }
    }

    /// One take attempt.  Removes and returns the held value; yields nothing
    /// when the slot is empty.  The consumer suspends by retrying after a
    /// yield until this returns a value.
    pub fn try_take(&mut self) -> (taken: Option<u64>)
        ensures
            (final(self).contents(), taken) == take_transition(old(self).contents()),
    {
        match self.slot {
            Option::None => Option::None,
            Option::Some(held) => {
                self.slot = Option::None;
                Option::Some(held)
            },
        }
    }
}

/// Backpressure law: while a prior value sits unconsumed, every publish
/// attempt is refused and the held value survives untouched, so the producer
/// cannot return from a suspending publish before a take; and once a take
/// has emptied the slot, the very next publish attempt succeeds.  No value
/// is ever silently overwritten.
pub proof fn lemma_mailbox_backpressure(slot: Option<u64>, held: u64, incoming: u64)
    requires
        slot == Option::Some(held),
    ensures
        publish_transition(slot, incoming) == (Option::Some(held), false),
        take_transition(slot).1 == Option::Some(held),
        publish_transition(take_transition(slot).0, incoming) == (
            Option::Some(incoming),
            true,
        ),
{
}

} // verus!
