//! The state of the two primitives that cross task boundaries: the
//! versioned measurement trigger and the single-slot result mailbox.
//! Only their synchronous state transitions live here; the waiting is the
//! scheduler's business and stays outside.

use vstd::prelude::*;

verus! {

/// A zero-payload broadcast condition with latest-occurrence-only
/// semantics: occurrences are counted, and a subscriber that misses
/// intermediate occurrences observes only that something new happened
/// since it last looked.
#[derive(Debug, Copy, Clone, PartialEq, Eq, Structural)]
pub struct MeasurementTrigger {
    /// How many occurrences have been sent.
    pub count: u64,
}

/// One independent observer of a [`MeasurementTrigger`].
#[derive(Debug, Copy, Clone, PartialEq, Eq, Structural)]
pub struct TriggerSubscriber {
    /// The occurrence count this subscriber has last observed.
    pub seen: u64,
}

impl MeasurementTrigger {
    /// A trigger with no occurrence yet.
    pub fn new() -> (r: Self)
        ensures
            r.count == 0,
    {
        MeasurementTrigger { count: 0 }
    }

    /// Record one occurrence.
    pub fn send(&mut self)
        requires
            old(self).count < u64::MAX,
        ensures
            final(self).count == old(self).count + 1,
    {
        self.count = self.count + 1;
    }

    /// A new subscriber, current with this trigger: it observes only
    /// occurrences that happen after it subscribed.
    pub fn subscriber(&self) -> (r: TriggerSubscriber)
        ensures
            r.seen == self.count,
    {
        TriggerSubscriber { seen: self.count }
    }
}

impl TriggerSubscriber {
    /// Whether at least one occurrence has happened since this subscriber
    /// last observed; observing consumes everything pending, so each
    /// occurrence is detected at most once per subscriber.
    pub fn poll(&mut self, trigger: &MeasurementTrigger) -> (r: bool)
        ensures
            r == (old(self).seen != trigger.count),
            final(self).seen == trigger.count,
    {
        let fresh = self.seen != trigger.count;
        self.seen = trigger.count;
        fresh
    }
}

/// A single-slot handoff point between one producer and one consumer per
/// cycle: a write replaces the slot unconditionally, a take empties it.
#[derive(Debug)]
pub struct ResultMailbox<T> {
    /// The slot, holding at most one not-yet-consumed result.
    pub slot: Option<T>,
}

impl<T> ResultMailbox<T> {
    /// An empty mailbox.
    pub fn new() -> (r: Self)
        ensures
            r.slot is None,
    {
        ResultMailbox { slot: None }
    }

    /// Publish a result, overwriting whatever stale value was left.
    pub fn signal(&mut self, value: T)
        ensures
            final(self).slot == Some(value),
    {
        self.slot = Some(value);
    }

    /// Take the pending result, if any, leaving the mailbox empty and
    /// ready to be overwritten on the next cycle.
    pub fn try_take(&mut self) -> (r: Option<T>)
        ensures
            r == old(self).slot,
            final(self).slot is None,
    {
        self.slot.take()
    }
}

/// The join policy for one orchestration cycle: a fresh result replaces
/// the carried value; with no fresh result the previous cycle's value is
/// carried forward, so a faulted sampling activity never blocks the
/// cycle.
pub fn join_result<T>(fresh: Option<T>, previous: T) -> (r: T)
    ensures
        fresh matches Some(v) ==> r == v,
        fresh is None ==> r == previous,
{
    match fresh {
        Some(v) => v,
        None => previous,
    }
}

} // verus!
