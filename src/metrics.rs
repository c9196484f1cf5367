use vstd::prelude::*;

verus! {

/// Name of the counter of created items, as the exposition shows it.
pub const TODO_CREATED_NAME: &'static str = "todo_created_total";

/// Help text of the counter of created items.
pub const TODO_CREATED_HELP: &'static str = "Total number of created todo items";

/// Name of the counter of updates that set `completed`.
pub const TODO_COMPLETED_NAME: &'static str = "todo_completed_total";

/// Help text of the counter of updates that set `completed`.
pub const TODO_COMPLETED_HELP: &'static str = "Total number of completed todo items";

/// The registry's two counters. They only go up, and stop at `u64::MAX`.
#[derive(PartialEq, Eq, Structural, Clone, Copy, Debug)]
pub struct Counters {
    /// Successful inserts so far.
    pub created_total: u64,
    /// Successful updates whose submitted flag was `true`.
    pub completed_total: u64,
}

/// One step up, held at the largest value.
pub open spec fn bumped(n: u64) -> u64 {
    if n == u64::MAX {
        n
    } else {
        (n + 1) as u64
    }
}

/// What moves the counters: a successful insert, or a successful update
/// with the flag it submitted.
#[derive(PartialEq, Eq, Structural, Clone, Copy, Debug)]
pub enum CounterEvent {
    Created,
    Updated(bool),
}

/// The counters after one event.
pub open spec fn after_event(c: Counters, e: CounterEvent) -> Counters {
    match e {
        CounterEvent::Created => Counters { created_total: bumped(c.created_total), ..c },
        CounterEvent::Updated(completed) => if completed {
            Counters { completed_total: bumped(c.completed_total), ..c }
        } else {
            c
        },
    }
}

/// The counters after the events, in order.
pub open spec fn after_events(c: Counters, events: Seq<CounterEvent>) -> Counters
    decreases events.len(),
{
    if events.len() == 0 {
        c
    } else {
        after_event(after_events(c, events.drop_last()), events.last())
    }
}

/// How many of the events are successful inserts.
pub open spec fn creates_in(events: Seq<CounterEvent>) -> nat
    decreases events.len(),
{
    if events.len() == 0 {
        0
    } else {
        creates_in(events.drop_last()) + if events.last() == CounterEvent::Created {
            1nat
        } else {
            0nat
        }
    }
}

/// How many of the events are successful updates that submitted `true`.
pub open spec fn completions_in(events: Seq<CounterEvent>) -> nat
    decreases events.len(),
{
    if events.len() == 0 {
        0
    } else {
        completions_in(events.drop_last()) + if events.last() == CounterEvent::Updated(true) {
            1nat
        } else {
            0nat
        }
    }
}

impl Counters {
    /// Both counters at zero.
    pub fn new() -> (c: Counters)
        ensures
            c.created_total == 0,
            c.completed_total == 0,
    {
        Counters { created_total: 0, completed_total: 0 }
    }

    /// Counts one successful insert.
    pub fn record_created(&mut self)
        ensures
            final(self).created_total == bumped(old(self).created_total),
            final(self).completed_total == old(self).completed_total,
            *final(self) == after_event(*old(self), CounterEvent::Created),
    {
        self.created_total = self.created_total.saturating_add(1);
    }

    /// Counts one successful update; only one that set the flag to `true`
    /// moves the completed counter, whatever the item's flag was before.
    pub fn record_update(&mut self, completed: bool)
        ensures
            final(self).created_total == old(self).created_total,
            final(self).completed_total == if completed {
                bumped(old(self).completed_total)
            } else {
                old(self).completed_total
            },
            *final(self) == after_event(*old(self), CounterEvent::Updated(completed)),
    {
        if completed {
            self.completed_total = self.completed_total.saturating_add(1);
        }
    }
}

} // verus!
