//! Process-wide throughput counters: success, retry and error counts,
//! incremented by workers and read-and-reset by the reporter.
//!
//! The counters wrap on overflow, as a machine-word counter does; a single
//! increment therefore always changes the counter by exactly one modulo
//! the word size. Thread-safe sharing (the atomics of the original design)
//! is the caller's concern: every operation here is stated and proved on
//! the counter values themselves, so any serialization of concurrent
//! increments yields the totals that `lemma_counts_after_events` gives.

use vstd::prelude::*;

verus! {

/// One counting event recorded by a worker or by the retry engine.
#[derive(Clone, Copy, PartialEq, Eq, Structural, Debug)]
pub enum CounterEvent {
    /// A logical call completed successfully.
    Success,
    /// One retry of an attempt was scheduled.
    Retried,
    /// A logical call exhausted its retry budget.
    Exhausted,
}

/// Success, retry and error counters for the whole process.
#[derive(Clone, Copy, PartialEq, Eq, Structural, Debug)]
pub struct MetricsCounters {
    pub ok_count: u64,
    pub retry_count: u64,
    pub err_count: u64,
}

/// A `u64` counter stepped by one, wrapping at the word boundary.
pub open spec fn bumped(v: u64) -> u64 {
    if v == u64::MAX {
        0u64
    } else {
        (v + 1) as u64
    }
}

impl MetricsCounters {
    /// Fresh counters, all zero.
    pub fn new() -> (r: MetricsCounters)
        ensures
            r.ok_count == 0,
            r.retry_count == 0,
            r.err_count == 0,
    {
        MetricsCounters { ok_count: 0, retry_count: 0, err_count: 0 }
    }

    /// Record one successful logical call.
    pub fn increment_ok(&mut self)
        ensures
            final(self).ok_count == bumped(old(self).ok_count),
            final(self).retry_count == old(self).retry_count,
            final(self).err_count == old(self).err_count,
    {
        if self.ok_count == u64::MAX {
            self.ok_count = 0;
        } else {
            self.ok_count = self.ok_count + 1;
        }
    }

    /// Record one scheduled retry.
    pub fn increment_retry(&mut self)
        ensures
            final(self).retry_count == bumped(old(self).retry_count),
            final(self).ok_count == old(self).ok_count,
            final(self).err_count == old(self).err_count,
    {
        if self.retry_count == u64::MAX {
            self.retry_count = 0;
        } else {
            self.retry_count = self.retry_count + 1;
        }
    }

    /// Record one logical call that gave up after exhausting its budget.
    pub fn increment_err(&mut self)
        ensures
            final(self).err_count == bumped(old(self).err_count),
            final(self).ok_count == old(self).ok_count,
            final(self).retry_count == old(self).retry_count,
    {
        if self.err_count == u64::MAX {
            self.err_count = 0;
        } else {
            self.err_count = self.err_count + 1;
        }
    }

    /// Record one counting event.
    pub fn record(&mut self, event: CounterEvent)
        ensures
            *final(self) == old(self).after_event(event),
    {
        match event {
            CounterEvent::Success => self.increment_ok(),
            CounterEvent::Retried => self.increment_retry(),
            CounterEvent::Exhausted => self.increment_err(),
        }
    }

    /// Read all three counters and reset them to zero, as one operation.
    /// A second call with no intervening increments returns all zeroes.
    pub fn swap_and_reset(&mut self) -> (r: (u64, u64, u64))
        ensures
            r == read_out(*old(self)),
            *final(self) == drained(*old(self)),
            final(self).ok_count == 0,
            final(self).retry_count == 0,
            final(self).err_count == 0,
    {
        let r = (self.ok_count, self.retry_count, self.err_count);
        self.ok_count = 0;
        self.retry_count = 0;
        self.err_count = 0;
        r
    }

    /// The counters after recording one event.
    pub open spec fn after_event(self, event: CounterEvent) -> MetricsCounters {
        match event {
            CounterEvent::Success => MetricsCounters { ok_count: bumped(self.ok_count), ..self },
            CounterEvent::Retried => MetricsCounters {
                retry_count: bumped(self.retry_count),
                ..self
            },
            CounterEvent::Exhausted => MetricsCounters { err_count: bumped(self.err_count), ..self },
        }
    }

    /// The counters after recording a sequence of events in order.
    pub open spec fn after_events(self, events: Seq<CounterEvent>) -> MetricsCounters
        decreases events.len(),
    {
        if events.len() == 0 {
            self
        } else {
            self.after_event(events[0]).after_events(events.drop_first())
        }
    }
}

/// What one swap-and-reset hands back: the three counters as they stand.
pub open spec fn read_out(c: MetricsCounters) -> (u64, u64, u64) {
    (c.ok_count, c.retry_count, c.err_count)
}

/// The counters after one swap-and-reset: all zero.
pub open spec fn drained(c: MetricsCounters) -> MetricsCounters {
    MetricsCounters { ok_count: 0, retry_count: 0, err_count: 0 }
}

/// Consecutive swap-and-resets are idempotent-safe: with no increments in
/// between, the second one reads all zeroes, whatever the counters held.
pub proof fn lemma_swap_and_reset_idempotent(c: MetricsCounters)
    ensures
        read_out(drained(c)) == (0u64, 0u64, 0u64),
{
}

/// How many of `events` are `event`.
pub open spec fn count_of(events: Seq<CounterEvent>, event: CounterEvent) -> nat
    decreases events.len(),
{
    if events.len() == 0 {
        0
    } else {
        count_of(events.drop_first(), event) + if events[0] == event {
            1nat
        } else {
            0nat
        }
    }
}

/// No increment is ever lost: after any serialization of counting events —
/// in particular any interleaving of the events of concurrent workers —
/// each counter holds its own event's count, as long as that count stays
/// within the word. `W` workers each recording their success `C` times
/// therefore leave exactly `W * C` in the success counter.
pub proof fn lemma_counts_after_events(start: MetricsCounters, events: Seq<CounterEvent>)
    requires
        start.ok_count + count_of(events, CounterEvent::Success) <= u64::MAX,
        start.retry_count + count_of(events, CounterEvent::Retried) <= u64::MAX,
        start.err_count + count_of(events, CounterEvent::Exhausted) <= u64::MAX,
    ensures
        start.after_events(events).ok_count == start.ok_count + count_of(
            events,
            CounterEvent::Success,
        ),
        start.after_events(events).retry_count == start.retry_count + count_of(
            events,
            CounterEvent::Retried,
        ),
        start.after_events(events).err_count == start.err_count + count_of(
            events,
            CounterEvent::Exhausted,
        ),
    decreases events.len(),
{
    if events.len() > 0 {
        lemma_counts_after_events(start.after_event(events[0]), events.drop_first());
    }
}

} // verus!
