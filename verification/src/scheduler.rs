use vstd::prelude::*;
use crate::delay::Delay;
use crate::delay::decreased_by_all;
use crate::delay::lemma_delay_lower_bound;
use crate::delay::total_elapsed;

verus! {

/// The scheduling precision the dispatcher is built with, in milliseconds:
/// the minimum interval between ticks, and the time budget of one tick.
pub const DEFAULT_SCHEDULER_PRECISION: u64 = 50;

/// An event waiting its turn: the event itself paired with the delay still
/// to be burnt down before it may be forwarded for processing.
pub struct ScheduledEvent<E> {
    pub event: E,
    pub delay: Delay,
}

impl<E> ScheduledEvent<E> {
    /// The same entry once `elapsed` time has been observed: the remaining
    /// delay shrinks, floored at zero, and the event is untouched.
    pub open spec fn advanced(self, elapsed: Delay) -> ScheduledEvent<E> {
        ScheduledEvent { event: self.event, delay: self.delay.decreased_by(elapsed) }
    }

    /// An entry is ready the moment no delay is left.
    pub open spec fn ready(self) -> bool {
        self.delay.nanos == 0
    }

    pub fn new(event: E, delay: Delay) -> (entry: ScheduledEvent<E>)
        ensures
            entry.event == event,
            entry.delay == delay,
    {
        ScheduledEvent { event, delay }
    }

    pub fn advance(&mut self, duration: Delay)
        ensures
            *final(self) == old(self).advanced(duration),
    {
        self.delay = self.delay.saturating_sub(duration);
    }

    pub fn is_ready(&self) -> (r: bool)
        ensures
            r == self.ready(),
    {
        self.delay.is_zero()
    }

    pub fn get_event(self) -> (event: E)
        ensures
            event == self.event,
    {
        self.event
    }
}

/// The events of the entries that become ready when `elapsed` time is
/// observed, in the order the entries were scheduled.
pub open spec fn ready_events<E>(entries: Seq<ScheduledEvent<E>>, elapsed: Delay) -> Seq<E>
    decreases entries.len(),
{
    if entries.len() == 0 {
        Seq::empty()
    } else {
        let rest = ready_events(entries.drop_last(), elapsed);
        let advanced = entries.last().advanced(elapsed);
        if advanced.ready() {
            rest.push(advanced.event)
        } else {
            rest
        }
    }
}

/// The entries that are still waiting after `elapsed` time is observed,
/// advanced, in their original order.
pub open spec fn still_pending<E>(
    entries: Seq<ScheduledEvent<E>>,
    elapsed: Delay,
) -> Seq<ScheduledEvent<E>>
    decreases entries.len(),
{
    if entries.len() == 0 {
        Seq::empty()
    } else {
        let rest = still_pending(entries.drop_last(), elapsed);
        let advanced = entries.last().advanced(elapsed);
        if advanced.ready() {
            rest
        } else {
            rest.push(advanced)
        }
    }
}

/// Advance every pending entry by the observed elapsed time, keep the ones
/// still waiting in order, and hand back the events that became ready, in
/// the order they were scheduled.
pub fn drain_ready<E>(entries: &mut Vec<ScheduledEvent<E>>, elapsed: Delay) -> (ready: Vec<E>)
    ensures
        final(entries)@ == still_pending(old(entries)@, elapsed),
        ready@ == ready_events(old(entries)@, elapsed),
{
    let ghost orig = entries@;
    let initial_len: usize = entries.len();
    proof {
        assert(orig.len() == initial_len);
    }
    let mut kept: Vec<ScheduledEvent<E>> = Vec::new();
    let mut ready: Vec<E> = Vec::new();
    let mut i: usize = 0;
    while entries.len() > 0
        invariant
            orig.len() <= usize::MAX,
            i + entries@.len() == orig.len(),
            entries@ == orig.skip(i as int),
            kept@ == still_pending(orig.take(i as int), elapsed),
            ready@ == ready_events(orig.take(i as int), elapsed),
        decreases entries@.len(),
    {
        let mut entry = entries.remove(0);
        proof {
            assert(entries@ =~= orig.skip(i + 1));
            assert(entry == orig[i as int]);
            assert(orig.take(i + 1).drop_last() =~= orig.take(i as int));
            assert(orig.take(i + 1).last() == orig[i as int]);
        }
        entry.advance(elapsed);
        if entry.is_ready() {
            ready.push(entry.get_event());
        } else {
            kept.push(entry);
        }
        i = i + 1;
    }
    proof {
        assert(orig.take(i as int) =~= orig);
    }
    *entries = kept;
    ready
}

/// An entry as it stands after a whole run of ticks, advanced by each
/// observed elapsed interval in turn, oldest first.
pub open spec fn advanced_by_all<E>(
    entry: ScheduledEvent<E>,
    elapsed: Seq<Delay>,
) -> ScheduledEvent<E>
    decreases elapsed.len(),
{
    if elapsed.len() == 0 {
        entry
    } else {
        advanced_by_all(entry, elapsed.drop_last()).advanced(elapsed.last())
    }
}

proof fn lemma_advanced_by_all_parts<E>(entry: ScheduledEvent<E>, elapsed: Seq<Delay>)
    ensures
        advanced_by_all(entry, elapsed).delay == decreased_by_all(entry.delay, elapsed),
        advanced_by_all(entry, elapsed).event == entry.event,
    decreases elapsed.len(),
{
    if elapsed.len() > 0 {
        lemma_advanced_by_all_parts(entry, elapsed.drop_last());
    }
}

/// Law: however many ticks pass, a scheduled entry becomes ready only once
/// the elapsed time the loop has observed adds up to at least the delay it
/// was scheduled with — never earlier — and the event it carries stays
/// untouched throughout.
pub proof fn lemma_entry_delay_lower_bound<E>(entry: ScheduledEvent<E>, elapsed: Seq<Delay>)
    ensures
        advanced_by_all(entry, elapsed).ready() ==> total_elapsed(elapsed)
            >= entry.delay.nanos,
        advanced_by_all(entry, elapsed).event == entry.event,
{
    lemma_advanced_by_all_parts(entry, elapsed);
    lemma_delay_lower_bound(entry.delay, elapsed);
}

/// Law: entries that become ready in the same tick leave in scheduling
/// order — the entry scheduled earlier stands earlier among the ready
/// events. `ready_events(entries.take(i), elapsed).len()` is the position
/// the i-th entry's event takes among the ready ones.
pub proof fn lemma_ready_fifo<E>(entries: Seq<ScheduledEvent<E>>, elapsed: Delay, i: int, j: int)
    requires
        0 <= i < j < entries.len(),
        entries[i].advanced(elapsed).ready(),
        entries[j].advanced(elapsed).ready(),
    ensures
        ready_events(entries.take(i), elapsed).len() < ready_events(entries.take(j), elapsed).len(),
        ready_events(entries, elapsed)[ready_events(entries.take(i), elapsed).len() as int]
            == entries[i].advanced(elapsed).event,
        ready_events(entries, elapsed)[ready_events(entries.take(j), elapsed).len() as int]
            == entries[j].advanced(elapsed).event,
{
    lemma_ready_position(entries, elapsed, i);
    lemma_ready_position(entries, elapsed, j);
    lemma_ready_position(entries.take(j), elapsed, i);
    assert(entries.take(j).take(i) =~= entries.take(i));
}

/// A ready entry's event stands in the ready sequence, at the index given
/// by the ready entries that precede it.
proof fn lemma_ready_position<E>(entries: Seq<ScheduledEvent<E>>, elapsed: Delay, i: int)
    requires
        0 <= i < entries.len(),
        entries[i].advanced(elapsed).ready(),
    ensures
        ready_events(entries.take(i), elapsed).len() < ready_events(entries, elapsed).len(),
        ready_events(entries, elapsed)[ready_events(entries.take(i), elapsed).len() as int]
            == entries[i].advanced(elapsed).event,
    decreases entries.len(),
{
    if i == entries.len() - 1 {
        assert(entries.take(i) =~= entries.drop_last());
    } else {
        lemma_ready_position(entries.drop_last(), elapsed, i);
        assert(entries.drop_last().take(i) =~= entries.take(i));
    }
}

/// Law: one tick's scheduler pass neither loses nor duplicates an event —
/// the events of the pending entries are exactly the events still pending
/// afterwards together with the events handed on as ready.
pub proof fn lemma_scheduler_conservation<E>(entries: Seq<ScheduledEvent<E>>, elapsed: Delay)
    ensures
        still_pending(entries, elapsed).len() + ready_events(entries, elapsed).len()
            == entries.len(),
        entries.map_values(|entry: ScheduledEvent<E>| entry.event).to_multiset()
            == still_pending(entries, elapsed).map_values(
                |entry: ScheduledEvent<E>| entry.event,
            ).to_multiset().add(ready_events(entries, elapsed).to_multiset()),
    decreases entries.len(),
{
    broadcast use vstd::seq_lib::group_to_multiset_ensures;

    let events = |entry: ScheduledEvent<E>| entry.event;
    if entries.len() == 0 {
        assert(entries.map_values(events) =~= Seq::<E>::empty());
        assert(entries.map_values(events).to_multiset() =~= still_pending(entries, elapsed)
            .map_values(events).to_multiset().add(ready_events(entries, elapsed).to_multiset()));
    } else {
        lemma_scheduler_conservation(entries.drop_last(), elapsed);
        assert(entries.map_values(events).drop_last() =~= entries.drop_last().map_values(events));
        assert(entries.map_values(events) =~= entries.drop_last().map_values(events).push(
            events(entries.last()),
        ));
        let advanced = entries.last().advanced(elapsed);
        if advanced.ready() {
            assert(entries.map_values(events).to_multiset() =~= still_pending(entries, elapsed)
                .map_values(events).to_multiset().add(
                ready_events(entries, elapsed).to_multiset(),
            ));
        } else {
            assert(still_pending(entries, elapsed).map_values(events)
                =~= still_pending(entries.drop_last(), elapsed).map_values(events).push(
                advanced.event,
            ));
            assert(entries.map_values(events).to_multiset() =~= still_pending(entries, elapsed)
                .map_values(events).to_multiset().add(
                ready_events(entries, elapsed).to_multiset(),
            ));
        }
    }
}

} // verus!
