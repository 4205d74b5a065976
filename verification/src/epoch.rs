//! GPU dispatch epoch tracking for GC safety.
//!
//! A runtime with a moving garbage collector must know whether any GPU
//! dispatch is in flight before it compacts host memory: a zero-copy buffer
//! would dangle if the memory behind it moved. [`GpuEpochTracker`] counts
//! dispatches up when they begin and down when they complete. It stands at the
//! device layer, so one tracker sees compute and graphics work alike.
//!
//! Counting takes exclusive access to the tracker, which is what lets each
//! call state how it changes the count; whoever shares a tracker between
//! threads puts it behind a lock.

use vstd::prelude::*;

verus! {

/// Tracks outstanding GPU dispatches.
///
/// Call [`begin_dispatch`](Self::begin_dispatch) before work is submitted to
/// the GPU and [`end_dispatch`](Self::end_dispatch) when the GPU completes it.
#[derive(Debug)]
pub struct GpuEpochTracker {
    in_flight: u64,
}

/// The count after one more dispatch began. The counter has 64 bits and wraps.
pub open spec fn after_begin(in_flight: u64) -> u64 {
    if in_flight == u64::MAX {
        0
    } else {
        (in_flight + 1) as u64
    }
}

/// The count after one dispatch completed.
pub open spec fn after_end(in_flight: u64) -> u64
    recommends
        in_flight > 0,
{
    (in_flight - 1) as u64
}

impl View for GpuEpochTracker {
    type V = u64;

    /// The number of dispatches in flight.
    closed spec fn view(&self) -> u64 {
        self.in_flight
    }
}

impl Default for GpuEpochTracker {
    fn default() -> (tracker: GpuEpochTracker)
        ensures
            tracker@ == 0,
    {
        GpuEpochTracker::new()
    }
}

impl GpuEpochTracker {
    /// The tracker with no dispatch in flight.
    pub closed spec fn idle() -> GpuEpochTracker {
        GpuEpochTracker { in_flight: 0 }
    }

    /// A tracker with no dispatch in flight.
    #[must_use]
    pub fn new() -> (tracker: GpuEpochTracker)
        ensures
            tracker == GpuEpochTracker::idle(),
            tracker@ == 0,
    {
        GpuEpochTracker { in_flight: 0 }
    }

    /// Records the start of a GPU dispatch, to be balanced by a later
    /// [`end_dispatch`](Self::end_dispatch).
    pub fn begin_dispatch(&mut self)
        ensures
            final(self)@ == after_begin(old(self)@),
    {
        self.in_flight = self.in_flight.wrapping_add(1);
    }

    /// Records the completion of a GPU dispatch, paired with a prior
    /// [`begin_dispatch`](Self::begin_dispatch).
    pub fn end_dispatch(&mut self)
        requires
            old(self)@ > 0,
        ensures
            final(self)@ == after_end(old(self)@),
    {
        self.in_flight = self.in_flight - 1;
    }

    /// Records that several dispatches have completed.
    pub fn end_dispatches(&mut self, completed: u64)
        requires
            old(self)@ >= completed,
        ensures
            final(self)@ == old(self)@ - completed,
    {
        self.in_flight = self.in_flight - completed;
    }

    /// The number of dispatches that have begun and not yet completed.
    #[must_use]
    pub fn in_flight(&self) -> (count: u64)
        ensures
            count == self@,
    {
        self.in_flight
    }

    /// True when no GPU operation is outstanding. While it is false, a runtime
    /// defers compaction.
    #[must_use]
    pub fn is_quiescent(&self) -> (quiescent: bool)
        ensures
            quiescent == (self@ == 0),
    {
        self.in_flight() == 0
    }
}

/// A fresh tracker is quiescent.
pub proof fn law_idle_tracker_is_quiescent()
    ensures
        GpuEpochTracker::idle()@ == 0,
{
}

/// What happens to a tracker.
pub enum DispatchEvent {
    /// A dispatch begins.
    Begin,
    /// A dispatch completes.
    End,
}

/// The count after an event, or without one.
pub open spec fn after_event(in_flight: u64, event: Option<DispatchEvent>) -> u64 {
    match event {
        Some(DispatchEvent::Begin) => after_begin(in_flight),
        Some(DispatchEvent::End) => after_end(in_flight),
        None => in_flight,
    }
}

/// How many dispatches began in `history`.
pub open spec fn begun(history: Seq<DispatchEvent>) -> nat
    decreases history.len(),
{
    if history.len() == 0 {
        0
    } else {
        begun(history.drop_last()) + if history.last() is Begin {
            1nat
        } else {
            0nat
        }
    }
}

/// How many dispatches completed in `history`.
pub open spec fn ended(history: Seq<DispatchEvent>) -> nat
    decreases history.len(),
{
    if history.len() == 0 {
        0
    } else {
        ended(history.drop_last()) + if history.last() is End {
            1nat
        } else {
            0nat
        }
    }
}

/// Every completion in `history` has a start before it.
pub open spec fn well_paired(history: Seq<DispatchEvent>) -> bool {
    forall|n: int|
        0 <= n <= history.len() ==> ended(#[trigger] history.take(n)) <= begun(history.take(n))
}

/// At no time in `history` are more than 2^64 - 1 dispatches outstanding, so
/// that the counter does not wrap.
pub open spec fn countable(history: Seq<DispatchEvent>) -> bool {
    forall|n: int|
        0 <= n <= history.len() ==> begun(#[trigger] history.take(n)) - ended(history.take(n))
            <= u64::MAX
}

/// The count that a fresh tracker shows after `history`.
pub open spec fn count_after(history: Seq<DispatchEvent>) -> u64
    decreases history.len(),
{
    if history.len() == 0 {
        0
    } else {
        let before = count_after(history.drop_last());
        match history.last() {
            DispatchEvent::Begin => after_begin(before),
            DispatchEvent::End => after_end(before),
        }
    }
}

/// The tracker accounts for all work: after any interleaving of starts and
/// completions, from whatever consumer, the count is the number of dispatches
/// begun and not completed.
pub proof fn law_count_is_outstanding_work(history: Seq<DispatchEvent>)
    requires
        well_paired(history),
        countable(history),
    ensures
        count_after(history) == begun(history) - ended(history),
    decreases history.len(),
{
    if history.len() > 0 {
        let earlier = history.drop_last();
        assert forall|n: int| 0 <= n <= earlier.len() implies ended(#[trigger] earlier.take(n))
            <= begun(earlier.take(n)) && begun(earlier.take(n)) - ended(earlier.take(n))
            <= u64::MAX by {
            assert(earlier.take(n) =~= history.take(n));
        }
        law_count_is_outstanding_work(earlier);
        assert(history.take(history.len() as int) =~= history);
    }
}

/// One query certifies that no work is outstanding: the tracker is quiescent
/// exactly when every dispatch that began has completed.
pub proof fn law_quiescent_iff_all_completed(history: Seq<DispatchEvent>)
    requires
        well_paired(history),
        countable(history),
    ensures
        count_after(history) == 0 <==> begun(history) == ended(history),
{
    law_count_is_outstanding_work(history);
}

/// A dispatch leaves the tracker not quiescent until it completes, and its
/// completion takes the count back to what it was.
pub proof fn law_end_undoes_begin(in_flight: u64)
    requires
        in_flight < u64::MAX,
    ensures
        after_end(after_begin(in_flight)) == in_flight,
        after_begin(in_flight) != 0,
{
}

/// The events of one party, among those of two that share a tracker.
pub open spec fn part(history: Seq<(bool, DispatchEvent)>, own: bool) -> Seq<DispatchEvent>
    decreases history.len(),
{
    if history.len() == 0 {
        Seq::empty()
    } else if history.last().0 == own {
        part(history.drop_last(), own).push(history.last().1)
    } else {
        part(history.drop_last(), own)
    }
}

/// The events of both parties, in order.
pub open spec fn together(history: Seq<(bool, DispatchEvent)>) -> Seq<DispatchEvent> {
    history.map_values(|e: (bool, DispatchEvent)| e.1)
}

/// What one party did up to some time is the beginning of what it did.
proof fn lemma_part_of_prefix(history: Seq<(bool, DispatchEvent)>, own: bool, n: int)
    requires
        0 <= n <= history.len(),
    ensures
        part(history.take(n), own).len() <= part(history, own).len(),
        part(history.take(n), own) == part(history, own).take(
            part(history.take(n), own).len() as int,
        ),
    decreases history.len(),
{
    if n == history.len() {
        assert(history.take(n) =~= history);
        assert(part(history, own).take(part(history, own).len() as int) =~= part(history, own));
    } else {
        let earlier = history.drop_last();
        assert(history.take(n) =~= earlier.take(n));
        lemma_part_of_prefix(earlier, own, n);
        let k = part(earlier.take(n), own).len() as int;
        assert(part(history, own).take(k) =~= part(earlier, own).take(k));
    }
}

/// What begins and ends is begun and ended by one party or the other.
proof fn lemma_parts_add_up(history: Seq<(bool, DispatchEvent)>)
    ensures
        begun(together(history)) == begun(part(history, true)) + begun(part(history, false)),
        ended(together(history)) == ended(part(history, true)) + ended(part(history, false)),
    decreases history.len(),
{
    if history.len() > 0 {
        let earlier = history.drop_last();
        lemma_parts_add_up(earlier);
        assert(together(history).drop_last() =~= together(earlier));
        assert(together(history).last() == history.last().1);
        let own = history.last().0;
        let longer = part(history, own);
        assert(longer.drop_last() =~= part(earlier, own));
        assert(longer.last() == history.last().1);
    }
}

/// Nobody's work is overlooked: where two parties share a tracker, each pairing
/// its own starts and completions, the tracker is quiescent exactly when
/// neither has work outstanding.
pub proof fn law_shared_tracker_sees_both(history: Seq<(bool, DispatchEvent)>)
    requires
        well_paired(part(history, true)),
        well_paired(part(history, false)),
        countable(together(history)),
    ensures
        count_after(together(history)) == 0 <==> begun(part(history, true)) == ended(
            part(history, true),
        ) && begun(part(history, false)) == ended(part(history, false)),
{
    let all = together(history);
    assert forall|n: int| 0 <= n <= all.len() implies ended(#[trigger] all.take(n)) <= begun(
        all.take(n),
    ) by {
        let prefix = history.take(n);
        assert(all.take(n) =~= together(prefix));
        lemma_parts_add_up(prefix);
        lemma_part_of_prefix(history, true, n);
        lemma_part_of_prefix(history, false, n);
        let (own, other) = (part(history, true), part(history, false));
        let (i, j) = (part(prefix, true).len() as int, part(prefix, false).len() as int);
        assert(ended(own.take(i)) <= begun(own.take(i)));
        assert(ended(other.take(j)) <= begun(other.take(j)));
    }
    law_quiescent_iff_all_completed(all);
    lemma_parts_add_up(history);
    let (own, other) = (part(history, true), part(history, false));
    assert(own.take(own.len() as int) =~= own);
    assert(other.take(other.len() as int) =~= other);
}

/// The counter has 64 bits: a start adds one to it, and a completion takes one
/// from it.
pub proof fn law_counter_has_64_bits(in_flight: u64)
    ensures
        after_begin(in_flight) == (in_flight + 1) % 0x1_0000_0000_0000_0000,
        in_flight > 0 ==> after_end(in_flight) == in_flight - 1,
{
}

/// A tracker is quiescent exactly when it counts nothing, and a new one is.
pub proof fn law_tracker_is_quiescent_iff_it_counts_nothing(
    tracker: &GpuEpochTracker,
    count: u64,
    quiescent: bool,
    fresh: GpuEpochTracker,
    fresh_quiescent: bool,
)
    requires
        call_ensures(GpuEpochTracker::in_flight, (tracker,), count),
        call_ensures(GpuEpochTracker::is_quiescent, (tracker,), quiescent),
        call_ensures(GpuEpochTracker::new, (), fresh),
        call_ensures(GpuEpochTracker::is_quiescent, (&fresh,), fresh_quiescent),
    ensures
        quiescent <==> count == 0,
        fresh_quiescent,
{
}

} // verus!
