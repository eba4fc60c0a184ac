use vstd::prelude::*;

use crate::clock::{clock_reading, sleep_until};
use crate::computation::{Computation, IterComputation, Poll};
use crate::suspension::{SuspensionKind, SuspensionPoint, TimerRecord};
use crate::trace::Trace;

verus! {

/// What driving a computation to completion hands back: the completed state
/// machine and one record per timer wait the executor performed.
pub struct DriveResult {
    pub computation: IterComputation,
    pub timer_records: Vec<TimerRecord>,
}

/// The timer waits of a run that emitted `count` suspension points of `kind`:
/// no records for cooperative yields; for timer sleeps, one faithful record
/// per suspension point (see [`TimerRecord::wf`]).
pub open spec fn timer_records_ok(records: Seq<TimerRecord>, kind: SuspensionKind, count: nat) -> bool {
    match kind {
        SuspensionKind::Yield => records.len() == 0,
        SuspensionKind::Timer { duration_nanos } => {
            &&& records.len() == count
            &&& forall|k: int| 0 <= k < records.len() ==> (#[trigger] records[k]).wf(duration_nanos)
        },
    }
}

/// The cooperative executor's drive loop for a single computation, the
/// degenerate use the measurement harness makes of the scheduling contract:
/// with one computation, a cooperative yield moves it to the back of a ready
/// queue it is alone in, so the loop polls it again at once, and a timer
/// suspension parks the loop until the deadline has passed.
///
/// The loop polls the computation to completion: one poll per element, each
/// emitting one suspension point, then one terminal poll that reports
/// `Ready`. Resumption after a timer suspension never happens before the
/// deadline, as the returned records show.
pub fn drive(comp: Computation, clock: &std::time::Instant, trace: &mut Trace) -> (res: DriveResult)
    requires
        comp.inner().wf(),
        comp.inner().state is NotStarted,
        old(trace).polls + comp.inner().elems().len() < u64::MAX,
        old(trace).has_more_checks + comp.inner().elems().len() < u64::MAX,
        old(trace).suspension_points + comp.inner().elems().len() <= u64::MAX,
        old(trace).deallocations < u64::MAX,
    ensures
        res.computation.wf(),
        res.computation.is_completed(),
        res.computation.elems() == comp.inner().elems(),
        res.computation.kind == comp.inner().kind,
        res.computation.visited@ == comp.inner().elems(),
        timer_records_ok(res.timer_records@, comp.inner().kind, comp.inner().elems().len()),
        final(trace).polls == old(trace).polls + comp.inner().elems().len() + 1,
        final(trace).has_more_checks == old(trace).has_more_checks + comp.inner().elems().len() + 1,
        final(trace).suspension_points == old(trace).suspension_points
            + comp.inner().elems().len(),
        final(trace).cursors_constructed == old(trace).cursors_constructed,
        final(trace).computations_constructed == old(trace).computations_constructed,
        final(trace).allocations == old(trace).allocations,
        final(trace).deallocations == old(trace).deallocations
            + (if comp.strategy() is Heap { 1int } else { 0int }),
{
    let ghost t0 = *trace;
    let ghost elems0 = comp.inner().elems();
    let ghost kind0 = comp.inner().kind;
    let ghost strat0 = comp.strategy();
    let mut c = comp;
    let mut records: Vec<TimerRecord> = Vec::new();
    let mut done = false;
    while !done
        invariant
            c.inner().wf(),
            c.inner().elems() == elems0,
            c.inner().kind == kind0,
            c.strategy() == strat0,
            done == c.inner().is_completed(),
            trace.polls == t0.polls + c.inner().pos() + (if done { 1int } else { 0int }),
            trace.has_more_checks == t0.has_more_checks + c.inner().pos()
                + (if done { 1int } else { 0int }),
            trace.suspension_points == t0.suspension_points + c.inner().pos(),
            trace.cursors_constructed == t0.cursors_constructed,
            trace.computations_constructed == t0.computations_constructed,
            trace.allocations == t0.allocations,
            trace.deallocations == t0.deallocations,
            timer_records_ok(records@, kind0, c.inner().pos()),
            t0.polls + elems0.len() < u64::MAX,
            t0.has_more_checks + elems0.len() < u64::MAX,
            t0.suspension_points + elems0.len() <= u64::MAX,
        decreases elems0.len() - c.inner().pos() + (if done { 0int } else { 1int }),
    {
        let now = clock_reading(clock);
        let r = c.poll(now, trace);
        match r {
            Poll::Ready => {
                done = true;
            },
            Poll::Pending(SuspensionPoint::Yield) => {
                // The lone computation is requeued at the tail of the ready
                // queue and immediately becomes its head again.
            },
            Poll::Pending(SuspensionPoint::Timer { deadline_nanos }) => {
                let resumed = sleep_until(clock, deadline_nanos);
                records.push(TimerRecord {
                    suspended_at: now,
                    deadline_nanos,
                    resumed_at: resumed,
                });
            },
        }
    }
    proof {
        assert(c.inner().visited@ =~= elems0);
    }
    let computation = c.into_inner(trace);
    DriveResult { computation, timer_records: records }
}

/// A computation the executor may poll: internally consistent and not yet
/// completed (polling a completed computation is a usage error).
pub open spec fn comp_ok(c: Computation) -> bool {
    &&& c.inner().wf()
    &&& !c.inner().is_completed()
}

/// The polls a computation still needs to complete: one per unvisited
/// element, plus the terminal poll.
pub open spec fn work_of(c: Computation) -> nat {
    if c.inner().pos() <= c.inner().elems().len() {
        (c.inner().elems().len() - c.inner().pos() + 1) as nat
    } else {
        0
    }
}

/// One for a heap-resident computation, zero for a stack-resident one.
pub open spec fn heap_of(c: Computation) -> nat {
    if c.strategy() is Heap {
        1
    } else {
        0
    }
}

/// Every computation of the queue can be polled.
pub open spec fn comps_ok(s: Seq<Computation>) -> bool
    decreases s.len(),
{
    if s.len() == 0 {
        true
    } else {
        comps_ok(s.drop_last()) && comp_ok(s.last())
    }
}

/// The polls a whole queue of computations still needs.
pub open spec fn work_sum(s: Seq<Computation>) -> nat
    decreases s.len(),
{
    if s.len() == 0 {
        0
    } else {
        work_sum(s.drop_last()) + work_of(s.last())
    }
}

/// How many computations of a queue are heap-resident.
pub open spec fn heap_sum(s: Seq<Computation>) -> nat
    decreases s.len(),
{
    if s.len() == 0 {
        0
    } else {
        heap_sum(s.drop_last()) + heap_of(s.last())
    }
}

/// A computation parked in the pending-timer structure until the monotonic
/// clock reaches its deadline.
pub struct TimerEntry {
    pub deadline_nanos: u128,
    pub computation: Computation,
}

/// [`comps_ok`] over the computations of a run of timer entries.
pub open spec fn entries_ok(s: Seq<TimerEntry>) -> bool
    decreases s.len(),
{
    if s.len() == 0 {
        true
    } else {
        entries_ok(s.drop_last()) && comp_ok(s.last().computation)
    }
}

/// [`work_sum`] over the computations of a run of timer entries.
pub open spec fn entry_work_sum(s: Seq<TimerEntry>) -> nat
    decreases s.len(),
{
    if s.len() == 0 {
        0
    } else {
        entry_work_sum(s.drop_last()) + work_of(s.last().computation)
    }
}

/// [`heap_sum`] over the computations of a run of timer entries.
pub open spec fn entry_heap_sum(s: Seq<TimerEntry>) -> nat
    decreases s.len(),
{
    if s.len() == 0 {
        0
    } else {
        entry_heap_sum(s.drop_last()) + heap_of(s.last().computation)
    }
}

/// Splitting the queue predicates and sums at the front instead of the back.
proof fn lemma_sums_drop_first(s: Seq<Computation>)
    requires
        1 <= s.len(),
    ensures
        work_sum(s) == work_of(s[0]) + work_sum(s.drop_first()),
        heap_sum(s) == heap_of(s[0]) + heap_sum(s.drop_first()),
        comps_ok(s) ==> comp_ok(s[0]) && comps_ok(s.drop_first()),
    decreases s.len(),
{
    if s.len() == 1 {
        assert(s.drop_first() =~= Seq::<Computation>::empty());
        assert(s.drop_last() =~= Seq::<Computation>::empty());
        assert(s.last() == s[0]);
    } else {
        lemma_sums_drop_first(s.drop_last());
        assert(s.drop_last()[0] == s[0]);
        assert(s.drop_first().drop_last() =~= s.drop_last().drop_first());
        assert(s.drop_first().last() == s.last());
    }
}

/// Splitting the timer-entry predicates and sums at the front instead of the
/// back.
proof fn lemma_entry_sums_drop_first(s: Seq<TimerEntry>)
    requires
        1 <= s.len(),
    ensures
        entry_work_sum(s) == work_of(s[0].computation) + entry_work_sum(s.drop_first()),
        entry_heap_sum(s) == heap_of(s[0].computation) + entry_heap_sum(s.drop_first()),
        entries_ok(s) ==> comp_ok(s[0].computation) && entries_ok(s.drop_first()),
    decreases s.len(),
{
    if s.len() == 1 {
        assert(s.drop_first() =~= Seq::<TimerEntry>::empty());
        assert(s.drop_last() =~= Seq::<TimerEntry>::empty());
        assert(s.last() == s[0]);
    } else {
        lemma_entry_sums_drop_first(s.drop_last());
        assert(s.drop_last()[0] == s[0]);
        assert(s.drop_first().drop_last() =~= s.drop_last().drop_first());
        assert(s.drop_first().last() == s.last());
    }
}

/// The cooperative executor: a FIFO ready queue of computations awaiting a
/// poll, and a pending-timer structure holding parked computations in
/// insertion order, keyed by deadline.
///
/// Run to quiescence, it repeatedly polls the head of the ready queue —
/// requeueing at the tail on a cooperative yield, parking on a timer
/// suspension, retiring on `Ready` — and, when only timers remain, waits for
/// the earliest deadline and moves every expired computation back to the
/// ready queue, preserving insertion order among ties.
pub struct Executor {
    ready: std::collections::VecDeque<Computation>,
    timers: Vec<TimerEntry>,
}

impl Executor {
    /// The ready queue, head first.
    pub closed spec fn ready_comps(&self) -> Seq<Computation> {
        self.ready@
    }

    /// The pending-timer structure, in insertion order.
    pub closed spec fn timer_entries(&self) -> Seq<TimerEntry> {
        self.timers@
    }

    /// How many computations are pending, wherever they wait.
    pub open spec fn pending_count(&self) -> nat {
        self.ready_comps().len() + self.timer_entries().len()
    }

    /// The polls the executor still owes its pending computations.
    pub open spec fn work(&self) -> nat {
        work_sum(self.ready_comps()) + entry_work_sum(self.timer_entries())
    }

    /// How many pending computations are heap-resident.
    pub open spec fn heap_pending(&self) -> nat {
        heap_sum(self.ready_comps()) + entry_heap_sum(self.timer_entries())
    }

    /// Every pending computation can be polled.
    pub open spec fn wf(&self) -> bool {
        &&& comps_ok(self.ready_comps())
        &&& entries_ok(self.timer_entries())
    }

    pub fn new() -> (e: Executor)
        ensures
            e.wf(),
            e.ready_comps() == Seq::<Computation>::empty(),
            e.timer_entries() == Seq::<TimerEntry>::empty(),
            e.pending_count() == 0,
            e.work() == 0,
            e.heap_pending() == 0,
    {
        Executor { ready: std::collections::VecDeque::new(), timers: Vec::new() }
    }

    /// Appends a computation to the tail of the ready queue.
    pub fn submit(&mut self, comp: Computation)
        requires
            old(self).wf(),
            comp_ok(comp),
        ensures
            final(self).wf(),
            final(self).ready_comps() == old(self).ready_comps().push(comp),
            final(self).timer_entries() == old(self).timer_entries(),
            final(self).pending_count() == old(self).pending_count() + 1,
            final(self).work() == old(self).work() + work_of(comp),
            final(self).heap_pending() == old(self).heap_pending() + heap_of(comp),
    {
        self.ready.push_back(comp);
        proof {
            let s = old(self).ready_comps();
            assert(s.push(comp).drop_last() =~= s);
            assert(s.push(comp).last() == comp);
        }
    }

    fn has_pending(&self) -> (b: bool)
        ensures
            b == (self.pending_count() != 0),
    {
        self.ready.len() > 0 || self.timers.len() > 0
    }

    /// Runs the executor to quiescence: polls the head of the ready queue,
    /// requeues on cooperative yield, parks on timer suspensions, and — when
    /// only timers remain — waits for the earliest deadline and moves every
    /// expired computation back to the ready queue in insertion order.
    /// Terminates when both structures are empty, returning every retired
    /// computation: each completed, having visited exactly its own sequence
    /// in element order. The executor never consults the clock's wait
    /// primitive in the absence of pending timers.
    pub fn run(&mut self, clock: &std::time::Instant, trace: &mut Trace) -> (done: Vec<
        IterComputation,
    >)
        requires
            old(self).wf(),
            old(trace).polls + old(self).work() <= u64::MAX,
            old(trace).has_more_checks + old(self).work() <= u64::MAX,
            old(trace).suspension_points + old(self).work() <= u64::MAX,
            old(trace).deallocations + old(self).heap_pending() <= u64::MAX,
        ensures
            final(self).wf(),
            final(self).pending_count() == 0,
            done@.len() == old(self).pending_count(),
            forall|k: int| 0 <= k < done@.len() ==> {
                &&& (#[trigger] done@[k]).wf()
                &&& done@[k].is_completed()
                &&& done@[k].visited@ == done@[k].elems()
            },
            final(trace).polls == old(trace).polls + old(self).work(),
            final(trace).has_more_checks == old(trace).has_more_checks + old(self).work(),
            final(trace).suspension_points == old(trace).suspension_points + old(self).work()
                - old(self).pending_count(),
            final(trace).deallocations == old(trace).deallocations + old(self).heap_pending(),
            final(trace).cursors_constructed == old(trace).cursors_constructed,
            final(trace).computations_constructed == old(trace).computations_constructed,
            final(trace).allocations == old(trace).allocations,
    {
        let ghost t0 = *trace;
        let ghost w0 = old(self).work();
        let ghost n0 = old(self).pending_count();
        let ghost h0 = old(self).heap_pending();
        let mut done: Vec<IterComputation> = Vec::new();
        let mut pending = self.has_pending();
        while pending
            invariant
                pending == (self.pending_count() != 0),
                self.wf(),
                forall|k: int| 0 <= k < done@.len() ==> {
                    &&& (#[trigger] done@[k]).wf()
                    &&& done@[k].is_completed()
                    &&& done@[k].visited@ == done@[k].elems()
                },
                done@.len() + self.pending_count() == n0,
                self.work() <= w0,
                self.heap_pending() <= h0,
                trace.polls == t0.polls + w0 - self.work(),
                trace.has_more_checks == t0.has_more_checks + w0 - self.work(),
                trace.suspension_points == t0.suspension_points + (w0 - self.work())
                    - done@.len(),
                trace.deallocations == t0.deallocations + h0 - self.heap_pending(),
                trace.cursors_constructed == t0.cursors_constructed,
                trace.computations_constructed == t0.computations_constructed,
                trace.allocations == t0.allocations,
                t0.polls + w0 <= u64::MAX,
                t0.has_more_checks + w0 <= u64::MAX,
                t0.suspension_points + w0 <= u64::MAX,
                t0.deallocations + h0 <= u64::MAX,
            decreases self.work(), self.timer_entries().len(),
        {
            if self.ready.len() > 0 {
                let ghost pre_ready = self.ready@;
                proof {
                    lemma_sums_drop_first(pre_ready);
                    assert(comp_ok(pre_ready[0]));
                    assert(work_of(pre_ready[0]) >= 1);
                }
                let popped = self.ready.pop_front();
                let mut comp = popped.unwrap();
                proof {
                    assert(pre_ready.subrange(1, pre_ready.len() as int) =~= pre_ready
                        .drop_first());
                }
                let ghost pre_comp = comp;
                let now = clock_reading(clock);
                let r = comp.poll(now, trace);
                match r {
                    Poll::Ready => {
                        proof {
                            assert(work_of(pre_comp) == 1);
                        }
                        let finished = comp.into_inner(trace);
                        proof {
                            assert(finished.visited@ =~= finished.elems());
                        }
                        done.push(finished);
                    },
                    Poll::Pending(SuspensionPoint::Yield) => {
                        proof {
                            assert(comp_ok(comp));
                            assert(work_of(comp) == work_of(pre_comp) - 1);
                            assert(heap_of(comp) == heap_of(pre_comp));
                        }
                        let ghost mid_ready = self.ready@;
                        self.ready.push_back(comp);
                        proof {
                            assert(mid_ready.push(comp).drop_last() =~= mid_ready);
                            assert(mid_ready.push(comp).last() == comp);
                        }
                    },
                    Poll::Pending(SuspensionPoint::Timer { deadline_nanos }) => {
                        proof {
                            assert(comp_ok(comp));
                            assert(work_of(comp) == work_of(pre_comp) - 1);
                            assert(heap_of(comp) == heap_of(pre_comp));
                        }
                        let ghost mid_timers = self.timers@;
                        let entry = TimerEntry { deadline_nanos, computation: comp };
                        self.timers.push(entry);
                        proof {
                            assert(mid_timers.push(entry).drop_last() =~= mid_timers);
                            assert(mid_timers.push(entry).last() == entry);
                        }
                    },
                }
            } else {
                // Only timers remain: find the earliest deadline.
                let mut mn = self.timers[0].deadline_nanos;
                let ghost mut kmin: int = 0;
                let mut j: usize = 1;
                while j < self.timers.len()
                    invariant
                        1 <= j <= self.timers@.len(),
                        0 <= kmin < j,
                        self.timers@[kmin].deadline_nanos == mn,
                        forall|k: int| 0 <= k < j ==> (#[trigger] self.timers@[k]).deadline_nanos
                            >= mn,
                    decreases self.timers@.len() - j,
                {
                    let d = self.timers[j].deadline_nanos;
                    if d < mn {
                        mn = d;
                        proof {
                            kmin = j as int;
                        }
                    }
                    j = j + 1;
                }
                let resumed = sleep_until(clock, mn);
                // Move every expired computation to the ready queue,
                // preserving insertion order among simultaneously expired
                // timers; at least the earliest-deadline entry has expired.
                let ghost orig = self.timers@;
                let ghost w_drain = work_sum(self.ready@) + entry_work_sum(self.timers@);
                let ghost h_drain = heap_sum(self.ready@) + entry_heap_sum(self.timers@);
                let ghost c_drain = self.ready@.len() + self.timers@.len();
                let ghost mut j2: int = 0;
                let mut remaining: Vec<TimerEntry> = Vec::new();
                proof {
                    assert(orig.skip(0) =~= orig);
                }
                while self.timers.len() > 0
                    invariant
                        0 <= j2 <= orig.len(),
                        self.timers@ == orig.skip(j2),
                        work_sum(self.ready@) + entry_work_sum(remaining@) + entry_work_sum(
                            self.timers@,
                        ) == w_drain,
                        heap_sum(self.ready@) + entry_heap_sum(remaining@) + entry_heap_sum(
                            self.timers@,
                        ) == h_drain,
                        self.ready@.len() + remaining@.len() + self.timers@.len() == c_drain,
                        comps_ok(self.ready_comps()),
                        entries_ok(self.timer_entries()),
                        entries_ok(remaining@),
                        remaining@.len() <= j2,
                        kmin < j2 ==> remaining@.len() < j2,
                        0 <= kmin < orig.len(),
                        orig[kmin].deadline_nanos <= resumed,
                    decreases self.timers@.len(),
                {
                    proof {
                        lemma_entry_sums_drop_first(orig.skip(j2));
                        assert(orig.skip(j2)[0] == orig[j2]);
                        assert(comp_ok(orig[j2].computation));
                        assert(orig.skip(j2).drop_first() =~= orig.skip(j2 + 1));
                        assert(orig.skip(j2).remove(0) =~= orig.skip(j2).drop_first());
                    }
                    let e = self.timers.remove(0);
                    proof {
                        assert(e == orig[j2]);
                        assert(comp_ok(e.computation));
                    }
                    if e.deadline_nanos <= resumed {
                        let ghost mid_ready = self.ready@;
                        let ghost moved = e.computation;
                        self.ready.push_back(e.computation);
                        proof {
                            assert(self.ready@ == mid_ready.push(moved));
                            assert(mid_ready.push(moved).drop_last() =~= mid_ready);
                            assert(mid_ready.push(moved).last() == moved);
                        }
                    } else {
                        let ghost mid_rem = remaining@;
                        remaining.push(e);
                        proof {
                            assert(remaining@ == mid_rem.push(orig[j2]));
                            assert(mid_rem.push(orig[j2]).drop_last() =~= mid_rem);
                            assert(mid_rem.push(orig[j2]).last() == orig[j2]);
                        }
                    }
                    proof {
                        j2 = j2 + 1;
                    }
                }
                proof {
                    assert(orig.skip(j2).len() == 0);
                    assert(j2 == orig.len());
                    assert(remaining@.len() < orig.len());
                    assert(entry_work_sum(self.timers@) == 0);
                    assert(entry_heap_sum(self.timers@) == 0);
                }
                self.timers = remaining;
            }
            pending = self.has_pending();
        }
        done
    }
}

} // verus!
