use vstd::prelude::*;

use crate::computation::{AllocStrategy, Computation};
use crate::cursor::SequenceCursor;
use crate::executor::{drive, timer_records_ok};
use crate::suspension::{SuspensionKind, TimerRecord};
use crate::trace::Trace;

verus! {

/// Everything one run of the traversal makes observable: the elements
/// visited in order, whether the computation reached its completed state,
/// the counted construction and scheduling events, and one record per timer
/// wait.
pub struct RunOutcome {
    pub visited: Vec<i32>,
    pub completed: bool,
    pub trace: Trace,
    pub timer_records: Vec<TimerRecord>,
}

/// The trace of the unguarded path over a sequence of length `len`: one
/// cursor construction, one computation construction, one "has more" check
/// per element plus the final check that reports exhaustion, one poll per
/// element plus the terminal poll, one suspension point per element, and —
/// under the heap strategy — exactly one allocation and one deallocation.
pub open spec fn unguarded_trace(len: nat, strategy: AllocStrategy) -> Trace {
    Trace {
        cursors_constructed: 1,
        has_more_checks: (len + 1) as u64,
        computations_constructed: 1,
        polls: (len + 1) as u64,
        suspension_points: len as u64,
        allocations: if strategy is Heap {
            1
        } else {
            0
        },
        deallocations: if strategy is Heap {
            1
        } else {
            0
        },
    }
}

/// The trace of the guarded path: for an empty sequence the guard
/// short-circuits and nothing at all is constructed or polled; otherwise the
/// guarded path proceeds exactly as the unguarded one.
pub open spec fn guarded_trace(len: nat, strategy: AllocStrategy) -> Trace {
    if len == 0 {
        Trace::zero()
    } else {
        unguarded_trace(len, strategy)
    }
}

/// What both paths promise of a run over `data` with suspension `kind`,
/// whatever the guard setting: every element is visited, in order; the run
/// completes; and the executor performed one faithful timer wait per timer
/// suspension point, never resuming before the deadline.
pub open spec fn run_outcome_ok(out: RunOutcome, data: Seq<i32>, kind: SuspensionKind) -> bool {
    &&& out.visited@ == data
    &&& out.completed
    &&& timer_records_ok(out.timer_records@, kind, out.trace.suspension_points as nat)
}

/// The unguarded path: always construct the cursor and the computation, and
/// drive the computation to completion on the executor, even when the
/// sequence is empty — in which case the one constructed cursor answers its
/// one "has more" check with `false` and the single terminal poll reports
/// `Ready` with no suspension point emitted.
pub fn no_check(
    data: &Vec<i32>,
    strategy: AllocStrategy,
    kind: SuspensionKind,
    clock: &std::time::Instant,
) -> (out: RunOutcome)
    requires
        data@.len() < u64::MAX - 1,
    ensures
        run_outcome_ok(out, data@, kind),
        out.trace == unguarded_trace(data@.len(), strategy),
{
    let mut trace = Trace::new();
    let elems = clone_elements(data);
    let cursor = SequenceCursor::new(elems, &mut trace);
    let computation = Computation::construct(cursor, kind, strategy, &mut trace);
    let res = drive(computation, clock, &mut trace);
    let completed = res.computation.is_complete();
    RunOutcome {
        visited: res.computation.visited,
        completed,
        trace,
        timer_records: res.timer_records,
    }
}

/// The early-exit guard: check emptiness first and, for an empty sequence,
/// return the terminal result directly, constructing no cursor, no
/// computation and invoking no executor; for a non-empty sequence proceed
/// exactly as the unguarded path. The guard is a pure optimization: the
/// visited elements and the completion state are identical to [`no_check`]
/// on every input, and only the construction and scheduling counts of the
/// empty case differ.
pub fn with_check(
    data: &Vec<i32>,
    strategy: AllocStrategy,
    kind: SuspensionKind,
    clock: &std::time::Instant,
) -> (out: RunOutcome)
    requires
        data@.len() < u64::MAX - 1,
    ensures
        run_outcome_ok(out, data@, kind),
        out.trace == guarded_trace(data@.len(), strategy),
{
    if data.is_empty() {
        let out = RunOutcome {
            visited: Vec::new(),
            completed: true,
            trace: Trace::new(),
            timer_records: Vec::new(),
        };
        proof {
            assert(out.visited@ =~= data@);
        }
        out
    } else {
        no_check(data, strategy, kind, clock)
    }
}

/// Copies the elements of `data` so the cursor can own its sequence.
fn clone_elements(data: &Vec<i32>) -> (r: Vec<i32>)
    ensures
        r@ == data@,
{
    let mut r: Vec<i32> = Vec::new();
    let mut i: usize = 0;
    while i < data.len()
        invariant
            i <= data@.len(),
            r@ == data@.take(i as int),
        decreases data@.len() - i,
    {
        r.push(data[i]);
        proof {
            assert(r@ =~= data@.take(i + 1));
        }
        i = i + 1;
    }
    proof {
        assert(r@ =~= data@);
    }
    r
}

/// Equivalence of the two paths: for every sequence and both guard
/// settings, the elements visited, in order, and the final completion state
/// are identical; only the construction and scheduling counts may differ.
pub proof fn lemma_guard_equivalence(
    guarded: RunOutcome,
    unguarded: RunOutcome,
    data: Seq<i32>,
    kind: SuspensionKind,
)
    requires
        run_outcome_ok(guarded, data, kind),
        run_outcome_ok(unguarded, data, kind),
    ensures
        guarded.visited@ == unguarded.visited@,
        guarded.completed == unguarded.completed,
{
}

/// The guard is a pure optimization: on a non-empty sequence the guarded
/// path performs exactly the constructions, checks, polls, suspensions and
/// allocations of the unguarded path — only the empty case differs in cost.
pub proof fn lemma_guard_costs_equal_when_nonempty(len: nat, strategy: AllocStrategy)
    requires
        1 <= len,
    ensures
        guarded_trace(len, strategy) == unguarded_trace(len, strategy),
{
}

/// The guarded empty run is free: with the guard on, a zero-length sequence
/// costs no cursor construction, no suspension point, no poll and no
/// allocation — the trace stays at zero.
pub proof fn lemma_guarded_empty_is_free(strategy: AllocStrategy)
    ensures
        guarded_trace(0, strategy) == Trace::zero(),
{
}

/// The unguarded empty run constructs exactly one cursor, checks "has more"
/// exactly once, emits no suspension point, and performs exactly one
/// (terminal) poll.
pub proof fn lemma_unguarded_empty_cost(strategy: AllocStrategy)
    ensures
        unguarded_trace(0, strategy).cursors_constructed == 1,
        unguarded_trace(0, strategy).has_more_checks == 1,
        unguarded_trace(0, strategy).suspension_points == 0,
        unguarded_trace(0, strategy).polls == 1,
{
}

/// For a non-empty sequence of length `len`, the number of suspension points
/// emitted equals `len`, independent of the guard setting.
pub proof fn lemma_suspension_count(len: nat, strategy: AllocStrategy)
    requires
        1 <= len,
        len < u64::MAX - 1,
    ensures
        guarded_trace(len, strategy).suspension_points == len,
        unguarded_trace(len, strategy).suspension_points == len,
{
}

/// Allocation accounting for the heap strategy: one allocation and one
/// deallocation per construction that the guard did not short-circuit, and
/// none at all when it did; the stack strategy never allocates.
pub proof fn lemma_allocation_accounting(len: nat)
    requires
        len < u64::MAX - 1,
    ensures
        unguarded_trace(len, AllocStrategy::Heap).allocations == 1,
        unguarded_trace(len, AllocStrategy::Heap).deallocations == 1,
        guarded_trace(0, AllocStrategy::Heap).allocations == 0,
        guarded_trace(0, AllocStrategy::Heap).deallocations == 0,
        unguarded_trace(len, AllocStrategy::Stack).allocations == 0,
        guarded_trace(len, AllocStrategy::Stack).allocations == 0,
{
}

/// The timer lower bound: a run with timer suspensions never resumes a
/// computation before the clock reading taken at suspension time plus the
/// requested duration (stated away from the saturation point of the
/// deadline arithmetic, which a monotonic clock in nanoseconds cannot
/// reach).
pub proof fn lemma_timer_lower_bound(
    out: RunOutcome,
    data: Seq<i32>,
    duration_nanos: u64,
    k: int,
)
    requires
        run_outcome_ok(out, data, SuspensionKind::Timer { duration_nanos }),
        0 <= k < out.timer_records@.len(),
        out.timer_records@[k].suspended_at + duration_nanos <= u128::MAX,
    ensures
        out.timer_records@[k].resumed_at >= out.timer_records@[k].suspended_at + duration_nanos,
{
}

} // verus!
