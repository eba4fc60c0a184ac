use vstd::prelude::*;

verus! {

/// The observable construction and scheduling events of one run.
///
/// Each counter records how often the corresponding event happened:
/// `SequenceCursor` constructions, "has more" checks on a cursor,
/// suspendable-computation constructions, polls of a computation, suspension
/// points emitted, and heap allocations and deallocations performed for a
/// heap-resident computation.
#[derive(Clone, Copy, PartialEq, Eq, Structural, Debug)]
pub struct Trace {
    pub cursors_constructed: u64,
    pub has_more_checks: u64,
    pub computations_constructed: u64,
    pub polls: u64,
    pub suspension_points: u64,
    pub allocations: u64,
    pub deallocations: u64,
}

impl Trace {
    /// The trace of a run in which nothing has happened yet.
    pub open spec fn zero() -> Trace {
        Trace {
            cursors_constructed: 0,
            has_more_checks: 0,
            computations_constructed: 0,
            polls: 0,
            suspension_points: 0,
            allocations: 0,
            deallocations: 0,
        }
    }

    pub fn new() -> (t: Trace)
        ensures
            t == Trace::zero(),
    {
        Trace {
            cursors_constructed: 0,
            has_more_checks: 0,
            computations_constructed: 0,
            polls: 0,
            suspension_points: 0,
            allocations: 0,
            deallocations: 0,
        }
    }
}

} // verus!
