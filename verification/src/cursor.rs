use vstd::prelude::*;

use crate::trace::Trace;

verus! {

/// A traversal position over a fixed sequence of elements.
///
/// The position only ever moves forward, so once the cursor is exhausted it
/// reports "no more elements" forever. Constructing a cursor and checking
/// "has more" are the countable events of the early-exit comparison, so both
/// record themselves in the run's [`Trace`].
pub struct SequenceCursor {
    elems: Vec<i32>,
    pos: usize,
}

impl SequenceCursor {
    /// The elements the cursor traverses.
    pub closed spec fn elems(&self) -> Seq<i32> {
        self.elems@
    }

    /// How many elements have been consumed so far.
    pub closed spec fn pos(&self) -> nat {
        self.pos as nat
    }

    /// The position never runs past the end of the sequence.
    pub open spec fn wf(&self) -> bool {
        self.pos() <= self.elems().len()
    }

    /// Whether a further element remains.
    pub open spec fn has_more_spec(&self) -> bool {
        self.pos() < self.elems().len()
    }

    pub fn new(elems: Vec<i32>, trace: &mut Trace) -> (c: SequenceCursor)
        requires
            old(trace).cursors_constructed < u64::MAX,
        ensures
            c.wf(),
            c.elems() == elems@,
            c.pos() == 0,
            final(trace).cursors_constructed == old(trace).cursors_constructed + 1,
            final(trace).has_more_checks == old(trace).has_more_checks,
            final(trace).computations_constructed == old(trace).computations_constructed,
            final(trace).polls == old(trace).polls,
            final(trace).suspension_points == old(trace).suspension_points,
            final(trace).allocations == old(trace).allocations,
            final(trace).deallocations == old(trace).deallocations,
    {
        trace.cursors_constructed = trace.cursors_constructed + 1;
        SequenceCursor { elems, pos: 0 }
    }

    pub fn has_more(&self, trace: &mut Trace) -> (r: bool)
        requires
            old(trace).has_more_checks < u64::MAX,
        ensures
            r == self.has_more_spec(),
            final(trace).has_more_checks == old(trace).has_more_checks + 1,
            final(trace).cursors_constructed == old(trace).cursors_constructed,
            final(trace).computations_constructed == old(trace).computations_constructed,
            final(trace).polls == old(trace).polls,
            final(trace).suspension_points == old(trace).suspension_points,
            final(trace).allocations == old(trace).allocations,
            final(trace).deallocations == old(trace).deallocations,
    {
        trace.has_more_checks = trace.has_more_checks + 1;
        self.pos < self.elems.len()
    }

    /// Consumes and returns the next element.
    pub fn advance(&mut self) -> (x: i32)
        requires
            old(self).wf(),
            old(self).has_more_spec(),
        ensures
            final(self).wf(),
            final(self).elems() == old(self).elems(),
            final(self).pos() == old(self).pos() + 1,
            x == old(self).elems()[old(self).pos() as int],
    {
        proof {
            vstd::std_specs::vec::axiom_spec_len(&self.elems);
        }
        let x = self.elems[self.pos];
        self.pos = self.pos + 1;
        x
    }
}

} // verus!
