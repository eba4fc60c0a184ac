use vstd::prelude::*;

use crate::cursor::SequenceCursor;
use crate::suspension::{compute_deadline, point_for, SuspensionKind, SuspensionPoint};
use crate::trace::Trace;

verus! {

/// Where the state of a computation lives: inline in the caller's frame, or
/// behind one owned heap indirection.
#[derive(Clone, Copy, PartialEq, Eq, Structural, Debug)]
pub enum AllocStrategy {
    Stack,
    Heap,
}

/// The inspectable state of a suspendable computation. Transitions are
/// strictly forward: `NotStarted`, then zero or more `Suspended` states, then
/// `Completed`; no transition leaves `Completed`.
#[derive(Clone, Copy, PartialEq, Eq, Structural, Debug)]
pub enum ComputationState {
    NotStarted,
    Suspended(SuspensionPoint),
    Completed,
}

/// What one `poll` step reports: the computation finished, or it suspended at
/// the given point and must be resumed there before the next poll.
#[derive(Clone, Copy, PartialEq, Eq, Structural, Debug)]
pub enum Poll {
    Ready,
    Pending(SuspensionPoint),
}

/// The iteration adapter: a suspendable computation that traverses a sequence
/// and emits exactly one suspension point per element.
///
/// Each poll either visits the next element — recording it in `visited`, the
/// configured side-effect sink — and suspends with a point of the configured
/// kind, or, once the cursor is exhausted, completes. Construction performs
/// no suspension and no poll by itself.
pub struct IterComputation {
    pub cursor: SequenceCursor,
    pub kind: SuspensionKind,
    pub state: ComputationState,
    pub visited: Vec<i32>,
}

impl IterComputation {
    /// The full sequence the computation traverses.
    pub open spec fn elems(&self) -> Seq<i32> {
        self.cursor.elems()
    }

    /// How many elements have been visited so far.
    pub open spec fn pos(&self) -> nat {
        self.cursor.pos()
    }

    pub open spec fn is_completed(&self) -> bool {
        self.state is Completed
    }

    /// Internal consistency: the visited sink holds exactly the consumed
    /// prefix, and the state agrees with the cursor's progress.
    pub open spec fn wf(&self) -> bool {
        &&& self.cursor.wf()
        &&& self.visited@ == self.elems().take(self.pos() as int)
        &&& match self.state {
            ComputationState::NotStarted => self.pos() == 0,
            ComputationState::Suspended(_) => 1 <= self.pos(),
            ComputationState::Completed => self.pos() == self.elems().len(),
        }
    }

    pub fn new(cursor: SequenceCursor, kind: SuspensionKind, trace: &mut Trace) -> (c:
        IterComputation)
        requires
            cursor.wf(),
            cursor.pos() == 0,
            old(trace).computations_constructed < u64::MAX,
        ensures
            c.wf(),
            c.elems() == cursor.elems(),
            c.pos() == 0,
            c.kind == kind,
            c.state == ComputationState::NotStarted,
            c.visited@ == Seq::<i32>::empty(),
            final(trace).computations_constructed == old(trace).computations_constructed + 1,
            final(trace).cursors_constructed == old(trace).cursors_constructed,
            final(trace).has_more_checks == old(trace).has_more_checks,
            final(trace).polls == old(trace).polls,
            final(trace).suspension_points == old(trace).suspension_points,
            final(trace).allocations == old(trace).allocations,
            final(trace).deallocations == old(trace).deallocations,
    {
        trace.computations_constructed = trace.computations_constructed + 1;
        let c = IterComputation { cursor, kind, state: ComputationState::NotStarted, visited: Vec::new() };
        proof {
            assert(c.visited@ =~= c.elems().take(0));
        }
        c
    }

    /// Whether the state is `Completed`, decided at run time.
    pub fn is_complete(&self) -> (b: bool)
        ensures
            b == self.is_completed(),
    {
        match self.state {
            ComputationState::Completed => true,
            _ => false,
        }
    }

    /// Advances the computation by exactly one step; `now_nanos` is the
    /// monotonic clock reading at which the step runs, used only to place
    /// timer deadlines. Polling a completed computation is a usage error and
    /// is excluded by precondition.
    pub fn poll(&mut self, now_nanos: u128, trace: &mut Trace) -> (r: Poll)
        requires
            old(self).wf(),
            !old(self).is_completed(),
            old(trace).polls < u64::MAX,
            old(trace).has_more_checks < u64::MAX,
            old(self).pos() < old(self).elems().len() ==> old(trace).suspension_points
                < u64::MAX,
        ensures
            poll_transition(*old(self), *final(self), *old(trace), *final(trace), now_nanos, r),
    {
        trace.polls = trace.polls + 1;
        let more = self.cursor.has_more(trace);
        if more {
            let x = self.cursor.advance();
            self.visited.push(x);
            let point = match self.kind {
                SuspensionKind::Yield => SuspensionPoint::Yield,
                SuspensionKind::Timer { duration_nanos } => SuspensionPoint::Timer {
                    deadline_nanos: compute_deadline(now_nanos, duration_nanos),
                },
            };
            trace.suspension_points = trace.suspension_points + 1;
            self.state = ComputationState::Suspended(point);
            proof {
                assert(self.visited@ =~= self.elems().take(self.pos() as int));
            }
            Poll::Pending(point)
        } else {
            self.state = ComputationState::Completed;
            Poll::Ready
        }
    }
}

/// Everything one poll step does: the state, cursor, sink and trace of the
/// computation after the step, and the result it reports, as a function of
/// the computation before the step and the clock reading the step ran at.
pub open spec fn poll_transition(
    pre: IterComputation,
    post: IterComputation,
    pre_t: Trace,
    post_t: Trace,
    now_nanos: u128,
    r: Poll,
) -> bool {
    &&& post.wf()
    &&& post.elems() == pre.elems()
    &&& post.kind == pre.kind
    &&& post_t.polls == pre_t.polls + 1
    &&& post_t.has_more_checks == pre_t.has_more_checks + 1
    &&& post_t.cursors_constructed == pre_t.cursors_constructed
    &&& post_t.computations_constructed == pre_t.computations_constructed
    &&& post_t.allocations == pre_t.allocations
    &&& post_t.deallocations == pre_t.deallocations
    &&& if pre.pos() < pre.elems().len() {
        &&& post.pos() == pre.pos() + 1
        &&& post.visited@ == pre.visited@.push(pre.elems()[pre.pos() as int])
        &&& r == Poll::Pending(point_for(pre.kind, now_nanos))
        &&& post.state == ComputationState::Suspended(point_for(pre.kind, now_nanos))
        &&& post_t.suspension_points == pre_t.suspension_points + 1
    } else {
        &&& post.pos() == pre.pos()
        &&& post.visited@ == pre.visited@
        &&& r == Poll::Ready
        &&& post.state == ComputationState::Completed
        &&& post_t.suspension_points == pre_t.suspension_points
    }
}

/// Poll steps move strictly forward: the position never decreases, the
/// result is `Ready` exactly when the step completed the computation, and a
/// completed computation has consumed its whole sequence — so no transition
/// leaves `Completed`, which no poll accepts as a starting state.
pub proof fn lemma_poll_strictly_forward(
    pre: IterComputation,
    post: IterComputation,
    pre_t: Trace,
    post_t: Trace,
    now_nanos: u128,
    r: Poll,
)
    requires
        pre.wf(),
        !pre.is_completed(),
        poll_transition(pre, post, pre_t, post_t, now_nanos, r),
    ensures
        pre.pos() <= post.pos(),
        post.is_completed() <==> r == Poll::Ready,
        post.is_completed() ==> post.pos() == post.elems().len(),
{
}

/// A suspendable computation under either allocation strategy: the same
/// state machine, stack-resident or behind one owned heap indirection.
pub enum Computation {
    Stack(IterComputation),
    Heap(Box<IterComputation>),
}

impl Computation {
    /// The underlying state machine, wherever it lives.
    pub open spec fn inner(&self) -> IterComputation {
        match self {
            Computation::Stack(c) => *c,
            Computation::Heap(b) => **b,
        }
    }

    pub open spec fn strategy(&self) -> AllocStrategy {
        match self {
            Computation::Stack(_) => AllocStrategy::Stack,
            Computation::Heap(_) => AllocStrategy::Heap,
        }
    }

    /// Builds a fresh computation over `cursor` under the chosen strategy.
    /// The heap strategy performs exactly one allocation, recorded in the
    /// trace; the stack strategy performs none.
    pub fn construct(
        cursor: SequenceCursor,
        kind: SuspensionKind,
        strategy: AllocStrategy,
        trace: &mut Trace,
    ) -> (c: Computation)
        requires
            cursor.wf(),
            cursor.pos() == 0,
            old(trace).computations_constructed < u64::MAX,
            old(trace).allocations < u64::MAX,
        ensures
            c.strategy() == strategy,
            c.inner().wf(),
            c.inner().elems() == cursor.elems(),
            c.inner().pos() == 0,
            c.inner().kind == kind,
            c.inner().state == ComputationState::NotStarted,
            final(trace).allocations == old(trace).allocations
                + (if strategy is Heap { 1int } else { 0int }),
            final(trace).computations_constructed == old(trace).computations_constructed + 1,
            final(trace).cursors_constructed == old(trace).cursors_constructed,
            final(trace).has_more_checks == old(trace).has_more_checks,
            final(trace).polls == old(trace).polls,
            final(trace).suspension_points == old(trace).suspension_points,
            final(trace).deallocations == old(trace).deallocations,
    {
        let inner = IterComputation::new(cursor, kind, trace);
        match strategy {
            AllocStrategy::Stack => Computation::Stack(inner),
            AllocStrategy::Heap => {
                trace.allocations = trace.allocations + 1;
                Computation::Heap(Box::new(inner))
            },
        }
    }

    /// Delegates one poll step to the underlying state machine.
    pub fn poll(&mut self, now_nanos: u128, trace: &mut Trace) -> (r: Poll)
        requires
            old(self).inner().wf(),
            !old(self).inner().is_completed(),
            old(trace).polls < u64::MAX,
            old(trace).has_more_checks < u64::MAX,
            old(self).inner().pos() < old(self).inner().elems().len() ==> old(
                trace,
            ).suspension_points < u64::MAX,
        ensures
            final(self).strategy() == old(self).strategy(),
            poll_transition(
                old(self).inner(),
                final(self).inner(),
                *old(trace),
                *final(trace),
                now_nanos,
                r,
            ),
    {
        match self {
            Computation::Stack(c) => c.poll(now_nanos, trace),
            Computation::Heap(b) => b.poll(now_nanos, trace),
        }
    }

    /// Discards the representation and hands back the state machine. For the
    /// heap strategy this releases the one indirection the construction
    /// allocated, recorded in the trace as exactly one deallocation.
    pub fn into_inner(self, trace: &mut Trace) -> (c: IterComputation)
        requires
            self.strategy() is Heap ==> old(trace).deallocations < u64::MAX,
        ensures
            c == self.inner(),
            final(trace).deallocations == old(trace).deallocations
                + (if self.strategy() is Heap { 1int } else { 0int }),
            final(trace).cursors_constructed == old(trace).cursors_constructed,
            final(trace).has_more_checks == old(trace).has_more_checks,
            final(trace).computations_constructed == old(trace).computations_constructed,
            final(trace).polls == old(trace).polls,
            final(trace).suspension_points == old(trace).suspension_points,
            final(trace).allocations == old(trace).allocations,
    {
        match self {
            Computation::Stack(c) => c,
            Computation::Heap(b) => {
                trace.deallocations = trace.deallocations + 1;
                *b
            },
        }
    }
}

} // verus!
