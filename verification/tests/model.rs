use suspend_bench::computation::{
    AllocStrategy, Computation, ComputationState, IterComputation, Poll,
};
use suspend_bench::cursor::SequenceCursor;
use suspend_bench::runs::{no_check, with_check};
use suspend_bench::suspension::{SuspensionKind, SuspensionPoint};
use suspend_bench::trace::Trace;

fn clock() -> std::time::Instant {
    std::time::Instant::now()
}

#[test]
fn cursor_reports_and_advances_in_order() {
    let mut trace = Trace::new();
    let mut cursor = SequenceCursor::new(vec![10, 20, 30], &mut trace);
    assert_eq!(trace.cursors_constructed, 1);
    assert!(cursor.has_more(&mut trace));
    assert_eq!(cursor.advance(), 10);
    assert!(cursor.has_more(&mut trace));
    assert_eq!(cursor.advance(), 20);
    assert!(cursor.has_more(&mut trace));
    assert_eq!(cursor.advance(), 30);
    assert!(!cursor.has_more(&mut trace));
    assert!(!cursor.has_more(&mut trace));
    assert_eq!(trace.has_more_checks, 5);
}

#[test]
fn poll_emits_one_suspension_per_element_then_ready() {
    let mut trace = Trace::new();
    let cursor = SequenceCursor::new(vec![1, 2], &mut trace);
    let mut comp = IterComputation::new(cursor, SuspensionKind::Yield, &mut trace);
    assert_eq!(comp.state, ComputationState::NotStarted);
    assert!(!comp.is_complete());

    let first = comp.poll(0, &mut trace);
    assert_eq!(first, Poll::Pending(SuspensionPoint::Yield));
    assert_eq!(comp.state, ComputationState::Suspended(SuspensionPoint::Yield));

    let second = comp.poll(0, &mut trace);
    assert_eq!(second, Poll::Pending(SuspensionPoint::Yield));

    let third = comp.poll(0, &mut trace);
    assert_eq!(third, Poll::Ready);
    assert_eq!(comp.state, ComputationState::Completed);
    assert!(comp.is_complete());

    assert_eq!(comp.visited, vec![1, 2]);
    assert_eq!(trace.computations_constructed, 1);
    assert_eq!(trace.polls, 3);
    assert_eq!(trace.suspension_points, 2);
}

#[test]
fn timer_poll_places_the_deadline_after_the_reading() {
    let mut trace = Trace::new();
    let cursor = SequenceCursor::new(vec![5], &mut trace);
    let mut comp =
        IterComputation::new(cursor, SuspensionKind::Timer { duration_nanos: 250 }, &mut trace);
    let r = comp.poll(1_000, &mut trace);
    assert_eq!(r, Poll::Pending(SuspensionPoint::Timer { deadline_nanos: 1_250 }));
}

#[test]
fn construction_performs_no_poll_and_no_suspension() {
    let mut trace = Trace::new();
    let cursor = SequenceCursor::new(vec![1, 2, 3], &mut trace);
    let comp = Computation::construct(cursor, SuspensionKind::Yield, AllocStrategy::Heap, &mut trace);
    assert_eq!(trace.polls, 0);
    assert_eq!(trace.suspension_points, 0);
    assert_eq!(trace.allocations, 1);
    assert_eq!(trace.deallocations, 0);
    let inner = comp.into_inner(&mut trace);
    assert_eq!(inner.state, ComputationState::NotStarted);
    assert_eq!(trace.deallocations, 1);
}

#[test]
fn guarded_and_unguarded_visit_the_same_elements() {
    let c = clock();
    for len in 0..6 {
        let data: Vec<i32> = (0..len).map(|x| x * 11).collect();
        for strategy in [AllocStrategy::Stack, AllocStrategy::Heap] {
            let guarded = with_check(&data, strategy, SuspensionKind::Yield, &c);
            let unguarded = no_check(&data, strategy, SuspensionKind::Yield, &c);
            assert_eq!(guarded.visited, data);
            assert_eq!(unguarded.visited, data);
            assert_eq!(guarded.completed, unguarded.completed);
        }
    }
}

#[test]
fn suspension_count_equals_length_independent_of_guard() {
    let c = clock();
    for len in 1..6 {
        let data: Vec<i32> = vec![0; len];
        let guarded = with_check(&data, AllocStrategy::Stack, SuspensionKind::Yield, &c);
        let unguarded = no_check(&data, AllocStrategy::Stack, SuspensionKind::Yield, &c);
        assert_eq!(guarded.trace.suspension_points as usize, len);
        assert_eq!(unguarded.trace.suspension_points as usize, len);
    }
}

#[test]
fn heap_allocation_counts_per_construction() {
    let c = clock();
    for len in [0usize, 1, 4] {
        let data: Vec<i32> = vec![0; len];
        let unguarded = no_check(&data, AllocStrategy::Heap, SuspensionKind::Yield, &c);
        assert_eq!(unguarded.trace.allocations, 1);
        assert_eq!(unguarded.trace.deallocations, 1);
        let guarded = with_check(&data, AllocStrategy::Heap, SuspensionKind::Yield, &c);
        let expected = if len == 0 { 0 } else { 1 };
        assert_eq!(guarded.trace.allocations, expected);
        assert_eq!(guarded.trace.deallocations, expected);
    }
    let stack = no_check(&vec![1, 2], AllocStrategy::Stack, SuspensionKind::Yield, &c);
    assert_eq!(stack.trace.allocations, 0);
    assert_eq!(stack.trace.deallocations, 0);
}

#[test]
fn timer_records_respect_the_lower_bound() {
    let c = clock();
    for duration_nanos in [0u64, 1_000, 1_000_000] {
        let data = vec![1, 2];
        let kind = SuspensionKind::Timer { duration_nanos };
        let out = no_check(&data, AllocStrategy::Stack, kind, &c);
        assert_eq!(out.timer_records.len(), 2);
        for record in &out.timer_records {
            assert_eq!(
                record.deadline_nanos,
                record.suspended_at + duration_nanos as u128
            );
            assert!(record.resumed_at >= record.deadline_nanos);
        }
    }
}

#[test]
fn yield_runs_make_no_timer_records() {
    let out = no_check(&vec![1, 2, 3], AllocStrategy::Stack, SuspensionKind::Yield, &clock());
    assert!(out.timer_records.is_empty());
}
