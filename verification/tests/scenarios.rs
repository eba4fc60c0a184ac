use suspend_bench::computation::AllocStrategy;
use suspend_bench::harness::{run_scenario, ScenarioConfig};
use suspend_bench::runs::{no_check, with_check};
use suspend_bench::suspension::SuspensionKind;

fn clock() -> std::time::Instant {
    std::time::Instant::now()
}

#[test]
fn guarded_stack_yield_empty() {
    let data: Vec<i32> = vec![];
    let out = with_check(&data, AllocStrategy::Stack, SuspensionKind::Yield, &clock());
    assert!(out.completed);
    assert!(out.visited.is_empty());
    assert_eq!(out.trace.cursors_constructed, 0);
    assert_eq!(out.trace.has_more_checks, 0);
    assert_eq!(out.trace.computations_constructed, 0);
    assert_eq!(out.trace.polls, 0);
    assert_eq!(out.trace.suspension_points, 0);
    assert_eq!(out.trace.allocations, 0);
    assert_eq!(out.trace.deallocations, 0);
}

#[test]
fn unguarded_stack_yield_empty() {
    let data: Vec<i32> = vec![];
    let out = no_check(&data, AllocStrategy::Stack, SuspensionKind::Yield, &clock());
    assert!(out.completed);
    assert!(out.visited.is_empty());
    assert_eq!(out.trace.cursors_constructed, 1);
    assert_eq!(out.trace.has_more_checks, 1);
    assert_eq!(out.trace.computations_constructed, 1);
    assert_eq!(out.trace.polls, 1);
    assert_eq!(out.trace.suspension_points, 0);
    assert_eq!(out.trace.allocations, 0);
    assert_eq!(out.trace.deallocations, 0);
}

#[test]
fn heap_yield_one_element_either_guard() {
    let data = vec![7];
    let c = clock();
    let guarded = with_check(&data, AllocStrategy::Heap, SuspensionKind::Yield, &c);
    let unguarded = no_check(&data, AllocStrategy::Heap, SuspensionKind::Yield, &c);
    for out in [guarded, unguarded] {
        assert!(out.completed);
        assert_eq!(out.visited, vec![7]);
        assert_eq!(out.trace.allocations, 1);
        assert_eq!(out.trace.deallocations, 1);
        assert_eq!(out.trace.suspension_points, 1);
    }
}

#[test]
fn unguarded_heap_yield_empty() {
    let data: Vec<i32> = vec![];
    let out = no_check(&data, AllocStrategy::Heap, SuspensionKind::Yield, &clock());
    assert!(out.completed);
    assert_eq!(out.trace.allocations, 1);
    assert_eq!(out.trace.deallocations, 1);
    assert_eq!(out.trace.suspension_points, 0);
    assert_eq!(out.trace.polls, 1);
}

#[test]
fn stack_timer_one_millisecond_one_element() {
    let data = vec![1];
    let kind = SuspensionKind::Timer { duration_nanos: 1_000_000 };
    for guard in [true, false] {
        let started = std::time::Instant::now();
        let out = if guard {
            with_check(&data, AllocStrategy::Stack, kind, &clock())
        } else {
            no_check(&data, AllocStrategy::Stack, kind, &clock())
        };
        let elapsed = started.elapsed();
        assert!(out.completed);
        assert_eq!(out.visited, vec![1]);
        assert_eq!(out.trace.suspension_points, 1);
        assert!(elapsed.as_nanos() >= 1_000_000);
    }
}

#[test]
fn timed_scenario_measures_at_least_the_timer() {
    let config = ScenarioConfig {
        guard: false,
        allocation: AllocStrategy::Stack,
        suspension: SuspensionKind::Timer { duration_nanos: 1_000_000 },
        sequence_length: 1,
    };
    let result = run_scenario(config, 0, 1, &clock());
    assert_eq!(result.samples.len(), 1);
    assert!(result.samples[0].duration_nanos >= 1_000_000);
    assert!(result.aggregate.mean_nanos >= 1_000_000);
}
