use suspend_bench::computation::AllocStrategy;
use suspend_bench::harness::{
    aggregate, make_sequence, run_matrix, run_once, run_scenario, scenario_matrix, Aggregate,
    Sample, ScenarioConfig,
};
use suspend_bench::suspension::SuspensionKind;

fn clock() -> std::time::Instant {
    std::time::Instant::now()
}

fn sample(duration_nanos: u128) -> Sample {
    Sample {
        scenario: ScenarioConfig {
            guard: false,
            allocation: AllocStrategy::Stack,
            suspension: SuspensionKind::Yield,
            sequence_length: 0,
        },
        duration_nanos,
    }
}

#[test]
fn aggregate_of_no_samples_is_zero() {
    let a: Aggregate = aggregate(&Vec::new());
    assert_eq!(a.sample_count, 0);
    assert_eq!(a.mean_nanos, 0);
    assert_eq!(a.spread_nanos, 0);
}

#[test]
fn aggregate_mean_and_spread_are_exact() {
    let samples = vec![sample(10), sample(30), sample(20)];
    let a = aggregate(&samples);
    assert_eq!(a.sample_count, 3);
    assert_eq!(a.mean_nanos, 20);
    assert_eq!(a.spread_nanos, 20);

    let one = aggregate(&vec![sample(42)]);
    assert_eq!(one.sample_count, 1);
    assert_eq!(one.mean_nanos, 42);
    assert_eq!(one.spread_nanos, 0);
}

#[test]
fn make_sequence_has_the_requested_length() {
    assert!(make_sequence(0).is_empty());
    let s = make_sequence(5);
    assert_eq!(s.len(), 5);
    assert!(s.iter().all(|x| *x == 0));
}

#[test]
fn matrix_covers_the_full_cross_product() {
    let suspensions = vec![SuspensionKind::Yield, SuspensionKind::Timer { duration_nanos: 1_000 }];
    let lengths = vec![0usize, 1];
    let m = scenario_matrix(&suspensions, &lengths);
    assert_eq!(m.len(), 16);

    // Lengths vary fastest, then suspension kinds, then allocation, then guard.
    assert_eq!(
        m[0],
        ScenarioConfig {
            guard: false,
            allocation: AllocStrategy::Stack,
            suspension: SuspensionKind::Yield,
            sequence_length: 0,
        }
    );
    assert_eq!(
        m[1],
        ScenarioConfig {
            guard: false,
            allocation: AllocStrategy::Stack,
            suspension: SuspensionKind::Yield,
            sequence_length: 1,
        }
    );
    assert_eq!(
        m[3],
        ScenarioConfig {
            guard: false,
            allocation: AllocStrategy::Stack,
            suspension: SuspensionKind::Timer { duration_nanos: 1_000 },
            sequence_length: 1,
        }
    );
    assert_eq!(
        m[15],
        ScenarioConfig {
            guard: true,
            allocation: AllocStrategy::Heap,
            suspension: SuspensionKind::Timer { duration_nanos: 1_000 },
            sequence_length: 1,
        }
    );

    // Every combination appears exactly once.
    for guard in [false, true] {
        for allocation in [AllocStrategy::Stack, AllocStrategy::Heap] {
            for suspension in &suspensions {
                for sequence_length in &lengths {
                    let wanted = ScenarioConfig {
                        guard,
                        allocation,
                        suspension: *suspension,
                        sequence_length: *sequence_length,
                    };
                    assert_eq!(m.iter().filter(|c| **c == wanted).count(), 1);
                }
            }
        }
    }
}

#[test]
fn run_once_respects_the_guard_setting() {
    let data = vec![1, 2];
    let c = clock();
    let mut config = ScenarioConfig {
        guard: true,
        allocation: AllocStrategy::Stack,
        suspension: SuspensionKind::Yield,
        sequence_length: 2,
    };
    let guarded = run_once(&data, config, &c);
    config.guard = false;
    let unguarded = run_once(&data, config, &c);
    assert_eq!(guarded.visited, unguarded.visited);
    assert_eq!(guarded.trace, unguarded.trace);

    let empty: Vec<i32> = vec![];
    config.sequence_length = 0;
    config.guard = true;
    let short_circuited = run_once(&empty, config, &c);
    assert_eq!(short_circuited.trace.polls, 0);
}

#[test]
fn run_scenario_yields_one_sample_per_timed_iteration() {
    let config = ScenarioConfig {
        guard: false,
        allocation: AllocStrategy::Heap,
        suspension: SuspensionKind::Yield,
        sequence_length: 3,
    };
    let r = run_scenario(config, 2, 5, &clock());
    assert_eq!(r.config, config);
    assert_eq!(r.samples.len(), 5);
    assert!(r.samples.iter().all(|s| s.scenario == config));
    assert_eq!(r.aggregate.sample_count, 5);
}

#[test]
fn run_matrix_reports_one_result_per_scenario_in_order() {
    let suspensions = vec![SuspensionKind::Yield];
    let lengths = vec![0usize, 2];
    let configs = scenario_matrix(&suspensions, &lengths);
    let results = run_matrix(&configs, 1, 3, &clock());
    assert_eq!(results.len(), configs.len());
    for (result, config) in results.iter().zip(configs.iter()) {
        assert_eq!(result.config, *config);
        assert_eq!(result.samples.len(), 3);
        assert_eq!(result.aggregate.sample_count, 3);
    }
}
