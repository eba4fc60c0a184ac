use vstd::prelude::*;

use crate::clock::clock_reading;
use crate::computation::AllocStrategy;
use crate::runs::{guarded_trace, no_check, run_outcome_ok, unguarded_trace, with_check, RunOutcome};
use crate::suspension::SuspensionKind;

verus! {

/// One scenario of the benchmark matrix: guard on or off, allocation
/// strategy, suspension kind, and the length of the traversed sequence.
/// Immutable per scenario run.
#[derive(Clone, Copy, PartialEq, Eq, Structural, Debug)]
pub struct ScenarioConfig {
    pub guard: bool,
    pub allocation: AllocStrategy,
    pub suspension: SuspensionKind,
    pub sequence_length: usize,
}

/// One timed invocation of a scenario's measured path: the scenario it
/// belongs to and the elapsed duration in nanoseconds. Samples are kept in
/// measurement order.
#[derive(Clone, Copy, PartialEq, Eq, Structural, Debug)]
pub struct Sample {
    pub scenario: ScenarioConfig,
    pub duration_nanos: u128,
}

/// Per-scenario aggregate over its samples: the mean duration, the spread
/// (largest minus smallest sample) as the dispersion measure, and how many
/// samples went in.
#[derive(Clone, Copy, PartialEq, Eq, Structural, Debug)]
pub struct Aggregate {
    pub mean_nanos: u128,
    pub spread_nanos: u128,
    pub sample_count: usize,
}

/// A scenario's complete contribution to the report: its configuration, its
/// samples in measurement order, and their aggregate.
pub struct ScenarioResult {
    pub config: ScenarioConfig,
    pub samples: Vec<Sample>,
    pub aggregate: Aggregate,
}

/// `a + b` on sample durations, saturating at the top of the counter.
pub open spec fn sat_add_nanos(a: u128, b: u128) -> u128 {
    if a + b <= u128::MAX {
        (a + b) as u128
    } else {
        u128::MAX
    }
}

/// The (saturating) sum of the durations of `s`.
pub open spec fn total_nanos(s: Seq<Sample>) -> u128
    decreases s.len(),
{
    if s.len() == 0 {
        0
    } else {
        sat_add_nanos(total_nanos(s.drop_last()), s.last().duration_nanos)
    }
}

/// The largest duration in `s`, zero for an empty sequence.
pub open spec fn max_nanos(s: Seq<Sample>) -> u128
    decreases s.len(),
{
    if s.len() == 0 {
        0
    } else {
        let rest = max_nanos(s.drop_last());
        if s.last().duration_nanos > rest {
            s.last().duration_nanos
        } else {
            rest
        }
    }
}

/// The smallest duration in `s`, zero for an empty sequence.
pub open spec fn min_nanos(s: Seq<Sample>) -> u128
    decreases s.len(),
{
    if s.len() == 0 {
        0
    } else if s.len() == 1 {
        s.last().duration_nanos
    } else {
        let rest = min_nanos(s.drop_last());
        if s.last().duration_nanos < rest {
            s.last().duration_nanos
        } else {
            rest
        }
    }
}

/// What an aggregate says of the samples it was computed over: the exact
/// count, the mean as the (saturating) total divided by the count, and the
/// spread as largest minus smallest.
pub open spec fn aggregate_ok(s: Seq<Sample>, a: Aggregate) -> bool {
    &&& a.sample_count == s.len()
    &&& if s.len() == 0 {
        a.mean_nanos == 0 && a.spread_nanos == 0
    } else {
        &&& a.mean_nanos == total_nanos(s) / (s.len() as u128)
        &&& a.spread_nanos == max_nanos(s) - min_nanos(s)
    }
}

/// Computes [`sat_add_nanos`] on machine integers.
fn compute_sat_add_nanos(a: u128, b: u128) -> (r: u128)
    ensures
        r == sat_add_nanos(a, b),
{
    if a <= u128::MAX - b {
        a + b
    } else {
        u128::MAX
    }
}

/// Aggregates a scenario's samples: mean and spread of the durations.
pub fn aggregate(samples: &Vec<Sample>) -> (a: Aggregate)
    ensures
        aggregate_ok(samples@, a),
{
    if samples.len() == 0 {
        return Aggregate { mean_nanos: 0, spread_nanos: 0, sample_count: 0 };
    }
    let first = samples[0].duration_nanos;
    let mut total: u128 = first;
    let mut mx: u128 = first;
    let mut mn: u128 = first;
    let mut i: usize = 1;
    proof {
        let s1 = samples@.take(1);
        assert(s1.len() == 1);
        assert(s1.last() == samples@[0]);
        assert(s1.drop_last() =~= Seq::<Sample>::empty());
        assert(total_nanos(Seq::<Sample>::empty()) == 0);
        assert(max_nanos(Seq::<Sample>::empty()) == 0);
        assert(total_nanos(s1) == sat_add_nanos(0, first));
        assert(max_nanos(s1) == first);
        assert(min_nanos(s1) == first);
    }
    while i < samples.len()
        invariant
            1 <= i <= samples@.len(),
            total == total_nanos(samples@.take(i as int)),
            mx == max_nanos(samples@.take(i as int)),
            mn == min_nanos(samples@.take(i as int)),
            mn <= mx,
        decreases samples@.len() - i,
    {
        let d = samples[i].duration_nanos;
        proof {
            assert(samples@.take(i + 1).drop_last() =~= samples@.take(i as int));
            assert(samples@.take(i + 1).last() == samples@[i as int]);
        }
        total = compute_sat_add_nanos(total, d);
        if d > mx {
            mx = d;
        }
        if d < mn {
            mn = d;
        }
        i = i + 1;
    }
    proof {
        assert(samples@.take(samples@.len() as int) =~= samples@);
    }
    Aggregate {
        mean_nanos: total / (samples.len() as u128),
        spread_nanos: mx - mn,
        sample_count: samples.len(),
    }
}

/// Builds the input sequence for a scenario: `len` elements, all zero — the
/// traversal's cost does not depend on the element values.
pub fn make_sequence(len: usize) -> (r: Vec<i32>)
    ensures
        r@.len() == len,
        forall|k: int| 0 <= k < len ==> r@[k] == 0i32,
{
    let mut r: Vec<i32> = Vec::new();
    let mut i: usize = 0;
    while i < len
        invariant
            i <= len,
            r@.len() == i,
            forall|k: int| 0 <= k < i ==> r@[k] == 0i32,
        decreases len - i,
    {
        r.push(0);
        i = i + 1;
    }
    r
}

/// One invocation of the measured path: apply the guard if the scenario asks
/// for it, then construct and drive the computation to completion.
pub fn run_once(data: &Vec<i32>, config: ScenarioConfig, clock: &std::time::Instant) -> (out:
    RunOutcome)
    requires
        data@.len() < u64::MAX - 1,
    ensures
        run_outcome_ok(out, data@, config.suspension),
        config.guard ==> out.trace == guarded_trace(data@.len(), config.allocation),
        !config.guard ==> out.trace == unguarded_trace(data@.len(), config.allocation),
{
    if config.guard {
        with_check(data, config.allocation, config.suspension, clock)
    } else {
        no_check(data, config.allocation, config.suspension, clock)
    }
}

/// Runs one scenario: `warmup` untimed invocations, then `timed` timed ones,
/// each recorded as a sample in measurement order. The input sequence is
/// constructed once, outside the timed region.
pub fn run_scenario(
    config: ScenarioConfig,
    warmup: usize,
    timed: usize,
    clock: &std::time::Instant,
) -> (r: ScenarioResult)
    requires
        config.sequence_length < u64::MAX - 1,
    ensures
        r.config == config,
        r.samples@.len() == timed,
        forall|k: int| 0 <= k < timed ==> (#[trigger] r.samples@[k]).scenario == config,
        aggregate_ok(r.samples@, r.aggregate),
{
    let data = make_sequence(config.sequence_length);
    let mut i: usize = 0;
    while i < warmup
        invariant
            data@.len() < u64::MAX - 1,
        decreases warmup - i,
    {
        run_once(&data, config, clock);
        i = i + 1;
    }
    let mut samples: Vec<Sample> = Vec::new();
    let mut j: usize = 0;
    while j < timed
        invariant
            data@.len() < u64::MAX - 1,
            j <= timed,
            samples@.len() == j,
            forall|k: int| 0 <= k < j ==> (#[trigger] samples@[k]).scenario == config,
        decreases timed - j,
    {
        let t0 = clock_reading(clock);
        run_once(&data, config, clock);
        let t1 = clock_reading(clock);
        let duration_nanos = if t1 >= t0 {
            t1 - t0
        } else {
            0
        };
        samples.push(Sample { scenario: config, duration_nanos });
        j = j + 1;
    }
    let agg = aggregate(&samples);
    ScenarioResult { config, samples, aggregate: agg }
}

/// The scenario at flat index `i` of the cross-product over both guard
/// settings, both allocation strategies, the given suspension kinds and the
/// given sequence lengths: `i` is read as nested digits, lengths varying
/// fastest, then suspension kinds, then allocation, then guard.
pub open spec fn scenario_at(
    suspensions: Seq<SuspensionKind>,
    lengths: Seq<usize>,
    i: int,
) -> ScenarioConfig {
    let rem_l = i % lengths.len() as int;
    let q1 = i / lengths.len() as int;
    let rem_s = q1 % suspensions.len() as int;
    let q2 = q1 / suspensions.len() as int;
    let rem_a = q2 % 2;
    let q3 = q2 / 2;
    let rem_g = q3 % 2;
    ScenarioConfig {
        guard: rem_g == 1,
        allocation: if rem_a == 1 {
            AllocStrategy::Heap
        } else {
            AllocStrategy::Stack
        },
        suspension: suspensions[rem_s],
        sequence_length: lengths[rem_l],
    }
}

/// Enumerates the full scenario cross-product: both guard settings, both
/// allocation strategies, every given suspension kind and every given
/// sequence length, in the flat order of [`scenario_at`].
pub fn scenario_matrix(suspensions: &Vec<SuspensionKind>, lengths: &Vec<usize>) -> (m: Vec<
    ScenarioConfig,
>)
    requires
        1 <= suspensions@.len(),
        1 <= lengths@.len(),
        4 * suspensions@.len() * lengths@.len() <= usize::MAX,
    ensures
        m@.len() == 4 * suspensions@.len() * lengths@.len(),
        forall|i: int| 0 <= i < m@.len() ==> m@[i] == scenario_at(suspensions@, lengths@, i),
{
    let s_n = suspensions.len();
    let l_n = lengths.len();
    proof {
        assert(4 * (s_n as int) * 1 <= 4 * (s_n as int) * (l_n as int)) by (nonlinear_arith)
            requires
                1 <= l_n as int,
                0 <= s_n as int,
        ;
    }
    let total = 4 * s_n * l_n;
    let mut m: Vec<ScenarioConfig> = Vec::new();
    let mut i: usize = 0;
    while i < total
        invariant
            s_n == suspensions@.len(),
            l_n == lengths@.len(),
            1 <= s_n,
            1 <= l_n,
            i <= total,
            m@.len() == i,
            forall|k: int| 0 <= k < i ==> m@[k] == scenario_at(suspensions@, lengths@, k),
        decreases total - i,
    {
        let rem_l = i % l_n;
        let q1 = i / l_n;
        let rem_s = q1 % s_n;
        let q2 = q1 / s_n;
        let rem_a = q2 % 2;
        let q3 = q2 / 2;
        let rem_g = q3 % 2;
        let config = ScenarioConfig {
            guard: rem_g == 1,
            allocation: if rem_a == 1 {
                AllocStrategy::Heap
            } else {
                AllocStrategy::Stack
            },
            suspension: suspensions[rem_s],
            sequence_length: lengths[rem_l],
        };
        m.push(config);
        i = i + 1;
    }
    m
}

/// Runs every scenario of `configs` strictly in order, each on its own pass
/// over the measured path, and returns one result per scenario.
pub fn run_matrix(
    configs: &Vec<ScenarioConfig>,
    warmup: usize,
    timed: usize,
    clock: &std::time::Instant,
) -> (results: Vec<ScenarioResult>)
    requires
        forall|k: int| 0 <= k < configs@.len() ==> (#[trigger] configs@[k]).sequence_length
            < u64::MAX - 1,
    ensures
        results@.len() == configs@.len(),
        forall|k: int| 0 <= k < configs@.len() ==> {
            &&& (#[trigger] results@[k]).config == configs@[k]
            &&& results@[k].samples@.len() == timed
            &&& aggregate_ok(results@[k].samples@, results@[k].aggregate)
        },
{
    let mut results: Vec<ScenarioResult> = Vec::new();
    let mut i: usize = 0;
    while i < configs.len()
        invariant
            i <= configs@.len(),
            results@.len() == i,
            forall|k: int| 0 <= k < configs@.len() ==> (#[trigger] configs@[k]).sequence_length
                < u64::MAX - 1,
            forall|k: int| 0 <= k < i ==> {
                &&& (#[trigger] results@[k]).config == configs@[k]
                &&& results@[k].samples@.len() == timed
                &&& aggregate_ok(results@[k].samples@, results@[k].aggregate)
            },
        decreases configs@.len() - i,
    {
        let config = configs[i];
        let r = run_scenario(config, warmup, timed, clock);
        results.push(r);
        i = i + 1;
    }
    results
}

} // verus!
