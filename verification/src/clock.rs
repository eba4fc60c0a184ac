use vstd::prelude::*;

verus! {

/// The monotonic clock of `std::time`, declared so that its values can pass
/// through verified code. An `Instant` is opaque here: nothing is assumed
/// about what a reading holds, only what the executor itself checks of the
/// numbers it reads back.
#[verifier::external_type_specification]
#[verifier::external_body]
pub struct ExInstant(std::time::Instant);

/// Relies on `std::time::Instant::elapsed`: the time since `start`, opaque
/// here. Nothing is promised of the value: the clock is external, and every
/// caller states what holds of whatever comes back.
pub assume_specification[ std::time::Instant::elapsed ](
    start: &std::time::Instant,
) -> std::time::Duration;

/// Relies on `std::time::Duration::as_nanos`: the duration in whole
/// nanoseconds. Nothing is promised of the value.
pub assume_specification[ std::time::Duration::as_nanos ](d: &std::time::Duration) -> u128;

/// The nanoseconds the monotonic clock has advanced since `clock` was taken.
/// The value is external input: callers state what holds of every outcome.
pub(crate) fn clock_reading(clock: &std::time::Instant) -> u128 {
    clock.elapsed().as_nanos()
}

/// The blocking wait of the clock/timer service: parks the caller until the
/// monotonic clock reads at least `deadline_nanos` and returns the reading
/// observed at resumption.
///
/// Relies on `std::time::Instant::elapsed` and `std::time::Duration::as_nanos`,
/// re-read until the deadline has passed: the returned reading is the one that
/// ended the wait, so it is never below the deadline. That the wait ends at
/// all is the one liveness assumption taken of the clock service — that the
/// monotonic clock eventually reaches any deadline — which no contract inside
/// this crate can discharge, so the wait stands behind this trusted item.
#[verifier::external_body]
pub(crate) fn sleep_until(clock: &std::time::Instant, deadline_nanos: u128) -> (r: u128)
    ensures
        r >= deadline_nanos,
{
    let mut now = clock.elapsed().as_nanos();
    while now < deadline_nanos {
        now = clock.elapsed().as_nanos();
    }
    now
}

} // verus!
