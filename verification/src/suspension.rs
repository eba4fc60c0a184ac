use vstd::prelude::*;

verus! {

/// How a computation suspends after each element it visits: a cooperative
/// yield, or a timer sleep for a fixed duration in nanoseconds.
#[derive(Clone, Copy, PartialEq, Eq, Structural, Debug)]
pub enum SuspensionKind {
    Yield,
    Timer { duration_nanos: u64 },
}

/// The reason a suspended computation cannot currently make progress: it
/// yielded cooperatively, or it waits for the monotonic clock to reach a
/// deadline (nanoseconds since the executor's clock was started).
#[derive(Clone, Copy, PartialEq, Eq, Structural, Debug)]
pub enum SuspensionPoint {
    Yield,
    Timer { deadline_nanos: u128 },
}

/// The deadline for a timer suspension requested at clock reading `now`:
/// `now + duration`, saturating at the clock type's maximum.
pub open spec fn timer_deadline(now: u128, duration_nanos: u64) -> u128 {
    if now + duration_nanos <= u128::MAX {
        (now + duration_nanos) as u128
    } else {
        u128::MAX
    }
}

/// The suspension point emitted for `kind` at clock reading `now`.
pub open spec fn point_for(kind: SuspensionKind, now: u128) -> SuspensionPoint {
    match kind {
        SuspensionKind::Yield => SuspensionPoint::Yield,
        SuspensionKind::Timer { duration_nanos } => SuspensionPoint::Timer {
            deadline_nanos: timer_deadline(now, duration_nanos),
        },
    }
}

/// Computes [`timer_deadline`] on machine integers.
pub fn compute_deadline(now: u128, duration_nanos: u64) -> (d: u128)
    ensures
        d == timer_deadline(now, duration_nanos),
{
    if now <= u128::MAX - (duration_nanos as u128) {
        now + (duration_nanos as u128)
    } else {
        u128::MAX
    }
}

/// One timer wait as the executor performed it: the clock reading when the
/// computation suspended, the deadline it asked for, and the reading observed
/// when it was resumed.
#[derive(Clone, Copy, PartialEq, Eq, Structural, Debug)]
pub struct TimerRecord {
    pub suspended_at: u128,
    pub deadline_nanos: u128,
    pub resumed_at: u128,
}

impl TimerRecord {
    /// A faithful wait for a sleep of `duration_nanos`: the deadline is the
    /// suspension-time reading plus the duration, and the computation was not
    /// resumed before the deadline.
    pub open spec fn wf(&self, duration_nanos: u64) -> bool {
        &&& self.deadline_nanos == timer_deadline(self.suspended_at, duration_nanos)
        &&& self.resumed_at >= self.deadline_nanos
    }
}

} // verus!
