//! Monotonic millisecond clock used by the controller coordinator.

use std::time::{Duration, Instant};
use vstd::prelude::*;

verus! {

#[verifier::external_type_specification]
#[verifier::external_body]
pub struct ExInstant(Instant);

/// Reads the monotonic clock with `Instant::now`.
/// Trusted: nothing is claimed of the reading.
#[verifier::external_body]
fn instant_now() -> (now: Instant) {
    Instant::now()
}

/// Time passed since `origin`, from `Instant::elapsed`.
/// Trusted: nothing is claimed of the reading.
#[verifier::external_body]
fn instant_elapsed(origin: &Instant) -> (elapsed: Duration) {
    origin.elapsed()
}

/// Whole milliseconds in `duration`, from `Duration::as_millis`.
/// Trusted: nothing is claimed of the result, as `Duration` is opaque here.
#[verifier::external_body]
fn duration_millis(duration: &Duration) -> (millis: u128) {
    duration.as_millis()
}

/// A millisecond clock: monotonic time since the clock started, or a fixed
/// reading.
pub enum ControllerSessionClock {
    Monotonic { origin: Instant },
    Fixed { now_ms: u64 },
}

/// Whether `now` is a reading `clock` may give: the fixed reading of a fixed
/// clock, any reading of a monotonic one.
pub open spec fn clock_reads(clock: ControllerSessionClock, now: u64) -> bool {
    match clock {
        ControllerSessionClock::Fixed { now_ms } => now == now_ms,
        ControllerSessionClock::Monotonic { .. } => true,
    }
}

impl ControllerSessionClock {
    /// A monotonic clock that starts now.
    pub fn new() -> (clock: ControllerSessionClock)
        ensures
            clock is Monotonic,
    {
        ControllerSessionClock::Monotonic { origin: instant_now() }
    }

    /// A clock that always reads `now_ms`.
    pub fn fixed(now_ms: u64) -> (clock: ControllerSessionClock)
        ensures
            clock == (ControllerSessionClock::Fixed { now_ms }),
    {
        ControllerSessionClock::Fixed { now_ms }
    }

    /// The current reading in milliseconds; a monotonic clock saturates at
    /// `u64::MAX`.
    pub fn now(&self) -> (now: u64)
        ensures
            clock_reads(*self, now),
    {
        match self {
            ControllerSessionClock::Monotonic { origin } => {
                let millis = duration_millis(&instant_elapsed(origin));
                if millis > u64::MAX as u128 {
                    u64::MAX
                } else {
                    millis as u64
                }
            },
            ControllerSessionClock::Fixed { now_ms } => *now_ms,
        }
    }
}

} // verus!
