//! # Time Module
//!
//! Readings of a monotonic clock as plain values. A reading counts the
//! nanoseconds since an origin that the caller picks once and keeps.

use vstd::prelude::*;

verus! {

/// Nanoseconds in one second.
pub const NANOS_PER_SEC: u128 = 1_000_000_000;

/// One reading of the monotonic clock.
#[derive(Clone, Copy, Debug, PartialEq, Eq, Structural)]
pub struct Timestamp {
    pub nanos: u128,
}

/// The nanoseconds from `earlier` to `later`, zero when `later` is not after
/// `earlier`.
pub open spec fn spec_elapsed(earlier: Timestamp, later: Timestamp) -> nat {
    if later.nanos >= earlier.nanos {
        (later.nanos - earlier.nanos) as nat
    } else {
        0
    }
}

impl Timestamp {
    pub fn from_nanos(nanos: u128) -> (t: Self)
        ensures
            t.nanos == nanos,
    {
        Timestamp { nanos }
    }

    pub fn from_millis(millis: u64) -> (t: Self)
        ensures
            t.nanos == millis * 1_000_000,
    {
        let wide: u128 = millis as u128;
        Timestamp { nanos: wide * 1_000_000 }
    }

    pub fn from_secs(secs: u64) -> (t: Self)
        ensures
            t.nanos == secs * NANOS_PER_SEC,
    {
        Timestamp { nanos: secs_to_nanos(secs) }
    }

    /// The time that passed from `earlier` to this reading. A clock that is
    /// monotonic never gives an earlier reading later; if it is handed one
    /// anyway, no time has passed.
    pub fn since(&self, earlier: Timestamp) -> (elapsed: u128)
        ensures
            elapsed == spec_elapsed(earlier, *self),
    {
        if self.nanos >= earlier.nanos {
            self.nanos - earlier.nanos
        } else {
            0
        }
    }
}

/// A whole number of seconds in nanoseconds.
pub fn secs_to_nanos(secs: u64) -> (nanos: u128)
    ensures
        nanos == secs * NANOS_PER_SEC,
{
    let wide: u128 = secs as u128;
    wide * NANOS_PER_SEC
}

/// A moment of the monotonic clock of the standard library. Nothing is
/// read from it but the time that has passed since.
#[verifier::external_type_specification]
#[verifier::external_body]
pub struct ExInstant(std::time::Instant);

/// `Instant::now` reads the monotonic clock. Nothing is known of the
/// reading.
pub assume_specification[ std::time::Instant::now ]() -> std::time::Instant;

/// `Instant::elapsed` gives the time that has passed since the instant
/// was taken. Nothing is known of the amount.
pub assume_specification[ std::time::Instant::elapsed ](
    instant: &std::time::Instant,
) -> core::time::Duration;

/// `Duration::as_nanos` gives a duration in nanoseconds. Nothing is known
/// of the number, since nothing is known of the duration.
pub assume_specification[ core::time::Duration::as_nanos ](duration: &core::time::Duration) -> u128;

/// A monotonic clock with an origin of its own: the moment it was started.
pub struct Stopwatch {
    origin: std::time::Instant,
}

impl Stopwatch {
    /// Starts a clock. Its readings count from now.
    pub fn start() -> Self {
        Stopwatch { origin: std::time::Instant::now() }
    }

    /// Reads the clock. The reading depends on when it is taken, so nothing
    /// is promised of it; whoever takes it has to be ready for any value.
    pub fn read(&self) -> Timestamp {
        let elapsed = self.origin.elapsed();
        Timestamp::from_nanos(elapsed.as_nanos())
    }
}

} // verus!
