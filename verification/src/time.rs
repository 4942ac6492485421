//! Lengths of time as plain numbers, and the node's reading of the clock.

use std::time::{Duration, Instant};
use vstd::prelude::*;

verus! {

/// Nanoseconds in one second.
pub const NANOS_PER_SEC: u128 = 1_000_000_000;

/// A length of time, counted in nanoseconds.
///
/// The count is the whole value: two spans are equal exactly when their
/// counts are, and one is longer than the other when its count is greater.
#[derive(Clone, Copy, Debug, PartialEq, Eq, Structural, Hash)]
pub struct TimeSpan {
    pub nanos: u128,
}

impl TimeSpan {
    /// The span of `secs` whole seconds.
    pub open spec fn of_secs(secs: u64) -> TimeSpan {
        TimeSpan { nanos: (secs * NANOS_PER_SEC) as u128 }
    }

    /// A span of `nanos` nanoseconds.
    pub fn from_nanos(nanos: u128) -> (span: TimeSpan)
        ensures
            span.nanos == nanos,
    {
        TimeSpan { nanos }
    }

    /// A span of `secs` whole seconds.
    pub fn from_secs(secs: u64) -> (span: TimeSpan)
        ensures
            span == TimeSpan::of_secs(secs),
            span.nanos == secs * NANOS_PER_SEC,
    {
        let secs_wide: u128 = secs as u128;
        TimeSpan { nanos: secs_wide * NANOS_PER_SEC }
    }

    /// The length of the span in nanoseconds.
    pub fn as_nanos(&self) -> (nanos: u128)
        ensures
            nanos == self.nanos,
    {
        self.nanos
    }

    /// The whole seconds in the span; what is left of a second is dropped.
    pub fn as_secs(&self) -> (secs: u128)
        ensures
            secs == self.nanos / NANOS_PER_SEC,
    {
        self.nanos / NANOS_PER_SEC
    }

    /// Whether this span is strictly longer than `other`.
    pub fn exceeds(&self, other: &TimeSpan) -> (longer: bool)
        ensures
            longer == (self.nanos > other.nanos),
    {
        self.nanos > other.nanos
    }
}

/// A reading of the monotonic clock, `std::time::Instant`. Nothing of it can
/// be looked into here: it is kept, and handed back to the clock.
#[verifier::external_type_specification]
#[verifier::external_body]
pub struct ExInstant(Instant);

/// Reads the monotonic clock with `Instant::now`.
///
/// Nothing is claimed of the reading: two calls may give any two instants.
#[verifier::external_body]
pub(crate) fn clock_now() -> (now: Instant) {
    Instant::now()
}

/// The time that has passed since `earlier`, by `Instant::elapsed`.
///
/// The result depends on when the call is made, so nothing is claimed of it.
#[verifier::external_body]
pub(crate) fn clock_elapsed(earlier: &Instant) -> (elapsed: Duration) {
    earlier.elapsed()
}

/// The length of `duration` in nanoseconds, by `Duration::as_nanos`.
///
/// A `Duration` cannot be looked into here, so nothing is claimed of the
/// count but that it is the one `as_nanos` gives.
#[verifier::external_body]
pub(crate) fn duration_nanos(duration: &Duration) -> (nanos: u128) {
    duration.as_nanos()
}

} // verus!
