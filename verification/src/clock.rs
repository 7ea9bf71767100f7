//! Points in time and spans between them, with nanosecond resolution.

use vstd::prelude::*;

verus! {

/// Nanoseconds in `ms` milliseconds.
pub open spec fn millis(ms: int) -> int {
    ms * 1_000_000
}

/// Nanoseconds from `started` to `now`; a clock that went backwards reads as zero.
pub open spec fn elapsed(started: Instant, now: Instant) -> int {
    if now.nanos >= started.nanos {
        now.nanos - started.nanos
    } else {
        0
    }
}

/// The span from `started` to `now`.
pub open spec fn span(started: Instant, now: Instant) -> Duration {
    Duration { nanos: elapsed(started, now) as u128 }
}

/// A span of time.
#[derive(Debug, Clone, Copy, PartialEq, Eq, Structural)]
pub struct Duration {
    pub nanos: u128,
}

/// A reading of a clock, counted from an origin that is the same for all readings.
#[derive(Debug, Clone, Copy, PartialEq, Eq, Structural)]
pub struct Instant {
    pub nanos: u128,
}

impl Duration {
    pub fn from_millis(ms: u64) -> (span: Duration)
        ensures
            span.nanos == millis(ms as int),
    {
        Duration { nanos: ms as u128 * 1_000_000 }
    }

    /// The span is no longer than `ms` milliseconds.
    pub fn at_most(self, ms: u64) -> (yes: bool)
        ensures
            yes == (self.nanos <= millis(ms as int)),
    {
        self.nanos <= ms as u128 * 1_000_000
    }

    /// The span is no shorter than `ms` milliseconds.
    pub fn at_least(self, ms: u64) -> (yes: bool)
        ensures
            yes == (self.nanos >= millis(ms as int)),
    {
        self.nanos >= ms as u128 * 1_000_000
    }
}

impl Instant {
    /// The span since `earlier`, or zero when `earlier` lies ahead.
    pub fn duration_since(self, earlier: Instant) -> (span: Duration)
        ensures
            span.nanos == elapsed(earlier, self),
    {
        if self.nanos >= earlier.nanos {
            Duration { nanos: self.nanos - earlier.nanos }
        } else {
            Duration { nanos: 0 }
        }
    }

    /// The span since `earlier`, or nothing when `earlier` lies ahead.
    pub fn checked_duration_since(self, earlier: Instant) -> (span: Option<Duration>)
        ensures
            span is Some <==> earlier.nanos <= self.nanos,
            span matches Some(d) ==> d.nanos == self.nanos - earlier.nanos,
    {
        if self.nanos >= earlier.nanos {
            Some(Duration { nanos: self.nanos - earlier.nanos })
        } else {
            None
        }
    }
}

} // verus!
