//! Instants and spans of time, in whole nanoseconds.

use vstd::prelude::*;

verus! {

/// Nanoseconds in one millisecond.
pub const NANOS_PER_MILLI: u128 = 1_000_000;

/// A wall-clock instant, counted in nanoseconds since the Unix epoch.
#[derive(Clone, Copy, Debug, PartialEq, Eq, Structural, PartialOrd, Ord, Hash)]
pub struct Timestamp {
    pub nanos: u128,
}

/// A span of time in nanoseconds.
#[derive(Clone, Copy, Debug, PartialEq, Eq, Structural, PartialOrd, Ord, Hash)]
pub struct Duration {
    pub nanos: u128,
}

impl Timestamp {
    /// The instant `nanos` nanoseconds after the epoch.
    pub fn from_nanos(nanos: u128) -> (r: Timestamp)
        ensures
            r.nanos == nanos,
    {
        Timestamp { nanos }
    }

    /// What `duration_since` gives: the distance from `earlier` up to `self`,
    /// or nothing when `earlier` lies after `self`.
    pub open spec fn spec_duration_since(self, earlier: Timestamp) -> Option<Duration> {
        if earlier.nanos <= self.nanos {
            Some(Duration { nanos: (self.nanos - earlier.nanos) as u128 })
        } else {
            None
        }
    }

    /// The time elapsed from `earlier` to `self`; `None` when the subtraction
    /// would underflow, as it does when the clock went backwards.
    pub fn duration_since(&self, earlier: Timestamp) -> (r: Option<Duration>)
        ensures
            r == self.spec_duration_since(earlier),
    {
        if earlier.nanos <= self.nanos {
            Some(Duration { nanos: self.nanos - earlier.nanos })
        } else {
            None
        }
    }
}

impl Duration {
    /// The span of `millis` milliseconds.
    pub fn from_millis(millis: u64) -> (r: Duration)
        ensures
            r.nanos == millis * NANOS_PER_MILLI,
    {
        let wide: u128 = millis as u128;
        Duration { nanos: wide * NANOS_PER_MILLI }
    }

    /// The whole milliseconds in the span.
    pub fn as_millis(&self) -> (r: u128)
        ensures
            r == self.nanos / NANOS_PER_MILLI,
    {
        self.nanos / NANOS_PER_MILLI
    }
}

} // verus!
