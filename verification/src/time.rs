//! Lengths of time, counted in whole nanoseconds.

use vstd::prelude::*;

verus! {

/// Number of nanoseconds in a second.
pub const NANOS_PER_SEC: u128 = 1_000_000_000;

/// Number of nanoseconds in a millisecond.
pub const NANOS_PER_MILLI: u128 = 1_000_000;

/// A non-negative length of time with nanosecond resolution.
///
/// Two durations are equal exactly when they hold the same number of
/// nanoseconds. The range is wide enough for any `std::time::Duration`.
#[derive(Clone, Copy, Debug, PartialEq, Eq, Hash, Structural)]
pub struct Duration {
    /// The whole length in nanoseconds.
    pub nanos: u128,
}

impl View for Duration {
    type V = nat;

    /// The length in nanoseconds as a natural number.
    open spec fn view(&self) -> nat {
        self.nanos as nat
    }
}

impl Default for Duration {
    /// The empty length of time.
    fn default() -> (d: Duration)
        ensures
            d == (Duration { nanos: 0 }),
    {
        Duration { nanos: 0 }
    }
}

impl Duration {
    /// The duration of `nanos` nanoseconds, for `nanos` that fit the type.
    pub open spec fn spec_from_nanos(nanos: nat) -> Duration {
        Duration { nanos: nanos as u128 }
    }

    /// The empty length of time.
    pub fn zero() -> (d: Duration)
        ensures
            d == (Duration { nanos: 0 }),
    {
        Duration { nanos: 0 }
    }

    /// A duration of `nanos` nanoseconds.
    pub fn from_nanos(nanos: u128) -> (d: Duration)
        ensures
            d == (Duration { nanos }),
    {
        Duration { nanos }
    }

    /// A duration of `millis` milliseconds.
    pub fn from_millis(millis: u64) -> (d: Duration)
        ensures
            d@ == millis * NANOS_PER_MILLI,
    {
        Duration { nanos: (millis as u128) * NANOS_PER_MILLI }
    }

    /// A duration of `secs` seconds.
    pub fn from_secs(secs: u64) -> (d: Duration)
        ensures
            d@ == secs * NANOS_PER_SEC,
    {
        Duration { nanos: (secs as u128) * NANOS_PER_SEC }
    }

    /// The length in nanoseconds.
    pub fn as_nanos(&self) -> (n: u128)
        ensures
            n == self@,
    {
        self.nanos
    }

    /// `self - rhs`, or zero where `rhs` is the longer of the two.
    pub fn saturating_sub(self, rhs: Duration) -> (d: Duration)
        ensures
            d@ == if self@ >= rhs@ { self@ - rhs@ } else { 0 },
    {
        if self.nanos >= rhs.nanos {
            Duration { nanos: self.nanos - rhs.nanos }
        } else {
            Duration { nanos: 0 }
        }
    }

    /// The shorter of `self` and `other`.
    pub fn min(self, other: Duration) -> (d: Duration)
        ensures
            d@ == if self@ <= other@ { self@ } else { other@ },
            d == self || d == other,
    {
        if self.nanos <= other.nanos {
            self
        } else {
            other
        }
    }
}

} // verus!
