//! Durations of time.
use vstd::prelude::*;

verus! {

/// A span of time, held as a number of nanoseconds.
#[derive(Clone, Copy, Debug, PartialEq, Eq, Structural)]
pub struct TimeDuration {
    nanos: u128,
}

impl View for TimeDuration {
    type V = nat;

    closed spec fn view(&self) -> nat {
        self.nanos as nat
    }
}

impl TimeDuration {
    /// A duration of `secs` seconds and `nanos` nanoseconds.
    pub fn new(secs: u64, nanos: u32) -> (d: TimeDuration)
        ensures
            d@ == secs * 1_000_000_000 + nanos,
    {
        TimeDuration { nanos: secs as u128 * 1_000_000_000 + nanos as u128 }
    }

    /// A duration of `nanos` nanoseconds.
    pub fn from_nanos(nanos: u64) -> (d: TimeDuration)
        ensures
            d@ == nanos,
    {
        TimeDuration { nanos: nanos as u128 }
    }

    /// A duration of `micros` microseconds.
    pub fn from_micros(micros: u64) -> (d: TimeDuration)
        ensures
            d@ == micros * 1000,
    {
        TimeDuration { nanos: micros as u128 * 1000 }
    }

    /// A duration of `millis` milliseconds.
    pub fn from_millis(millis: u64) -> (d: TimeDuration)
        ensures
            d@ == millis * 1_000_000,
    {
        TimeDuration { nanos: millis as u128 * 1_000_000 }
    }

    /// A duration of `secs` seconds.
    pub fn from_secs(secs: u64) -> (d: TimeDuration)
        ensures
            d@ == secs * 1_000_000_000,
    {
        TimeDuration { nanos: secs as u128 * 1_000_000_000 }
    }

    /// The whole number of nanoseconds in this duration.
    pub fn as_nanos(&self) -> (r: u128)
        ensures
            r == self@,
    {
        self.nanos
    }
}

} // verus!
