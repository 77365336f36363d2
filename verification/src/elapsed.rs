//! A length of time, counted in whole nanoseconds.

use vstd::prelude::*;

verus! {

/// Nanoseconds in one second.
pub const NANOS_PER_SEC: u128 = 1_000_000_000;

/// A span of time between two readings of a monotonic clock.
#[derive(Debug, Clone, Copy, PartialEq, Eq, Structural)]
pub struct Elapsed {
    nanos: u128,
}

impl View for Elapsed {
    type V = nat;

    /// The span in nanoseconds.
    closed spec fn view(&self) -> nat {
        self.nanos as nat
    }
}

impl Elapsed {
    /// The span of `nanos` nanoseconds.
    pub fn from_nanos(nanos: u128) -> (span: Elapsed)
        ensures
            span@ == nanos,
    {
        Elapsed { nanos }
    }

    /// The whole span in nanoseconds.
    pub fn as_nanos(&self) -> (nanos: u128)
        ensures
            nanos == self@,
    {
        self.nanos
    }

    /// The whole seconds in the span, rounded down.
    pub fn as_secs(&self) -> (secs: u128)
        ensures
            secs == self@ / (NANOS_PER_SEC as nat),
    {
        self.nanos / NANOS_PER_SEC
    }

    /// What is left of the span after its whole seconds, in nanoseconds.
    pub fn subsec_nanos(&self) -> (nanos: u32)
        ensures
            nanos == self@ % (NANOS_PER_SEC as nat),
    {
        (self.nanos % NANOS_PER_SEC) as u32
    }
}

} // verus!
