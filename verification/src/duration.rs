//! A span of time, as the wrapper reads it.
//!
//! Seek-by-duration works from the whole seconds of the requested
//! span alone: any sub-second remainder is dropped before the target
//! frame is computed. The type keeps the remainder so that a caller
//! can see exactly what is dropped.

use vstd::prelude::*;

verus! {

/// Nanoseconds in one second.
pub const NANOS_PER_SEC: u32 = 1_000_000_000;

/// A non-negative span of time: whole seconds plus a sub-second
/// remainder in nanoseconds, kept strictly below one second.
#[derive(Clone, Copy, PartialEq, Eq, Structural, Debug)]
pub struct Duration {
    secs: u64,
    nanos: u32,
}

impl Duration {
    /// The sub-second remainder stays below one second.
    #[verifier::type_invariant]
    spec fn wf(self) -> bool {
        self.nanos < NANOS_PER_SEC
    }

    /// The whole seconds of the span.
    pub closed spec fn secs(self) -> u64 {
        self.secs
    }

    /// The sub-second remainder, in nanoseconds.
    pub closed spec fn nanos(self) -> u32 {
        self.nanos
    }

    /// The whole span, in nanoseconds.
    pub open spec fn total_nanos(self) -> int {
        self.secs() * NANOS_PER_SEC + self.nanos()
    }

    /// A span of `secs` seconds plus `nanos` nanoseconds. Nanoseconds
    /// at or above one second are carried into the seconds, so the
    /// seconds must leave room for that carry.
    pub fn new(secs: u64, nanos: u32) -> (r: Duration)
        requires
            secs + nanos as int / NANOS_PER_SEC as int <= u64::MAX,
        ensures
            r.total_nanos() == secs * NANOS_PER_SEC + nanos,
            r.nanos() < NANOS_PER_SEC,
    {
        let carry: u32 = nanos / NANOS_PER_SEC;
        let rem: u32 = nanos % NANOS_PER_SEC;
        Duration { secs: secs + carry as u64, nanos: rem }
    }

    /// A span of exactly `secs` whole seconds.
    pub fn from_secs(secs: u64) -> (r: Duration)
        ensures
            r.secs() == secs,
            r.nanos() == 0,
    {
        Duration { secs, nanos: 0 }
    }

    /// The number of whole seconds in the span; the sub-second
    /// remainder does not contribute.
    pub fn as_secs(&self) -> (r: u64)
        ensures
            r == self.secs(),
    {
        self.secs
    }

    /// The sub-second remainder of the span, in nanoseconds; always
    /// below one second.
    pub fn subsec_nanos(&self) -> (r: u32)
        ensures
            r == self.nanos(),
            r < NANOS_PER_SEC,
    {
        proof { use_type_invariant(&*self); }
        self.nanos
    }
}

} // verus!
