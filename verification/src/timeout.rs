//! A span of time with nanosecond resolution.

use vstd::prelude::*;

verus! {

/// Number of nanoseconds in one second.
pub const NANOS_PER_SEC: u32 = 1_000_000_000u32;

/// Number of nanoseconds in one millisecond.
pub const NANOS_PER_MILLI: u32 = 1_000_000u32;

/// Number of milliseconds in one second.
pub const MILLIS_PER_SEC: u64 = 1_000u64;

/// A non-negative span of time: whole seconds plus a sub-second part in
/// nanoseconds. Two values are equal exactly when both parts are equal.
#[derive(Debug, Clone, Copy, PartialEq, Eq, Structural)]
pub struct Timeout {
    pub secs: u64,
    pub nanos: u32,
}

impl Timeout {
    /// The sub-second part is less than one second.
    pub open spec fn wf(self) -> bool {
        self.nanos < NANOS_PER_SEC
    }

    /// The whole span in nanoseconds.
    pub open spec fn total_nanos(self) -> nat {
        (self.secs * NANOS_PER_SEC + self.nanos) as nat
    }

    /// The span of `ms` milliseconds.
    pub open spec fn spec_from_millis(ms: u64) -> Timeout {
        Timeout {
            secs: ms / MILLIS_PER_SEC,
            nanos: ((ms % MILLIS_PER_SEC) * NANOS_PER_MILLI) as u32,
        }
    }

    /// The span of `secs` whole seconds.
    pub open spec fn spec_from_secs(secs: u64) -> Timeout {
        Timeout { secs, nanos: 0 }
    }

    /// A span built from its two parts; `None` unless the sub-second part is
    /// less than one second.
    pub fn new(secs: u64, nanos: u32) -> (r: Option<Timeout>)
        ensures
            r == if nanos < NANOS_PER_SEC {
                Some(Timeout { secs, nanos })
            } else {
                None
            },
    {
        if nanos < NANOS_PER_SEC {
            Some(Timeout { secs, nanos })
        } else {
            None
        }
    }

    /// The span of `secs` whole seconds.
    pub fn from_secs(secs: u64) -> (r: Timeout)
        ensures
            r == Timeout::spec_from_secs(secs),
            r.wf(),
            r.total_nanos() == secs * NANOS_PER_SEC,
    {
        Timeout { secs, nanos: 0 }
    }

    /// The span of `ms` milliseconds.
    pub fn from_millis(ms: u64) -> (r: Timeout)
        ensures
            r == Timeout::spec_from_millis(ms),
            r.wf(),
            r.total_nanos() == ms * NANOS_PER_MILLI,
    {
        let secs: u64 = ms / MILLIS_PER_SEC;
        let rest: u64 = ms % MILLIS_PER_SEC;
        assert(rest * 1_000_000 < 1_000_000_000) by (nonlinear_arith)
            requires
                rest < 1_000,
        ;
        assert((ms / 1_000) * 1_000_000_000 + (ms % 1_000) * 1_000_000 == ms * 1_000_000)
            by (nonlinear_arith);
        let nanos: u32 = (rest * 1_000_000u64) as u32;
        Timeout { secs, nanos }
    }

    /// The whole seconds of the span.
    pub fn as_secs(&self) -> (r: u64)
        ensures
            r == self.secs,
    {
        self.secs
    }

    /// The sub-second part of the span, in nanoseconds.
    pub fn subsec_nanos(&self) -> (r: u32)
        ensures
            r == self.nanos,
    {
        self.nanos
    }
}

} // verus!
