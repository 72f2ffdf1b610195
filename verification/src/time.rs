//! Lengths of time and points in time, both counted in nanoseconds.

use std::time::UNIX_EPOCH;
use vstd::prelude::*;

verus! {

/// Nanoseconds in one millisecond.
pub const NANOS_PER_MILLI: u128 = 1_000_000;

/// Nanoseconds in one second.
pub const NANOS_PER_SEC: u128 = 1_000_000_000;

/// A length of time.
#[derive(Clone, Copy, Debug, PartialEq, Eq, Structural)]
pub struct Span {
    pub nanos: u128,
}

/// A point in time: the nanoseconds that lie between the clock's origin and it.
#[derive(Clone, Copy, Debug, PartialEq, Eq, Structural)]
pub struct Moment {
    pub nanos: u128,
}

impl View for Span {
    type V = nat;

    open spec fn view(&self) -> nat {
        self.nanos as nat
    }
}

impl View for Moment {
    type V = nat;

    open spec fn view(&self) -> nat {
        self.nanos as nat
    }
}

/// The whole milliseconds in `nanos` nanoseconds.
pub open spec fn millis_of(nanos: nat) -> nat {
    nanos / (NANOS_PER_MILLI as nat)
}

/// The whole seconds in `nanos` nanoseconds.
pub open spec fn secs_of(nanos: nat) -> nat {
    nanos / (NANOS_PER_SEC as nat)
}

/// `a - b`, held at zero where `b` is the larger.
pub open spec fn minus_or_zero(a: nat, b: nat) -> nat {
    if a > b {
        (a - b) as nat
    } else {
        0
    }
}

/// `a + b`, held at the largest count a `u128` can take.
pub open spec fn plus_or_max(a: nat, b: nat) -> nat {
    if a + b > u128::MAX {
        u128::MAX as nat
    } else {
        a + b
    }
}

impl Span {
    /// The span of `secs` seconds and `nanos` nanoseconds.
    pub fn new(secs: u64, nanos: u32) -> (r: Span)
        ensures
            r@ == secs * NANOS_PER_SEC + nanos,
    {
        let whole: u128 = secs as u128 * NANOS_PER_SEC;
        Span { nanos: whole + nanos as u128 }
    }

    /// The span of `millis` milliseconds.
    pub fn from_millis(millis: u64) -> (r: Span)
        ensures
            r@ == millis * NANOS_PER_MILLI,
    {
        Span { nanos: millis as u128 * NANOS_PER_MILLI }
    }

    /// The whole milliseconds of the span; what is left of a millisecond is dropped.
    pub fn as_millis(&self) -> (r: u128)
        ensures
            r == millis_of(self@),
    {
        self.nanos / NANOS_PER_MILLI
    }

    /// The whole seconds of the span; what is left of a second is dropped.
    pub fn as_secs(&self) -> (r: u128)
        ensures
            r == secs_of(self@),
    {
        self.nanos / NANOS_PER_SEC
    }

    /// The nanoseconds beyond the whole seconds.
    pub fn subsec_nanos(&self) -> (r: u32)
        ensures
            r == self@ % (NANOS_PER_SEC as nat),
    {
        (self.nanos % NANOS_PER_SEC) as u32
    }
}

impl Moment {
    /// The moment `span` after this one, held at the end of the clock's range.
    pub fn after(&self, span: Span) -> (r: Moment)
        ensures
            r@ == plus_or_max(self@, span@),
    {
        Moment { nanos: self.nanos.saturating_add(span.nanos) }
    }

    /// The moment `span` before this one, held at the clock's origin.
    pub fn before(&self, span: Span) -> (r: Moment)
        ensures
            r@ == minus_or_zero(self@, span@),
    {
        Moment { nanos: self.nanos.saturating_sub(span.nanos) }
    }

    /// The moment that a reading of the clock stands for: the nanoseconds it
    /// gives, or the clock's origin where the clock gave none.
    pub fn from_reading(reading: Option<u128>) -> (r: Moment)
        ensures
            r@ == (match reading {
                Some(nanos) => nanos as nat,
                None => 0,
            }),
    {
        match reading {
            Some(nanos) => Moment { nanos },
            None => Moment { nanos: 0 },
        }
    }

    /// The time from `earlier` to this moment; zero where `earlier` is not earlier.
    pub fn saturating_since(&self, earlier: Moment) -> (r: Span)
        ensures
            r@ == minus_or_zero(self@, earlier@),
    {
        Span { nanos: self.nanos.saturating_sub(earlier.nanos) }
    }
}

/// Reads the system clock through [`std::time::SystemTime::elapsed`] on
/// `UNIX_EPOCH`: the nanoseconds since the start of 1970, or nothing where
/// the clock stands before it. Nothing is claimed of the reading.
#[verifier::external_body]
fn system_clock_nanos() -> Option<u128> {
    match UNIX_EPOCH.elapsed() {
        Ok(since) => Some(since.as_nanos()),
        Err(_) => None,
    }
}

/// The current moment by the system clock, counted from the start of 1970.
/// A clock set to before that reads as the origin: see
/// [`Moment::from_reading`]. Which moment comes back is the clock's affair,
/// and two calls may differ.
pub fn now() -> Moment {
    Moment::from_reading(system_clock_nanos())
}

} // verus!
