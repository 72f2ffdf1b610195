//! How a deadline is written down and read back. What is written is not the
//! deadline but the whole milliseconds that have passed since it, zero for a
//! deadline still ahead and for none. What is read back is the moment that
//! many milliseconds before the reading. A deadline ahead at the writing is
//! therefore read back as the moment of the reading.

use crate::time::{millis_of, minus_or_zero, Moment, Span, NANOS_PER_MILLI};
use vstd::prelude::*;

verus! {

/// One more than the largest count that is written down.
pub const STAMP_RANGE: u128 = 0x1_0000_0000_0000_0000;

/// What is written for the deadline `end` at `now`: the whole milliseconds
/// from `end` to `now`, counted around [`STAMP_RANGE`].
pub open spec fn stamp(end: Option<nat>, now: nat) -> nat {
    match end {
        Some(end) => millis_of(minus_or_zero(now, end)) % (STAMP_RANGE as nat),
        None => 0,
    }
}

/// The moment that `timestamp` milliseconds before `now` gives, held at the
/// clock's origin.
pub open spec fn unstamp(timestamp: u64, now: nat) -> nat {
    minus_or_zero(now, (timestamp * NANOS_PER_MILLI) as nat)
}

/// What to write for `instant` at `now`.
pub fn serialize(instant: Option<Moment>, now: Moment) -> (r: u64)
    ensures
        r == stamp(
            match instant {
                Some(end) => Some(end@),
                None => None,
            },
            now@,
        ),
{
    match instant {
        Some(end) => {
            let elapsed: u128 = now.saturating_since(end).as_millis();
            (elapsed % STAMP_RANGE) as u64
        },
        None => 0,
    }
}

/// The deadline that `timestamp`, read at `now`, stands for.
pub fn deserialize(timestamp: u64, now: Moment) -> (r: Option<Moment>)
    ensures
        r is Some,
        r->0@ == unstamp(timestamp, now@),
{
    Some(now.before(Span::from_millis(timestamp)))
}

} // verus!
