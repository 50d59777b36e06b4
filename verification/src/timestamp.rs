//! Timestamp conversions shared by the data loaders.

use vstd::prelude::*;

verus! {

/// Nanoseconds in one millisecond.
pub const NANOS_PER_MILLI: u64 = 1_000_000;

/// Why a timestamp string was refused.
#[derive(Debug, Clone, Copy, PartialEq, Eq)]
pub enum TimestampError {
    /// The string is not a decimal integer that fits the expected width.
    InvalidInteger,
    /// The string is neither an integer nor an RFC 3339 date-time.
    InvalidDateTime,
}

/// The `u64` that `n.unwrap_or(0) as u64` gives: a negative count of
/// nanoseconds wraps around modulo 2^64.
pub open spec fn spec_nanos_as_u64(n: Option<i64>) -> u64 {
    match n {
        Some(v) => if v >= 0 {
            v as u64
        } else {
            (v + 0x1_0000_0000_0000_0000int) as u64
        },
        None => 0,
    }
}

/// Turns the optional nanosecond count of a parsed date-time into the
/// unsigned timestamp the loaders store: `None` becomes zero and a negative
/// count wraps around as an `as` cast does.
pub fn nanos_as_u64(n: Option<i64>) -> (r: u64)
    ensures
        r == spec_nanos_as_u64(n),
{
    match n {
        Some(v) => if v >= 0 {
            v as u64
        } else {
            let m: i64 = -(v + 1);
            u64::MAX - (m as u64)
        },
        None => 0,
    }
}

/// The next timestamp of a strictly increasing series: the later of `base`
/// and one past the previous timestamp.
pub open spec fn spec_next_timestamp(base: u64, last: u64) -> int {
    if base as int >= last + 1 { base as int } else { last + 1 }
}

/// Hands out the next timestamp of a strictly increasing series and records
/// it as the last one.
pub fn next_timestamp(base: u64, last_ts: &mut u64) -> (ts: u64)
    requires
        *old(last_ts) < u64::MAX,
    ensures
        ts == spec_next_timestamp(base, *old(last_ts)),
        ts > *old(last_ts),
        ts >= base,
        *final(last_ts) == ts,
{
    let next = *last_ts + 1;
    let ts = if base >= next { base } else { next };
    *last_ts = ts;
    ts
}

/// The next timestamp is the least one that comes after the last and not
/// before the base: later than `last`, no earlier than `base`, and equal to
/// one of the two bounds.
pub proof fn lemma_next_timestamp_least(base: u64, last: u64)
    ensures
        spec_next_timestamp(base, last) > last,
        spec_next_timestamp(base, last) >= base,
        spec_next_timestamp(base, last) == base || spec_next_timestamp(base, last) == last + 1,
{
}

} // verus!
