//! Loaders of historical market data.

pub mod okx;

use vstd::prelude::*;
use crate::rfc3339::{parse_from_rfc3339, rfc3339_timestamp, timestamp_nanos_opt};
use crate::text::{parse_i64, spec_parse_i64};
use crate::timestamp::{nanos_as_u64, TimestampError, NANOS_PER_MILLI};

verus! {

/// The nanosecond timestamp of a quote/bar timestamp string: a signed count
/// of milliseconds since the epoch, or else an RFC 3339 date-time.
pub open spec fn spec_parse_unix_nanos(s: Seq<char>) -> Option<u64> {
    match spec_parse_i64(s) {
        Some(v) => Some((v * 1_000_000) as u64),
        None => rfc3339_timestamp(s),
    }
}

/// Reads a quote/bar timestamp: a signed count of milliseconds since the
/// epoch, or else an RFC 3339 date-time; anything else is refused.
pub fn parse_unix_nanos(s: &str) -> (r: Result<u64, TimestampError>)
    requires
        spec_parse_i64(s@) matches Some(v) ==> 0 <= v && v * 1_000_000 <= u64::MAX,
    ensures
        r == match spec_parse_unix_nanos(s@) {
            Some(t) => Ok::<u64, TimestampError>(t),
            None => Err::<u64, TimestampError>(TimestampError::InvalidDateTime),
        },
{
    match parse_i64(s) {
        Some(ms) => Ok((ms as u64) * NANOS_PER_MILLI),
        None => match parse_from_rfc3339(s) {
            Ok(dt) => Ok(nanos_as_u64(timestamp_nanos_opt(&dt))),
            Err(_) => Err(TimestampError::InvalidDateTime),
        },
    }
}

/// Pair `a` comes no later than pair `b`: by timestamp, then by position.
pub open spec fn pair_le(a: (u64, usize), b: (u64, usize)) -> bool {
    a.0 < b.0 || (a.0 == b.0 && a.1 <= b.1)
}

/// Every pair comes no later than the ones after it.
pub open spec fn sorted_pairs(s: Seq<(u64, usize)>) -> bool {
    forall|i: int, j: int| 0 <= i < j < s.len() ==> pair_le(#[trigger] s[i], #[trigger] s[j])
}

/// `slice::sort` on pairs of integers: sorts them into ascending order,
/// which for tuples std documents as lexicographic, keeping the same items.
#[verifier::external_body]
fn sort_pairs(v: &mut Vec<(u64, usize)>)
    ensures
        final(v)@.to_multiset() == old(v)@.to_multiset(),
        sorted_pairs(final(v)@),
{
    v.sort();
}

/// The records stamped `ts`, each paired with its position, in
/// chronological order; records with the same timestamp keep their order.
pub fn chronological_order(ts: &Vec<u64>) -> (r: Vec<(u64, usize)>)
    ensures
        r@.to_multiset() == Seq::new(ts@.len(), |i: int| (ts@[i], i as usize)).to_multiset(),
        sorted_pairs(r@),
{
    let mut pairs: Vec<(u64, usize)> = Vec::new();
    let mut i: usize = 0;
    while i < ts.len()
        invariant
            i <= ts@.len(),
            pairs@ == Seq::new(i as nat, |k: int| (ts@[k], k as usize)),
        decreases ts@.len() - i,
    {
        pairs.push((ts[i], i));
        i = i + 1;
    }
    sort_pairs(&mut pairs);
    pairs
}

} // verus!
