//! RFC 3339 timestamps, parsed by `chrono`.

use vstd::prelude::*;
use chrono::{DateTime, FixedOffset, ParseError};
use crate::timestamp::spec_nanos_as_u64;

verus! {

/// An RFC 3339 date-time as `chrono` parsed it, offset included: a
/// `chrono::DateTime<FixedOffset>` held whole, whose instant is read through
/// `timestamp_nanos_opt`.
#[verifier::external_body]
pub struct ParsedDateTime {
    inner: DateTime<FixedOffset>,
}

#[verifier::external_type_specification]
#[verifier::external_body]
pub struct ExChronoParseError(ParseError);

/// What `chrono` reads from a string as an RFC 3339 date-time: `None` where
/// it refuses the string, else the instant it denotes, counted in
/// nanoseconds since the Unix epoch as `timestamp_nanos_opt` counts them
/// (`None` inside where that count does not fit an `i64`). A function of the
/// string alone: the offset is part of the string.
pub uninterp spec fn rfc3339_nanos(s: Seq<char>) -> Option<Option<i64>>;

/// What `timestamp_nanos_opt` gives for a parsed date-time.
pub uninterp spec fn datetime_nanos(d: ParsedDateTime) -> Option<i64>;

/// The unsigned timestamp the loaders store for an RFC 3339 string, where
/// `chrono` accepts it: its nanosecond count converted by `nanos_as_u64`.
pub open spec fn rfc3339_timestamp(s: Seq<char>) -> Option<u64> {
    match rfc3339_nanos(s) {
        Some(n) => Some(spec_nanos_as_u64(n)),
        None => None,
    }
}

/// `DateTime::<FixedOffset>::parse_from_rfc3339`: succeeds exactly on the
/// strings that `chrono` accepts, and the date-time it returns denotes the
/// instant that `rfc3339_nanos` names for the string.
#[verifier::external_body]
pub(crate) fn parse_from_rfc3339(s: &str) -> (r: Result<ParsedDateTime, ParseError>)
    ensures
        r is Ok <==> rfc3339_nanos(s@) is Some,
        r matches Ok(d) ==> rfc3339_nanos(s@) == Some(datetime_nanos(d)),
{
    DateTime::parse_from_rfc3339(s).map(|inner| ParsedDateTime { inner })
}

/// `DateTime::timestamp_nanos_opt`: nanoseconds since the Unix epoch, or
/// `None` where that does not fit in an `i64`.
#[verifier::external_body]
pub(crate) fn timestamp_nanos_opt(dt: &ParsedDateTime) -> (r: Option<i64>)
    ensures
        r == datetime_nanos(*dt),
{
    dt.inner.timestamp_nanos_opt()
}

} // verus!
