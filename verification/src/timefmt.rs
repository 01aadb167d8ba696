//! Trusted declarations around the calendar library: formatting a Unix
//! timestamp as an ISO-8601 text and reading it back.  The rendered text is
//! a pure function of the timestamp, named by [`rfc3339_of`]; nothing else
//! is assumed of its shape.

use vstd::prelude::*;
use chrono::SecondsFormat;

verus! {

/// Exclusive upper bound on the timestamps the library handles: the first
/// second of year 10000.  Keeping timestamps below it guarantees that the
/// calendar library can format them.
pub const TS_UPPER: i64 = 253402300800;

/// Whether a timestamp is one the library handles.
pub open spec fn ts_wf(t: i64) -> bool {
    0 <= t < TS_UPPER
}

/// The ISO-8601 (RFC 3339) rendering of a Unix timestamp in UTC, with
/// seconds precision and a `Z` suffix.
pub uninterp spec fn rfc3339_of(t: i64) -> Seq<char>;

/// Relies on `chrono::DateTime::from_timestamp` and `to_rfc3339_opts`:
/// renders a timestamp as RFC 3339 text; the result depends on the
/// timestamp alone.  `from_timestamp` returns a value for every second of
/// years 0 to 9999, which the precondition guarantees.
#[verifier::external_body]
pub fn format_timestamp(t: i64) -> (r: String)
    requires
        ts_wf(t),
    ensures
        r@ == rfc3339_of(t),
{
    match chrono::DateTime::from_timestamp(t, 0) {
        Some(dt) => dt.to_rfc3339_opts(SecondsFormat::Secs, true),
        None => String::new(),
    }
}

/// Relies on `chrono::DateTime::parse_from_rfc3339` and
/// `DateTime::timestamp`: parsing the canonical rendering of a timestamp
/// gives that timestamp back.  Nothing is claimed about other inputs beyond
/// returning some value or failing.
#[verifier::external_body]
pub fn parse_timestamp(s: &str) -> (r: Option<i64>)
    ensures
        forall|t: i64| ts_wf(t) && s@ == rfc3339_of(t) ==> r == Some(t),
{
    match chrono::DateTime::parse_from_rfc3339(s) {
        Ok(dt) => Some(dt.timestamp()),
        Err(_) => None,
    }
}

} // verus!
