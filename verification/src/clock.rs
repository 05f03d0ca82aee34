//! Timestamps, as seconds since the Unix epoch, and their RFC 3339 string
//! form. Parsing and rendering are done by chrono behind trusted wrappers;
//! everything else in the library works on the plain seconds value.

use vstd::prelude::*;

verus! {

/// The largest instant the scheduler will render as a timestamp string:
/// 9999-12-31T23:59:59 UTC, the last second with a four-digit year, so the
/// rendering is a plain RFC 3339 date-and-time.
pub const MAX_TIMESTAMP_SECONDS: i64 = 253402300799;

/// The seconds since the Unix epoch of the instant an RFC 3339 date-and-time
/// string denotes, or `None` where the string is not one.
pub uninterp spec fn rfc3339_parse(s: Seq<char>) -> Option<i64>;

/// The RFC 3339 rendering of the instant `secs` seconds after the Unix epoch.
pub uninterp spec fn rfc3339_render(secs: i64) -> Seq<char>;

/// Relies on chrono's `DateTime::parse_from_rfc3339`, which parses all valid
/// RFC 3339 date-and-time values and fails on everything else, and on
/// `DateTime::timestamp`, which returns the instant's seconds since the Unix
/// epoch. The result depends on the characters of `s` alone.
#[verifier::external_body]
pub(crate) fn parse_rfc3339_seconds(s: &str) -> (r: Option<i64>)
    ensures
        r == rfc3339_parse(s@),
{
    match chrono::DateTime::parse_from_rfc3339(s) {
        Ok(instant) => Some(instant.timestamp()),
        Err(_) => None,
    }
}

/// Relies on chrono's `DateTime::from_timestamp`, which is `Some` for every
/// second of years 1 through 9999, on `DateTime::to_rfc3339`, which renders
/// the instant as an RFC 3339 date-and-time string, and on
/// `DateTime::parse_from_rfc3339` parsing that rendering back to the same
/// instant. The result depends on `secs` alone.
#[verifier::external_body]
pub(crate) fn render_rfc3339_seconds(secs: i64) -> (r: String)
    requires
        0 <= secs <= MAX_TIMESTAMP_SECONDS,
    ensures
        r@ == rfc3339_render(secs),
        rfc3339_parse(r@) == Some(secs),
{
    let instant = chrono::DateTime::<chrono::Utc>::from_timestamp(secs, 0).unwrap();
    instant.to_rfc3339()
}

} // verus!
