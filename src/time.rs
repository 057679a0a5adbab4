//! Instants as milliseconds since the Unix epoch, read, written and taken
//! from the clock by chrono.
use vstd::prelude::*;
use std::str::FromStr;

verus! {

/// The instant that `DateTime::<Utc>::from_str` reads from a text, in
/// milliseconds since the epoch, or `None` where it refuses the text.
pub uninterp spec fn utc_millis_of(s: Seq<char>) -> Option<i64>;

/// The instant that `DateTime::parse_from_rfc3339` reads from a text, in
/// milliseconds since the epoch, or `None` where it refuses the text.
pub uninterp spec fn rfc3339_millis_of(s: Seq<char>) -> Option<i64>;

/// What chrono's `format` writes for the UTC instant `ms` with `pattern`, or
/// `None` where the instant is out of chrono's range.
pub uninterp spec fn utc_text_of(ms: i64, pattern: Seq<char>) -> Option<Seq<char>>;

/// The pattern of a day as `dd/mm/yyyy`.
pub const DATE_PATTERN: &'static str = "%d/%m/%Y";

/// The pattern of a time of day as `hh:mm:ss`.
pub const TIME_PATTERN: &'static str = "%H:%M:%S";

/// Relies on `chrono::Utc::now`: the current instant. Nothing is known of it.
#[verifier::external_body]
pub(crate) fn now_millis() -> (r: i64) {
    chrono::Utc::now().timestamp_millis()
}

/// Relies on `DateTime::<Utc>::from_str`: the instant a text names.
#[verifier::external_body]
pub(crate) fn parse_utc_millis(s: &str) -> (r: Option<i64>)
    ensures
        r == utc_millis_of(s@),
{
    chrono::DateTime::<chrono::Utc>::from_str(s).ok().map(|t| t.timestamp_millis())
}

/// Relies on `DateTime::parse_from_rfc3339`: the instant an RFC 3339 text
/// names.
#[verifier::external_body]
pub(crate) fn parse_rfc3339_millis(s: &str) -> (r: Option<i64>)
    ensures
        r == rfc3339_millis_of(s@),
{
    chrono::DateTime::parse_from_rfc3339(s).ok().map(|t| t.timestamp_millis())
}

/// Relies on `DateTime::<Utc>::format`: the UTC instant `ms` written with one
/// of this library's patterns, whose specifiers chrono knows.
#[verifier::external_body]
pub(crate) fn format_utc(ms: i64, pattern: &str) -> (r: Option<String>)
    requires
        pattern@ == DATE_PATTERN@ || pattern@ == TIME_PATTERN@,
    ensures
        r is Some <==> utc_text_of(ms, pattern@) is Some,
        r is Some ==> r->0@ == utc_text_of(ms, pattern@)->0,
{
    chrono::DateTime::<chrono::Utc>::from_timestamp_millis(ms).map(|t| t.format(pattern).to_string())
}

} // verus!
