//! Instants read from request and message text with chrono.

use vstd::prelude::*;

verus! {

/// An instant on the UTC time line: whole seconds since 1970-01-01T00:00:00 and the
/// nanoseconds past that second (at or above one second only within a leap second).
#[derive(Clone, Copy, Debug, PartialEq, Eq, Structural)]
pub struct Timestamp {
    pub seconds: i64,
    pub nanos: u32,
}

#[verifier::external_type_specification]
#[verifier::external_body]
pub struct ExChronoParseError(chrono::ParseError);

/// The instant that chrono reads from an RFC 3339 text (`DateTime::parse_from_rfc3339`),
/// taken in UTC, or `None` where chrono refuses the text.
pub uninterp spec fn rfc3339_instant(text: Seq<char>) -> Option<Timestamp>;

/// The instant that chrono reads from `text` laid out as `format` says
/// (`NaiveDateTime::parse_from_str`), taken as UTC, or `None` where chrono refuses the text.
pub uninterp spec fn formatted_instant(text: Seq<char>, format: Seq<char>) -> Option<Timestamp>;

/// Calls `chrono::DateTime::parse_from_rfc3339` and turns the parsed date and time,
/// moved to UTC by `naive_utc`, into seconds and nanoseconds since the epoch.
/// The contract claims only that the outcome is the named result of the text.
#[verifier::external_body]
pub(crate) fn parse_rfc3339(text: &str) -> (r: Result<Timestamp, chrono::ParseError>)
    ensures
        r is Ok <==> rfc3339_instant(text@) is Some,
        r matches Ok(t) ==> rfc3339_instant(text@) == Some(t),
{
    match chrono::DateTime::parse_from_rfc3339(text) {
        Ok(parsed) => {
            let utc = parsed.naive_utc().and_utc();
            Ok(Timestamp { seconds: utc.timestamp(), nanos: utc.timestamp_subsec_nanos() })
        },
        Err(e) => Err(e),
    }
}

/// Calls `chrono::NaiveDateTime::parse_from_str` and turns the parsed date and time,
/// read as UTC, into seconds and nanoseconds since the epoch.
/// The contract claims only that the outcome is the named result of text and format.
#[verifier::external_body]
pub(crate) fn parse_formatted(text: &str, format: &str) -> (r: Result<Timestamp, chrono::ParseError>)
    ensures
        r is Ok <==> formatted_instant(text@, format@) is Some,
        r matches Ok(t) ==> formatted_instant(text@, format@) == Some(t),
{
    match chrono::NaiveDateTime::parse_from_str(text, format) {
        Ok(parsed) => {
            let utc = parsed.and_utc();
            Ok(Timestamp { seconds: utc.timestamp(), nanos: utc.timestamp_subsec_nanos() })
        },
        Err(e) => Err(e),
    }
}

/// The layout of a date filter that carries no offset.
pub const FILTER_DATE_FORMAT: &'static str = "%Y-%m-%dT%H:%M:%S";

/// The instant a date filter denotes: its RFC 3339 reading, else its reading as
/// `FILTER_DATE_FORMAT` in UTC, else none.
pub open spec fn filter_date_instant(text: Seq<char>) -> Option<Timestamp> {
    match rfc3339_instant(text) {
        Some(t) => Some(t),
        None => formatted_instant(text, FILTER_DATE_FORMAT@),
    }
}

/// Reads a date filter: RFC 3339 first, then the offset-less `FILTER_DATE_FORMAT` layout.
pub fn parse_filter_date(text: &str) -> (r: Option<Timestamp>)
    ensures
        r == filter_date_instant(text@),
{
    match parse_rfc3339(text) {
        Ok(t) => Some(t),
        Err(_) => match parse_formatted(text, FILTER_DATE_FORMAT) {
            Ok(t) => Some(t),
            Err(_) => None,
        },
    }
}

/// Reads an RFC 3339 instant in UTC, or `None` where chrono refuses the text.
pub fn parse_instant(text: &str) -> (r: Option<Timestamp>)
    ensures
        r == rfc3339_instant(text@),
{
    match parse_rfc3339(text) {
        Ok(t) => Some(t),
        Err(_) => None,
    }
}

} // verus!
