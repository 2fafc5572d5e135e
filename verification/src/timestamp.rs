//! Normalization of raw file timestamps into displayable UTC time.

use vstd::prelude::*;
use crate::text::quote;
use crate::text::quoted;

verus! {

/// Why a timestamp could not be shown as a point in time.
#[derive(Clone, Copy, Debug, PartialEq, Eq, Structural)]
pub enum InvalidTimestamp {
    /// The platform did not supply this kind of timestamp for the file.
    Unavailable,
    /// The count of seconds lies outside the range of representable dates.
    OutOfRange,
}

/// The text `YYYY-MM-DD HH:MM:SS UTC` of the instant `secs` seconds after
/// 1970-01-01 00:00:00 UTC, as chrono displays it; `None` where chrono has
/// no date for that count.
pub uninterp spec fn utc_timestamp_text(secs: i64) -> Option<Seq<char>>;

/// The normalized form of a raw timestamp.
pub open spec fn normalized(raw: Option<i64>) -> Result<Seq<char>, InvalidTimestamp> {
    match raw {
        None => Err(InvalidTimestamp::Unavailable),
        Some(secs) => match utc_timestamp_text(secs) {
            Some(t) => Ok(t),
            None => Err(InvalidTimestamp::OutOfRange),
        },
    }
}

/// The notice shown in place of a timestamp that is invalid.
pub open spec fn notice(e: InvalidTimestamp) -> Seq<char> {
    match e {
        InvalidTimestamp::Unavailable => "error: not supported on this platform."@,
        InvalidTimestamp::OutOfRange => "error: timestamp out of range."@,
    }
}

/// What a report shows for a normalized timestamp: the time itself, or the
/// quoted notice of why there is none.
pub open spec fn field_text(outcome: Result<Seq<char>, InvalidTimestamp>) -> Seq<char> {
    match outcome {
        Ok(t) => t,
        Err(e) => quote(notice(e)),
    }
}

/// What a report shows for a raw timestamp.
pub open spec fn timestamp_text(raw: Option<i64>) -> Seq<char> {
    field_text(normalized(raw))
}

/// The view of a normalization result.
pub open spec fn outcome_view(r: Result<String, InvalidTimestamp>) -> Result<
    Seq<char>,
    InvalidTimestamp,
> {
    match r {
        Ok(s) => Ok(s@),
        Err(e) => Err(e),
    }
}

/// Calls chrono's `Utc.timestamp_opt(secs, 0)` and, where it yields a single
/// instant, that instant's `Display` text. Trusted: the result is what
/// `utc_timestamp_text` names, `None` exactly where chrono reports the count
/// as out of range. With zero nanoseconds chrono yields either one instant or
/// none, and the text of an instant in UTC depends on `secs` alone.
#[verifier::external_body]
fn format_utc(secs: i64) -> (r: Option<String>)
    ensures
        match r {
            Some(s) => utc_timestamp_text(secs) == Some(s@),
            None => utc_timestamp_text(secs) is None,
        },
{
    match chrono::TimeZone::timestamp_opt(&chrono::Utc, secs, 0) {
        chrono::LocalResult::Single(t) => Some(t.to_string()),
        _ => None,
    }
}

/// Turns the text chrono gave for a count of seconds, if any, into a
/// normalization result: a missing text means the count was out of range.
pub fn from_formatted(formatted: Option<String>) -> (r: Result<String, InvalidTimestamp>)
    ensures
        match formatted {
            Some(s) => r == Ok::<String, InvalidTimestamp>(s),
            None => r == Err::<String, InvalidTimestamp>(InvalidTimestamp::OutOfRange),
        },
{
    match formatted {
        Some(s) => Ok(s),
        None => Err(InvalidTimestamp::OutOfRange),
    }
}

/// Normalizes a raw timestamp, given in whole seconds since the Unix epoch,
/// to UTC display text. A timestamp the platform did not supply, or one out
/// of range, yields the matching `InvalidTimestamp`.
pub fn normalize(raw: Option<i64>) -> (r: Result<String, InvalidTimestamp>)
    ensures
        outcome_view(r) == normalized(raw),
{
    match raw {
        None => Err(InvalidTimestamp::Unavailable),
        Some(secs) => from_formatted(format_utc(secs)),
    }
}

/// The notice for an invalid timestamp.
pub fn notice_str(e: InvalidTimestamp) -> (s: &'static str)
    ensures
        s@ == notice(e),
{
    match e {
        InvalidTimestamp::Unavailable => "error: not supported on this platform.",
        InvalidTimestamp::OutOfRange => "error: timestamp out of range.",
    }
}

/// Renders a normalization result as the value of a report field: an invalid
/// timestamp degrades to a quoted notice instead of failing the report.
pub fn timestamp_field(outcome: &Result<String, InvalidTimestamp>) -> (s: String)
    ensures
        s@ == field_text(outcome_view(*outcome)),
{
    match outcome {
        Ok(t) => t.clone(),
        Err(e) => quoted(notice_str(*e)),
    }
}

/// Renders a raw timestamp as the value of a report field.
pub fn timestamp_string(raw: Option<i64>) -> (s: String)
    ensures
        s@ == timestamp_text(raw),
{
    let outcome = normalize(raw);
    timestamp_field(&outcome)
}

} // verus!
