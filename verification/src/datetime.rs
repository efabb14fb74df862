//! The start time of an activity, as the service writes it.

use crate::error::ApiError;
use vstd::prelude::*;

verus! {

/// The layout of a start time: date and time of day, in UTC.
pub const FORMAT: &'static str = "%Y-%m-%d %H:%M:%S";

/// What `chrono::TimeZone::datetime_from_str` reads from `text` in the layout
/// `format`, taken as UTC, in seconds since 1970-01-01 00:00:00 UTC; `None`
/// where it refuses the text.
pub uninterp spec fn parsed_time(text: Seq<char>, format: Seq<char>) -> Option<i64>;

/// Calls `chrono::TimeZone::datetime_from_str` on `chrono::Utc`, and
/// `chrono::DateTime::timestamp` on what it returns. Trusted: the result is
/// what [`parsed_time`] names, for the same text and layout.
#[verifier::external_body]
#[allow(deprecated)]
fn parse_time(text: &str, format: &str) -> (seconds: Option<i64>)
    ensures
        seconds == parsed_time(text@, format@),
{
    chrono::TimeZone::datetime_from_str(&chrono::Utc, text, format).ok().map(|t| t.timestamp())
}

/// What a text that was read as a start time stands for: the seconds read,
/// and a failure to decode where none were.
pub open spec fn timestamp(seconds: Option<i64>) -> Result<i64, ApiError> {
    match seconds {
        Some(t) => Ok(t),
        None => Err(ApiError::DecodeFailed),
    }
}

/// Tells what a text that was read as a start time stands for.
pub fn timestamp_of(seconds: Option<i64>) -> (read: Result<i64, ApiError>)
    ensures
        read == timestamp(seconds),
{
    match seconds {
        Some(t) => Ok(t),
        None => Err(ApiError::DecodeFailed),
    }
}

/// Reads a start time in the layout [`FORMAT`], as seconds since
/// 1970-01-01 00:00:00 UTC.
pub fn deserialize(text: &str) -> (read: Result<i64, ApiError>)
    ensures
        read == timestamp(parsed_time(text@, FORMAT@)),
{
    timestamp_of(parse_time(text, FORMAT))
}

} // verus!
