//! Timestamps of the status snapshot, read with the `chrono` crate.

use chrono::{Datelike, NaiveDateTime, Timelike};
use vstd::prelude::*;

verus! {

/// A date and a time of day without a time zone, field by field as `chrono`
/// reports them.
#[derive(Debug, PartialEq, Eq, Clone, Copy, Structural)]
pub struct Timestamp {
    pub year: i32,
    pub month: u32,
    pub day: u32,
    pub hour: u32,
    pub minute: u32,
    pub second: u32,
    pub nanosecond: u32,
}

/// The format of the timestamps in the status snapshot: date, `T`, time,
/// a dot, the fraction of the second in nanoseconds, `Z`.
pub const TIME_FORMAT: &'static str = "%FT%T.%fZ";

/// Makes `chrono::ParseError` known to the verifier, as a type it cannot look
/// into.
#[verifier::external_type_specification]
#[verifier::external_body]
pub struct ExParseError(chrono::ParseError);

/// The message that `error` displays.
pub uninterp spec fn time_error_text(error: chrono::ParseError) -> Seq<char>;

/// What `NaiveDateTime::parse_from_str` makes of `text` under `format`: the
/// date and time, or the message of the error that it reports.
pub uninterp spec fn parsed_timestamp(text: Seq<char>, format: Seq<char>) -> Result<
    Timestamp,
    Seq<char>,
>;

/// `NaiveDateTime::parse_from_str`, with the date and time taken apart into
/// their fields. Which of the two comes back, what the fields are and what
/// the error displays is `parsed_timestamp` of the arguments.
#[verifier::external_body]
pub(crate) fn parse_timestamp(text: &str, format: &str) -> (res: Result<
    Timestamp,
    chrono::ParseError,
>)
    ensures
        match res {
            Ok(stamp) => parsed_timestamp(text@, format@) == Ok::<Timestamp, Seq<char>>(stamp),
            Err(error) => parsed_timestamp(text@, format@) == Err::<Timestamp, Seq<char>>(
                time_error_text(error),
            ),
        },
{
    let t = NaiveDateTime::parse_from_str(text, format)?;
    let (year, month, day) = (t.year(), t.month(), t.day());
    let (hour, minute, second) = (t.hour(), t.minute(), t.second());
    Ok(Timestamp { year, month, day, hour, minute, second, nanosecond: t.nanosecond() })
}

/// `to_string` of a `chrono::ParseError`: the message that the error
/// displays.
#[verifier::external_body]
pub(crate) fn time_error_message(error: &chrono::ParseError) -> (message: String)
    ensures
        message@ == time_error_text(*error),
{
    error.to_string()
}

} // verus!
