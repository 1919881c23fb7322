//! ISO-8601 text of timestamps, dates and times of day.
//!
//! The text is produced by `chrono`. Verus does not read `chrono`: each
//! function below names the text that one `chrono` constructor followed by
//! the standard formatting gives, and the contract of the function that
//! makes the call says only that its result is that text.

use crate::text::opt_text;
use vstd::prelude::*;

verus! {

/// The `%+` text of the UTC instant `nanos` nanoseconds after the epoch.
pub uninterp spec fn timestamp_nanos_text(nanos: int) -> Seq<char>;

/// The `%+` text of the UTC instant `micros` microseconds after the epoch,
/// where `chrono` can represent that instant.
pub uninterp spec fn timestamp_micros_text(micros: int) -> Option<Seq<char>>;

/// The `%+` text of the UTC instant `millis` milliseconds after the epoch,
/// where `chrono` can represent that instant.
pub uninterp spec fn timestamp_millis_text(millis: int) -> Option<Seq<char>>;

/// The `%+` text of the UTC instant `secs` seconds after the epoch, where
/// `chrono` can represent that instant.
pub uninterp spec fn timestamp_secs_text(secs: int) -> Option<Seq<char>>;

/// The text of the calendar date that lies `days` days after the last day
/// of the year 1 BCE, where `chrono` can represent that date.
pub uninterp spec fn date_text(days: int) -> Option<Seq<char>>;

/// The text of the time of day `secs` seconds and `nano` nanoseconds after
/// midnight, where `chrono` accepts the pair.
pub uninterp spec fn time_text(secs: int, nano: int) -> Option<Seq<char>>;

/// Calls `chrono::DateTime::from_timestamp_nanos` and formats the instant
/// with `%+`. Trusted: the result is the text named `timestamp_nanos_text`.
#[verifier::external_body]
pub(crate) fn format_timestamp_nanos(nanos: i64) -> (text: String)
    ensures
        text@ == timestamp_nanos_text(nanos as int),
{
    chrono::DateTime::from_timestamp_nanos(nanos).format("%+").to_string()
}

/// Calls `chrono::DateTime::from_timestamp_micros` and formats the instant
/// with `%+`. Trusted: the result is the text named `timestamp_micros_text`,
/// absent where `chrono` returns no instant.
#[verifier::external_body]
pub(crate) fn format_timestamp_micros(micros: i64) -> (text: Option<String>)
    ensures
        opt_text(text) == timestamp_micros_text(micros as int),
{
    match chrono::DateTime::from_timestamp_micros(micros) {
        Some(instant) => Some(instant.format("%+").to_string()),
        None => None,
    }
}

/// Calls `chrono::DateTime::from_timestamp_millis` and formats the instant
/// with `%+`. Trusted: the result is the text named `timestamp_millis_text`,
/// absent where `chrono` returns no instant.
#[verifier::external_body]
pub(crate) fn format_timestamp_millis(millis: i64) -> (text: Option<String>)
    ensures
        opt_text(text) == timestamp_millis_text(millis as int),
{
    match chrono::DateTime::from_timestamp_millis(millis) {
        Some(instant) => Some(instant.format("%+").to_string()),
        None => None,
    }
}

/// Calls `chrono::DateTime::from_timestamp` with no nanoseconds and formats
/// the instant with `%+`. Trusted: the result is the text named
/// `timestamp_secs_text`, absent where `chrono` returns no instant.
#[verifier::external_body]
pub(crate) fn format_timestamp_secs(secs: i64) -> (text: Option<String>)
    ensures
        opt_text(text) == timestamp_secs_text(secs as int),
{
    match chrono::DateTime::from_timestamp(secs, 0) {
        Some(instant) => Some(instant.format("%+").to_string()),
        None => None,
    }
}

/// Calls `chrono::NaiveDate::from_num_days_from_ce_opt` and writes the date
/// out. Trusted: the result is the text named `date_text`, absent where
/// `chrono` returns no date.
#[verifier::external_body]
pub(crate) fn format_date(days: i32) -> (text: Option<String>)
    ensures
        opt_text(text) == date_text(days as int),
{
    match chrono::NaiveDate::from_num_days_from_ce_opt(days) {
        Some(date) => Some(date.to_string()),
        None => None,
    }
}

/// Calls `chrono::NaiveTime::from_num_seconds_from_midnight_opt` and writes
/// the time out. Trusted: the result is the text named `time_text`, absent
/// where `chrono` returns no time.
#[verifier::external_body]
pub(crate) fn format_time(secs: u32, nano: u32) -> (text: Option<String>)
    ensures
        opt_text(text) == time_text(secs as int, nano as int),
{
    match chrono::NaiveTime::from_num_seconds_from_midnight_opt(secs, nano) {
        Some(time) => Some(time.to_string()),
        None => None,
    }
}

} // verus!
