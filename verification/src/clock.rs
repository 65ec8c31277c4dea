//! The clock, and how a time is written out. Times are seconds since the
//! epoch, in UTC.

use vstd::prelude::*;

verus! {

/// Seconds in an hour.
pub const SECONDS_PER_HOUR: i64 = 3600;

/// Seconds in a day.
pub const SECONDS_PER_DAY: i64 = 86400;

/// The text that `chrono` writes for a UTC time, as in
/// `2015-05-15 00:00:00 UTC`; `None` for a time beyond its calendar.
pub uninterp spec fn utc_text(seconds: int) -> Option<Seq<char>>;

/// The text that `chrono` writes for a time with the offset zero, as in
/// `2015-05-15 00:00:00 +00:00`; `None` for a time beyond its calendar.
pub uninterp spec fn offset_text(seconds: int) -> Option<Seq<char>>;

/// The text that `chrono` writes for a UTC time in the pattern
/// `%Y-%m-%d %H:%M:%S`; `None` for a time beyond its calendar.
pub uninterp spec fn plain_text(seconds: int) -> Option<Seq<char>>;

/// Reads the system clock through `chrono::Utc::now` and gives its
/// `timestamp`. `chrono` counts the seconds since the epoch and refuses a
/// clock that stands before it, so the value is not negative; nothing else
/// is promised of it.
#[verifier::external_body]
pub(crate) fn unix_now() -> (now: i64)
    ensures
        0 <= now,
{
    chrono::Utc::now().timestamp()
}

/// Calls `chrono::DateTime::from_timestamp` and writes the time with
/// `to_string`. The text is named `utc_text`.
#[verifier::external_body]
pub(crate) fn format_utc(seconds: i64) -> (text: Option<String>)
    ensures
        crate::text::optional_text(text) == utc_text(seconds as int),
{
    match chrono::DateTime::from_timestamp(seconds, 0) {
        Some(time) => Some(time.to_string()),
        None => None,
    }
}

/// Calls `chrono::DateTime::from_timestamp`, gives the time the fixed offset
/// zero with `fixed_offset`, and writes it with `to_string`. The text is
/// named `offset_text`.
#[verifier::external_body]
pub(crate) fn format_offset(seconds: i64) -> (text: Option<String>)
    ensures
        crate::text::optional_text(text) == offset_text(seconds as int),
{
    match chrono::DateTime::from_timestamp(seconds, 0) {
        Some(time) => Some(time.fixed_offset().to_string()),
        None => None,
    }
}

/// Calls `chrono::DateTime::from_timestamp` and writes the time with
/// `format` in the pattern `%Y-%m-%d %H:%M:%S`. The text is named
/// `plain_text`.
#[verifier::external_body]
pub(crate) fn format_plain(seconds: i64) -> (text: Option<String>)
    ensures
        crate::text::optional_text(text) == plain_text(seconds as int),
{
    match chrono::DateTime::from_timestamp(seconds, 0) {
        Some(time) => Some(time.format("%Y-%m-%d %H:%M:%S").to_string()),
        None => None,
    }
}

/// The time `seconds` after `now`, where the clock can hold it.
pub open spec fn later(now: i64, seconds: int) -> Option<i64> {
    if i64::MIN <= now + seconds <= i64::MAX {
        Some((now + seconds) as i64)
    } else {
        None
    }
}

/// The time a number of hours after `now`, where the clock can hold it.
pub fn hours_later(now: i64, hours: u64) -> (time: Option<i64>)
    ensures
        time == later(now, hours * SECONDS_PER_HOUR),
{
    let sum: i128 = (now as i128) + (hours as i128) * 3600;
    if sum > i64::MAX as i128 {
        None
    } else {
        Some(sum as i64)
    }
}

/// The time a number of days after `now`, where the clock can hold it.
pub fn days_later(now: i64, days: u32) -> (time: Option<i64>)
    ensures
        time == later(now, days * SECONDS_PER_DAY),
{
    let sum: i128 = (now as i128) + (days as i128) * 86400;
    if sum > i64::MAX as i128 {
        None
    } else {
        Some(sum as i64)
    }
}

/// The day on which a time falls, counted from the epoch.
pub open spec fn day_of(seconds: i64) -> int {
    seconds as int / SECONDS_PER_DAY as int
}

/// The day on which a time falls, counted from the epoch.
pub fn day_number(seconds: i64) -> (day: i64)
    ensures
        day == day_of(seconds),
{
    if seconds >= 0 {
        seconds / SECONDS_PER_DAY
    } else {
        let past: i64 = -(seconds + 1);
        -(past / SECONDS_PER_DAY) - 1
    }
}

} // verus!
