//! The calendar: what only `chrono` computes for this library.
//!
//! Reading and writing dates and times as text is left to `chrono`. Each
//! function here makes one such call on plain values and hands plain values
//! back. Verus does not look into their bodies: what their contracts say is
//! taken on trust, and every proof about parsed or written text rests on them.
//!
//! A date is a day number, counted as `chrono` counts it, with January 1 of
//! the year 1 as day 1. A time of day is a count of seconds since midnight
//! and a count of nanoseconds, which is a thousand million or more only
//! within a leap second. An offset is a count of seconds east of UTC.

use chrono::format::ParseError;
use chrono::{DateTime, Datelike, FixedOffset, NaiveDate, NaiveTime, TimeZone, Timelike};
use std::fmt::Write;
use vstd::prelude::*;

verus! {

/// The error that `chrono` returns when a text does not match a format.
#[verifier::external_type_specification]
#[verifier::external_body]
pub struct ExParseError(ParseError);

/// What `chrono::NaiveTime::parse_from_str` makes of `text` under the format
/// `%H:%M:%S`: the seconds since midnight and the nanoseconds of the time
/// that it reads, or `None` where it rejects the text.
pub uninterp spec fn clock_reading(text: Seq<char>) -> Option<(int, int)>;

/// What `chrono::DateTime::parse_from_str` makes of `text` under the format
/// `%Y-%m-%d %H:%M:%S%:z`: the day number, the seconds since midnight and the
/// nanoseconds of the local date and time that it reads, and the offset in
/// seconds east of UTC, or `None` where it rejects the text.
pub uninterp spec fn stamp_reading(text: Seq<char>) -> Option<(int, int, int, int)>;

/// What `chrono::DateTime::format` writes under the format
/// `%Y-%m-%d %H:%M:%S%:z` for the local date and time and the offset given,
/// or `None` where `chrono` holds no such date, time or offset.
pub uninterp spec fn stamp_text(days: int, secs: int, nanos: int, offset: int) -> Option<Seq<char>>;

/// Calls `chrono::NaiveTime::parse_from_str` with the format `%H:%M:%S`.
///
/// Trusted: the call succeeds exactly where `clock_reading` is some pair, and
/// then returns that pair; the seconds are below 86400 and the nanoseconds
/// below two thousand million, as `chrono` keeps every `NaiveTime`.
#[verifier::external_body]
pub(crate) fn read_clock(text: &str) -> (r: Result<(u32, u32), ParseError>)
    ensures
        r is Ok <==> clock_reading(text@) is Some,
        r matches Ok(v) ==> clock_reading(text@) == Some((v.0 as int, v.1 as int))
            && v.0 < 86_400 && v.1 < 2_000_000_000,
{
    let time = NaiveTime::parse_from_str(text, "%H:%M:%S")?;
    Ok((time.num_seconds_from_midnight(), time.nanosecond()))
}

/// Calls `chrono::DateTime::parse_from_str` with the format
/// `%Y-%m-%d %H:%M:%S%:z`.
///
/// Trusted: the call succeeds exactly where `stamp_reading` is some value,
/// and then returns that value; the seconds are below 86400, the nanoseconds
/// below two thousand million, and the offset lies strictly between one day
/// west and one day east, as `chrono` keeps every `NaiveTime` and
/// `FixedOffset`.
#[verifier::external_body]
pub(crate) fn read_stamp(text: &str) -> (r: Result<(i32, u32, u32, i32), ParseError>)
    ensures
        r is Ok <==> stamp_reading(text@) is Some,
        r matches Ok(v) ==> stamp_reading(text@) == Some(
            (v.0 as int, v.1 as int, v.2 as int, v.3 as int),
        ) && v.1 < 86_400 && v.2 < 2_000_000_000 && -86_400 < v.3 < 86_400,
{
    let stamp = DateTime::parse_from_str(text, "%Y-%m-%d %H:%M:%S%:z")?;
    let local = stamp.naive_local();
    Ok(
        (
            local.date().num_days_from_ce(),
            local.time().num_seconds_from_midnight(),
            local.time().nanosecond(),
            stamp.offset().local_minus_utc(),
        ),
    )
}

/// Calls `chrono::DateTime::format` with the format `%Y-%m-%d %H:%M:%S%:z`
/// on the date, time and offset that `chrono` builds from the four numbers.
///
/// Trusted: the result is `stamp_text` of the four numbers, `None` where
/// `chrono` refuses to build the date, the time or the offset.
#[verifier::external_body]
pub(crate) fn write_stamp(days: i32, secs: u32, nanos: u32, offset: i32) -> (r: Option<String>)
    ensures
        r is Some <==> stamp_text(days as int, secs as int, nanos as int, offset as int) is Some,
        r matches Some(s) ==> stamp_text(days as int, secs as int, nanos as int, offset as int)
            == Some(s@),
{
    let date = NaiveDate::from_num_days_from_ce_opt(days)?;
    let time = NaiveTime::from_num_seconds_from_midnight_opt(secs, nanos)?;
    let zone = FixedOffset::east_opt(offset)?;
    let stamp = zone.from_local_datetime(&date.and_time(time)).single()?;
    let mut text = String::new();
    write!(text, "{}", stamp.format("%Y-%m-%d %H:%M:%S%:z")).ok()?;
    Some(text)
}

} // verus!
