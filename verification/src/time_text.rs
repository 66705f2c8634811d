//! Date-time text, rendered by chrono's `strftime`-style formatting.
use vstd::prelude::*;
use std::fmt::Write;
use chrono::TimeZone;
use crate::models::DateTime;

verus! {

/// Text that chrono renders for the date-time (year, month, day, hour, minute,
/// second) taken as wall-clock time at the fixed UTC offset `offset_secs`, in
/// the `strftime`-style format `fmt`; `None` where chrono rejects the
/// date-time, the offset or the format.
pub uninterp spec fn offset_time_text(
    year: i32,
    month: u32,
    day: u32,
    hour: u32,
    minute: u32,
    second: u32,
    offset_secs: i32,
    fmt: Seq<char>,
) -> Option<Seq<char>>;

/// Text that chrono renders for the naive date-time in the format `fmt`;
/// `None` where chrono rejects the date-time or the format.
pub uninterp spec fn naive_time_text(
    year: i32,
    month: u32,
    day: u32,
    hour: u32,
    minute: u32,
    second: u32,
    fmt: Seq<char>,
) -> Option<Seq<char>>;

/// chrono: `NaiveDate::from_ymd_opt(..).and_hms_opt(..)`, then
/// `FixedOffset::east_opt(offset_secs).from_local_datetime(..).single()` (a
/// fixed offset gives every local time exactly one instant) and `format(fmt)`
/// written into a `String`.  The result is named, not stated: it is chrono's
/// formatting of these values.
#[verifier::external_body]
pub(crate) fn format_at_offset(dt: &DateTime, offset_secs: i32, fmt: &str) -> (r: Option<String>)
    ensures
        match r {
            Some(t) => offset_time_text(
                dt.year,
                dt.month,
                dt.day,
                dt.hour,
                dt.minute,
                dt.second,
                offset_secs,
                fmt@,
            ) == Some(t@),
            None => offset_time_text(
                dt.year,
                dt.month,
                dt.day,
                dt.hour,
                dt.minute,
                dt.second,
                offset_secs,
                fmt@,
            ) is None,
        },
{
    let naive = chrono::NaiveDate::from_ymd_opt(dt.year, dt.month, dt.day)?.and_hms_opt(
        dt.hour,
        dt.minute,
        dt.second,
    )?;
    let local = chrono::FixedOffset::east_opt(offset_secs)?.from_local_datetime(&naive).single()?;
    let mut out = String::new();
    write!(out, "{}", local.format(fmt)).ok()?;
    Some(out)
}

/// Is `year` a leap year of the proleptic Gregorian calendar?
pub open spec fn is_leap_year(year: int) -> bool {
    year % 4 == 0 && (year % 100 != 0 || year % 400 == 0)
}

/// The number of days of a month (1 to 12) of a year.
pub open spec fn days_in_month(year: int, month: int) -> int {
    if month == 2 {
        if is_leap_year(year) {
            29
        } else {
            28
        }
    } else if month == 4 || month == 6 || month == 9 || month == 11 {
        30
    } else {
        31
    }
}

/// Is the date-time a real one: a day of the calendar within the years that
/// chrono's dates cover (-262143 to 262142), and a time of day without a
/// leap second?
pub open spec fn valid_date_time(dt: DateTime) -> bool {
    &&& -262143 <= dt.year <= 262142
    &&& 1 <= dt.month <= 12
    &&& 1 <= dt.day <= days_in_month(dt.year as int, dt.month as int)
    &&& dt.hour < 24 && dt.minute < 60 && dt.second < 60
}

/// The date formats of the metadata documents: the year, the date, and the
/// date with the time.
pub open spec fn fixed_date_format(fmt: Seq<char>) -> bool {
    fmt == "%Y"@ || fmt == "%Y-%m-%d"@ || fmt == "%Y-%m-%d %H:%M:%S"@
}

/// chrono: `NaiveDate::from_ymd_opt(..).and_hms_opt(..)` and `format(fmt)`
/// written into a `String`.  The result is named, not stated: it is chrono's
/// formatting of these values.  `from_ymd_opt` accepts every calendar day
/// of the years -262143 to 262142 and `and_hms_opt` every time of day without
/// a leap second; writing the year, month, day, hour, minute and second into
/// a `String` does not fail, so the metadata date formats always give a text
/// for a valid date-time.
#[verifier::external_body]
pub(crate) fn format_naive(dt: &DateTime, fmt: &str) -> (r: Option<String>)
    ensures
        valid_date_time(*dt) && fixed_date_format(fmt@) ==> r is Some,
        match r {
            Some(t) => naive_time_text(
                dt.year,
                dt.month,
                dt.day,
                dt.hour,
                dt.minute,
                dt.second,
                fmt@,
            ) == Some(t@),
            None => naive_time_text(
                dt.year,
                dt.month,
                dt.day,
                dt.hour,
                dt.minute,
                dt.second,
                fmt@,
            ) is None,
        },
{
    let naive = chrono::NaiveDate::from_ymd_opt(dt.year, dt.month, dt.day)?.and_hms_opt(
        dt.hour,
        dt.minute,
        dt.second,
    )?;
    let mut out = String::new();
    write!(out, "{}", naive.format(fmt)).ok()?;
    Some(out)
}

} // verus!
