//! Calendar days and local timestamps, with the date-only text encoding of a day.

use vstd::prelude::*;
use chrono::{Datelike, Timelike};

verus! {

/// The pattern under which a day is written and read: `YYYY-MM-DD`.
pub const DAY_PATTERN: &'static str = "%Y-%m-%d";

/// The earliest and latest years that the calendar library represents.
pub const MIN_YEAR: i32 = -262143;
pub const MAX_YEAR: i32 = 262142;

pub open spec fn is_leap_year(year: int) -> bool {
    (year % 4 == 0 && year % 100 != 0) || year % 400 == 0
}

pub open spec fn days_in_month(year: int, month: int) -> int {
    if month == 2 {
        if is_leap_year(year) { 29 } else { 28 }
    } else if month == 4 || month == 6 || month == 9 || month == 11 {
        30
    } else {
        31
    }
}

/// A calendar day, without a time of day.
#[derive(Clone, Copy, Debug, PartialEq, Eq, Structural)]
pub struct Day {
    pub year: i32,
    pub month: u32,
    pub day: u32,
}

impl Day {
    /// The day exists in the proleptic Gregorian calendar, within the years represented.
    pub open spec fn wf(self) -> bool {
        &&& MIN_YEAR <= self.year <= MAX_YEAR
        &&& 1 <= self.month <= 12
        &&& 1 <= self.day <= days_in_month(self.year as int, self.month as int)
    }
}

/// A local date and time of day, with the offset of the local zone from UTC.
#[derive(Clone, Copy, Debug, PartialEq, Eq, Structural)]
pub struct Timestamp {
    pub date: Day,
    pub hour: u32,
    pub minute: u32,
    pub second: u32,
    /// Above 999_999_999 only during a leap second.
    pub nanosecond: u32,
    pub offset_seconds: i32,
}

impl Timestamp {
    pub open spec fn wf(self) -> bool {
        &&& self.date.wf()
        &&& self.hour < 24
        &&& self.minute < 60
        &&& self.second < 60
        &&& self.nanosecond < 2_000_000_000
        &&& -86_400 < self.offset_seconds < 86_400
    }
}

/// What the calendar library reads from `s` under `pattern`, as (year, month, day).
pub uninterp spec fn parsed_date(s: Seq<char>, pattern: Seq<char>) -> Option<(int, int, int)>;

/// What the calendar library writes for a day under `pattern`.
pub uninterp spec fn formatted_date(year: int, month: int, day: int, pattern: Seq<char>) -> Seq<char>;

/// Relies on chrono::Local::now: the current local date and time. It depends
/// on the clock and the zone, so only the ranges of its fields are stated.
/// chrono panics only where the system clock stands before 1970.
#[verifier::external_body]
pub(crate) fn local_now() -> (r: Timestamp)
    ensures
        r.wf(),
{
    let t = chrono::Local::now();
    Timestamp {
        date: Day { year: t.year(), month: t.month(), day: t.day() },
        hour: t.hour(),
        minute: t.minute(),
        second: t.second(),
        nanosecond: t.nanosecond(),
        offset_seconds: t.offset().local_minus_utc(),
    }
}

/// Relies on chrono::NaiveDate::parse_from_str: a date read from `s` under
/// `pattern`; a date it returns always exists in the calendar.
#[verifier::external_body]
fn parse_date(s: &str, pattern: &str) -> (r: Result<Day, chrono::ParseError>)
    ensures
        match r {
            Ok(d) => d.wf() && parsed_date(s@, pattern@) == Some(
                (d.year as int, d.month as int, d.day as int),
            ),
            Err(_) => parsed_date(s@, pattern@) is None,
        },
{
    match chrono::NaiveDate::parse_from_str(s, pattern) {
        Ok(d) => Ok(Day { year: d.year(), month: d.month(), day: d.day() }),
        Err(e) => Err(e),
    }
}

/// Relies on chrono::NaiveDate::format: the text of a date under a pattern.
/// The date must exist (chrono::NaiveDate::from_ymd_opt gives none else) and
/// the pattern must be one that chrono can write (else `to_string` panics).
#[verifier::external_body]
fn format_date(d: &Day, pattern: &str) -> (r: String)
    requires
        d.wf(),
        pattern@ == DAY_PATTERN@,
    ensures
        r@ == formatted_date(d.year as int, d.month as int, d.day as int, pattern@),
{
    let date = chrono::NaiveDate::from_ymd_opt(d.year, d.month, d.day).unwrap();
    date.format(pattern).to_string()
}

#[verifier::external_type_specification]
#[verifier::external_body]
pub struct ExParseError(chrono::ParseError);

/// A day's text did not follow `YYYY-MM-DD` or named no calendar day.
#[derive(Clone, Copy, Debug, PartialEq, Eq, Structural)]
pub struct DayFormatError;

/// Writes a day as `YYYY-MM-DD`.
pub fn serialize(date: &Day) -> (r: String)
    requires
        date.wf(),
    ensures
        r@ == formatted_date(date.year as int, date.month as int, date.day as int, DAY_PATTERN@),
{
    format_date(date, DAY_PATTERN)
}

/// Reads a day written as `YYYY-MM-DD`; anything else is a format error.
pub fn deserialize(s: &str) -> (r: Result<Day, DayFormatError>)
    ensures
        match parsed_date(s@, DAY_PATTERN@) {
            Some((y, m, d)) => r matches Ok(day) && day.wf() && day.year == y && day.month == m
                && day.day == d,
            None => r == Err::<Day, DayFormatError>(DayFormatError),
        },
{
    match parse_date(s, DAY_PATTERN) {
        Ok(d) => Ok(d),
        Err(_) => Err(DayFormatError),
    }
}

} // verus!
