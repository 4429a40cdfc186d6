//! Calendar dates as plain year, month and day.
use crate::text::{decimal, digit, magnitude, two_digits};
use chrono::Datelike;
use vstd::prelude::*;

verus! {

/// The earliest year that a date can lie in.
pub const MIN_YEAR: i32 = -262143;

/// The latest year that a date can lie in.
pub const MAX_YEAR: i32 = 262142;

/// Whether `year` has a 29th of February in the proleptic Gregorian calendar.
pub open spec fn is_leap_year(year: int) -> bool {
    year % 4 == 0 && (year % 100 != 0 || year % 400 == 0)
}

/// The number of days of `month` (1 to 12) in `year`.
pub open spec fn days_in_month(year: int, month: int) -> int {
    if month == 2 {
        if is_leap_year(year) {
            29
        } else {
            28
        }
    } else if month == 4 || month == 6 || month == 9 || month == 11 {
        30
    } else {
        31
    }
}

/// Whether the calendar has the day `year`-`month`-`day`, within the years
/// that a date can lie in.
pub open spec fn is_calendar_day(year: int, month: int, day: int) -> bool {
    &&& MIN_YEAR <= year <= MAX_YEAR
    &&& 1 <= month <= 12
    &&& 1 <= day <= days_in_month(year, month)
}

/// A day of the proleptic Gregorian calendar.
#[derive(Clone, Copy, Debug, PartialEq, Eq, Structural)]
pub struct Date {
    pub year: i32,
    pub month: u32,
    pub day: u32,
}

/// Builds a date with `chrono::NaiveDate::from_ymd_opt` and reads year, month
/// and day back from it. Trusted: chrono returns a date exactly for the days
/// that the calendar has, within its range of years, and that date carries
/// the year, month and day it was made from.
#[verifier::external_body]
fn naive_date_from_ymd(year: i32, month: u32, day: u32) -> (made: Option<Date>)
    ensures
        made.is_some() <==> is_calendar_day(year as int, month as int, day as int),
        made matches Some(d) ==> d.year == year && d.month == month && d.day == day,
{
    match chrono::NaiveDate::from_ymd_opt(year, month, day) {
        Some(d) => Some(Date { year: d.year(), month: d.month(), day: d.day() }),
        None => None,
    }
}

/// The digits of `n`, with zeros in front of fewer than four.
pub open spec fn four_digits_or_more(n: nat) -> Seq<char> {
    if n < 10 {
        seq!['0', '0', '0'] + decimal(n)
    } else if n < 100 {
        seq!['0', '0'] + decimal(n)
    } else if n < 1000 {
        seq!['0'] + decimal(n)
    } else {
        decimal(n)
    }
}

/// A year as a date is written with it: four digits for the years 0 to
/// 9999; for any other year a sign, and four digits or more.
pub open spec fn year_text(year: int) -> Seq<char> {
    if 0 <= year <= 9999 {
        two_digits(year / 100) + two_digits(year % 100)
    } else if year < 0 {
        seq!['-'] + four_digits_or_more(magnitude(year))
    } else {
        seq!['+'] + four_digits_or_more(magnitude(year))
    }
}

/// A date as it is written: year, month and day, with `-` between them.
pub open spec fn date_text(year: int, month: int, day: int) -> Seq<char> {
    year_text(year) + seq!['-'] + two_digits(month) + seq!['-'] + two_digits(day)
}

/// Writes a date with the `Display` of `chrono::NaiveDate`. Trusted: chrono
/// writes the year in four digits (outside 0 to 9999 with a sign and in at
/// least four digits), then month and day in two digits each, with `-`
/// between them.
#[verifier::external_body]
fn naive_date_to_string(date: &Date) -> (text: String)
    requires
        date.wf(),
    ensures
        text@ == date_text(date.year as int, date.month as int, date.day as int),
{
    match chrono::NaiveDate::from_ymd_opt(date.year, date.month, date.day) {
        Some(d) => d.to_string(),
        None => String::new(),
    }
}

impl Date {
    /// This date as a text, such as `2025-03-09`.
    pub fn to_text(&self) -> (text: String)
        requires
            self.wf(),
        ensures
            text@ == date_text(self.year as int, self.month as int, self.day as int),
    {
        naive_date_to_string(self)
    }

    /// A date is well formed when the calendar has that day.
    pub open spec fn wf(&self) -> bool {
        is_calendar_day(self.year as int, self.month as int, self.day as int)
    }

    /// The date `year`-`month`-`day`, or `None` where the calendar has no
    /// such day or the year is out of range.
    pub fn from_ymd_opt(year: i32, month: u32, day: u32) -> (made: Option<Date>)
        ensures
            made == if is_calendar_day(year as int, month as int, day as int) {
                Some(Date { year, month, day })
            } else {
                None
            },
    {
        naive_date_from_ymd(year, month, day)
    }

    /// The last day of the year that `self` lies in.
    pub fn end_of_year(&self) -> (last: Date)
        requires
            self.wf(),
        ensures
            last == (Date { year: self.year, month: 12, day: 31 }),
            last.wf(),
    {
        naive_date_from_ymd(self.year, 12, 31).unwrap()
    }
}

} // verus!
