//! Calendar dates of the proleptic Gregorian calendar.

use vstd::prelude::*;
use chrono::Datelike;
use crate::error::ErrorKind;
use crate::text::{digit_char, digit_to_char, string_of};

verus! {

/// The first year that a date can have.
pub const MIN_YEAR: i32 = -262143i32;

/// The last year that a date can have.
pub const MAX_YEAR: i32 = 262142i32;

/// A calendar date. A date that the library hands out is valid.
#[derive(Clone, Copy, Debug, PartialEq, Eq, Structural)]
pub struct Date {
    pub year: i32,
    pub month: u32,
    pub day: u32,
}

pub open spec fn is_leap_year(year: int) -> bool {
    year % 4 == 0 && (year % 100 != 0 || year % 400 == 0)
}

pub open spec fn days_in_month(year: int, month: int) -> int {
    if month == 2 {
        if is_leap_year(year) {
            29
        } else {
            28
        }
    } else if month == 4 || month == 6 || month == 9 || month == 11 {
        30
    } else {
        31
    }
}

/// Year, month and day name a day of the calendar.
pub open spec fn is_calendar_date(year: int, month: int, day: int) -> bool {
    &&& MIN_YEAR <= year <= MAX_YEAR
    &&& 1 <= month <= 12
    &&& 1 <= day <= days_in_month(year, month)
}

/// What the resolver returns for a triple.
pub open spec fn spec_resolve(year: i32, month: u32, day: u32) -> Result<Date, ErrorKind> {
    if is_calendar_date(year as int, month as int, day as int) {
        Ok(Date { year, month, day })
    } else {
        Err(ErrorKind::InvalidDate)
    }
}

/// The date of a triple, where the calendar has it.
///
/// Trusted: `chrono::NaiveDate::from_ymd_opt` returns a date exactly for the
/// days of the proleptic Gregorian calendar in the years that chrono
/// supports, and `Datelike::year`, `month` and `day` of that date are the
/// three arguments.
#[verifier::external_body]
fn calendar_date(year: i32, month: u32, day: u32) -> (out: Option<Date>)
    ensures
        out == (if is_calendar_date(year as int, month as int, day as int) {
            Some(Date { year, month, day })
        } else {
            None
        }),
{
    chrono::NaiveDate::from_ymd_opt(year, month, day).map(
        |d| Date { year: d.year(), month: d.month(), day: d.day() },
    )
}

impl Date {
    pub open spec fn is_valid(self) -> bool {
        is_calendar_date(self.year as int, self.month as int, self.day as int)
    }

    /// Whether the date can be written as `YYYY-MM-DD`: with a year of four
    /// digits, and month and day of two.
    pub open spec fn has_text(self) -> bool {
        0 <= self.year <= 9999 && self.month <= 99 && self.day <= 99
    }

    /// The literal `YYYY-MM-DD` of the date.
    pub open spec fn spec_text(self) -> Seq<char> {
        let y = self.year as nat;
        let m = self.month as nat;
        let d = self.day as nat;
        seq![
            digit_char(y / 1000),
            digit_char(y % 1000 / 100),
            digit_char(y % 1000 % 100 / 10),
            digit_char(y % 1000 % 100 % 10),
            '-',
            digit_char(m / 10),
            digit_char(m % 10),
            '-',
            digit_char(d / 10),
            digit_char(d % 10),
        ]
    }

    /// The literal `YYYY-MM-DD` of the date, where it can be written so.
    pub fn to_text(&self) -> (out: Option<String>)
        ensures
            out is Some <==> self.has_text(),
            out matches Some(text) ==> text@ == self.spec_text(),
    {
        if self.year < 0 || self.year > 9999 || self.month > 99 || self.day > 99 {
            return None;
        }
        let y = self.year as usize;
        let m = self.month as usize;
        let d = self.day as usize;
        let mut chars: Vec<char> = Vec::new();
        chars.push(digit_to_char(y / 1000));
        chars.push(digit_to_char(y % 1000 / 100));
        chars.push(digit_to_char(y % 1000 % 100 / 10));
        chars.push(digit_to_char(y % 1000 % 100 % 10));
        chars.push('-');
        chars.push(digit_to_char(m / 10));
        chars.push(digit_to_char(m % 10));
        chars.push('-');
        chars.push(digit_to_char(d / 10));
        chars.push(digit_to_char(d % 10));
        assert(chars@ =~= self.spec_text());
        Some(string_of(chars.as_slice()))
    }

    /// Resolves a triple to a date: the date with that year, month and day
    /// where they name a day of the calendar, the invalid-date failure for
    /// every other triple.
    pub fn from_ymd(year: i32, month: u32, day: u32) -> (out: Result<Date, ErrorKind>)
        ensures
            out == spec_resolve(year, month, day),
            out matches Ok(d) ==> d.is_valid() && d.year == year && d.month == month && d.day == day,
            out is Ok <==> is_calendar_date(year as int, month as int, day as int),
    {
        match calendar_date(year, month, day) {
            Some(d) => Ok(d),
            None => Err(ErrorKind::InvalidDate),
        }
    }
}

/// Resolving the year, month and day of a valid date gives that date back,
/// and a triple resolves to a date only if it is one.
pub proof fn lemma_resolve_round_trip(year: i32, month: u32, day: u32)
    ensures
        spec_resolve(year, month, day) matches Ok(d) ==> spec_resolve(d.year, d.month, d.day) == Ok::<Date, ErrorKind>(d),
        (Date { year, month, day }).is_valid() ==> spec_resolve(year, month, day) == Ok::<Date, ErrorKind>(Date { year, month, day }),
        !(Date { year, month, day }).is_valid() ==> spec_resolve(year, month, day) == Err::<Date, ErrorKind>(ErrorKind::InvalidDate),
{
}

} // verus!
