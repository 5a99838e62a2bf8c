//! Calendar dates, held as the number of their day.

use vstd::prelude::*;

verus! {

/// The earliest year that chrono's `NaiveDate` holds.
pub const MIN_YEAR: i32 = -262143;

/// The latest year that chrono's `NaiveDate` holds.
pub const MAX_YEAR: i32 = 262142;

pub open spec fn is_leap_year(y: int) -> bool {
    y % 4 == 0 && (y % 100 != 0 || y % 400 == 0)
}

pub open spec fn days_in_month(y: int, m: int) -> int {
    if m == 2 {
        if is_leap_year(y) { 29 } else { 28 }
    } else if m == 4 || m == 6 || m == 9 || m == 11 {
        30
    } else {
        31
    }
}

/// A day that the proleptic Gregorian calendar has, in the years chrono holds.
pub open spec fn is_valid_date(y: int, m: int, d: int) -> bool {
    &&& MIN_YEAR <= y <= MAX_YEAR
    &&& 1 <= m <= 12
    &&& 1 <= d <= days_in_month(y, m)
}

/// Days of all the years before `y`, counted from the start of year 1.
pub open spec fn days_before_year(y: int) -> int {
    let p = y - 1;
    365 * p + p / 4 - p / 100 + p / 400
}

pub open spec fn days_before_month(y: int, m: int) -> int {
    let common: int = if m == 1 {
        0
    } else if m == 2 {
        31
    } else if m == 3 {
        59
    } else if m == 4 {
        90
    } else if m == 5 {
        120
    } else if m == 6 {
        151
    } else if m == 7 {
        181
    } else if m == 8 {
        212
    } else if m == 9 {
        243
    } else if m == 10 {
        273
    } else if m == 11 {
        304
    } else {
        334
    };
    if m > 2 && is_leap_year(y) { common + 1 } else { common }
}

/// The number of a day in the proleptic Gregorian calendar, with 0001-01-01
/// as day 1.
pub open spec fn day_number(y: int, m: int, d: int) -> int {
    days_before_year(y) + days_before_month(y, m) + d
}

/// Relies on chrono's `NaiveDate::from_ymd_opt`, which gives `None` exactly
/// for a day that the calendar lacks or a year out of its range, and on
/// `Datelike::num_days_from_ce`, which numbers days with 0001-01-01 as day 1.
#[verifier::external_body]
fn chrono_day_number(year: i32, month: u32, day: u32) -> (r: Option<i32>)
    ensures
        r is Some <==> is_valid_date(year as int, month as int, day as int),
        r is Some ==> r->0 == day_number(year as int, month as int, day as int),
{
    chrono::NaiveDate::from_ymd_opt(year, month, day).map(|d| chrono::Datelike::num_days_from_ce(&d))
}

/// A calendar date, without a time of day.
#[derive(Clone, Copy, Debug, PartialEq, Eq, Structural)]
pub struct Date {
    day: i32,
}

impl View for Date {
    type V = int;

    /// The number of the day, with 0001-01-01 as day 1.
    closed spec fn view(&self) -> int {
        self.day as int
    }
}

impl Date {
    /// The date of the given year, month (1 to 12) and day of the month, or
    /// `None` where there is no such day.
    pub fn from_ymd(year: i32, month: u32, day: u32) -> (r: Option<Date>)
        ensures
            r is Some <==> is_valid_date(year as int, month as int, day as int),
            r is Some ==> r->0@ == day_number(year as int, month as int, day as int),
    {
        match chrono_day_number(year, month, day) {
            Some(n) => Some(Date { day: n }),
            None => None,
        }
    }

    /// The number of the day, with 0001-01-01 as day 1.
    pub fn days_from_ce(&self) -> (r: i32)
        ensures
            r as int == self@,
    {
        self.day
    }

    /// Whole days between the two dates, whichever comes first.
    pub fn days_apart(&self, other: &Date) -> (r: i64)
        ensures
            r as int == if self@ >= other@ { self@ - other@ } else { other@ - self@ },
    {
        let a = self.day as i64;
        let b = other.day as i64;
        if a >= b { a - b } else { b - a }
    }
}

} // verus!
