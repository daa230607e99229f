//! Calendar dates as plain values, and their `Oct 5, 2026` rendering.

use vstd::prelude::*;

verus! {

/// A day of the proleptic Gregorian calendar, years 0 through 9999.
#[derive(Clone, Copy, Debug, PartialEq, Eq, Structural)]
pub struct CalendarDate {
    pub year: u16,
    pub month: u8,
    pub day: u8,
}

pub open spec fn is_leap_year(year: int) -> bool {
    year % 4 == 0 && (year % 100 != 0 || year % 400 == 0)
}

pub open spec fn days_in_month(year: int, month: int) -> int {
    if month == 2 {
        if is_leap_year(year) { 29 } else { 28 }
    } else if month == 4 || month == 6 || month == 9 || month == 11 {
        30
    } else {
        31
    }
}

pub open spec fn month_abbrev(month: int) -> Seq<char> {
    if month == 1 { seq!['J', 'a', 'n'] }
    else if month == 2 { seq!['F', 'e', 'b'] }
    else if month == 3 { seq!['M', 'a', 'r'] }
    else if month == 4 { seq!['A', 'p', 'r'] }
    else if month == 5 { seq!['M', 'a', 'y'] }
    else if month == 6 { seq!['J', 'u', 'n'] }
    else if month == 7 { seq!['J', 'u', 'l'] }
    else if month == 8 { seq!['A', 'u', 'g'] }
    else if month == 9 { seq!['S', 'e', 'p'] }
    else if month == 10 { seq!['O', 'c', 't'] }
    else if month == 11 { seq!['N', 'o', 'v'] }
    else { seq!['D', 'e', 'c'] }
}

/// The decimal digit for `d` in `0..10`.
pub open spec fn digit(d: int) -> char {
    ((d + 48) as u8) as char
}

/// The day of the month, padded on the left with a space to two places.
pub open spec fn day_text(day: int) -> Seq<char> {
    if day < 10 {
        seq![' ', digit(day)]
    } else {
        seq![digit(day / 10), digit(day % 10)]
    }
}

/// The year, padded on the left with zeros to four digits.
pub open spec fn year_text(year: int) -> Seq<char> {
    seq![digit(year / 1000), digit(year / 100 % 10), digit(year / 10 % 10), digit(year % 10)]
}

/// A date as the site prints it: month abbreviation, space-padded day, a
/// comma, a space and the four-digit year (`Oct19, 2026`, `Oct 5, 2026`).
pub open spec fn date_text(d: CalendarDate) -> Seq<char> {
    month_abbrev(d.month as int) + day_text(d.day as int) + seq![',', ' '] + year_text(
        d.year as int,
    )
}

impl CalendarDate {
    pub open spec fn wf(&self) -> bool {
        &&& self.year <= 9999
        &&& 1 <= self.month <= 12
        &&& 1 <= self.day <= days_in_month(self.year as int, self.month as int)
    }

    /// The date with these fields, if they name a day of the calendar.
    pub fn new(year: u16, month: u8, day: u8) -> (r: Option<CalendarDate>)
        ensures
            r matches Some(d) ==> d.wf() && d.year == year && d.month == month && d.day == day,
            r is Some <==> (CalendarDate { year, month, day }).wf(),
    {
        if year > 9999 || month < 1 || month > 12 || day < 1 {
            return None;
        }
        let leap = year % 4 == 0 && (year % 100 != 0 || year % 400 == 0);
        let last: u8 = if month == 2 {
            if leap { 29 } else { 28 }
        } else if month == 4 || month == 6 || month == 9 || month == 11 {
            30
        } else {
            31
        };
        if day > last {
            return None;
        }
        Some(CalendarDate { year, month, day })
    }

    /// The date as the site prints it.
    pub fn to_text(&self) -> (r: String)
        requires
            self.wf(),
        ensures
            r@ == date_text(*self),
    {
        format_date(self)
    }
}

/// Relies on chrono's `NaiveDate::from_ymd_opt`, which accepts every date
/// that `wf` admits, and on its `format("%b%e, %Y")`: `%b` is the English
/// month abbreviation, `%e` the day padded with a space to two places, `%Y`
/// the year zero-padded to four digits.
#[verifier::external_body]
fn format_date(d: &CalendarDate) -> (r: String)
    requires
        d.wf(),
    ensures
        r@ == date_text(*d),
{
    let date = chrono::NaiveDate::from_ymd_opt(d.year as i32, d.month as u32, d.day as u32);
    date.unwrap().format("%b%e, %Y").to_string()
}

} // verus!
