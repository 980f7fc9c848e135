//! Calendar dates of the proleptic Gregorian calendar, held as year, month and day.

use vstd::prelude::*;

verus! {

/// The first year that a date can lie in.
pub const MIN_YEAR: i32 = -262143;

/// The last year that a date can lie in.
pub const MAX_YEAR: i32 = 262142;

/// Whether `year` has a 29th of February.
pub open spec fn is_leap_year(year: int) -> bool {
    year % 4 == 0 && (year % 100 != 0 || year % 400 == 0)
}

/// The number of days of `month` in `year`.
pub open spec fn days_in_month(year: int, month: int) -> int {
    if month == 2 {
        if is_leap_year(year) {
            29
        } else {
            28
        }
    } else if month == 4 || month == 6 || month == 9 || month == 11 {
        30
    } else {
        31
    }
}

/// Whether the three numbers name a day of the calendar, within the years that a date can hold.
pub open spec fn is_calendar_date(year: int, month: int, day: int) -> bool {
    &&& MIN_YEAR <= year <= MAX_YEAR
    &&& 1 <= month <= 12
    &&& 1 <= day <= days_in_month(year, month)
}

/// The day after the given one, as year, month and day.
pub open spec fn next_calendar_date(year: int, month: int, day: int) -> (int, int, int) {
    if day < days_in_month(year, month) {
        (year, month, day + 1)
    } else if month < 12 {
        (year, month + 1, 1)
    } else {
        (year + 1, 1, 1)
    }
}

/// A day of the calendar. Every value is an existing day: the fields are private and
/// the type's invariant is [`is_calendar_date`].
#[derive(Clone, Copy, Debug, PartialEq, Eq)]
pub struct Date {
    year: i32,
    month: u8,
    day: u8,
}

impl View for Date {
    type V = (int, int, int);

    closed spec fn view(&self) -> (int, int, int) {
        (self.year as int, self.month as int, self.day as int)
    }
}

impl Date {
    /// What holds of every date that a program holds: it is a day of the calendar.
    #[verifier::type_invariant]
    pub open spec fn is_valid(self) -> bool {
        is_calendar_date(self@.0, self@.1, self@.2)
    }

    /// The date of the given year, month and day, where that day exists.
    pub fn from_ymd_opt(year: i32, month: u32, day: u32) -> (date: Option<Date>)
        ensures
            date is Some <==> is_calendar_date(year as int, month as int, day as int),
            date matches Some(d) ==> d@ == (year as int, month as int, day as int),
    {
        if year < MIN_YEAR || year > MAX_YEAR || month < 1 || month > 12 || day < 1 {
            return None;
        }
        let leap: bool = year % 4 == 0 && (year % 100 != 0 || year % 400 == 0);
        let last: u32 = if month == 2 {
            if leap {
                29
            } else {
                28
            }
        } else if month == 4 || month == 6 || month == 9 || month == 11 {
            30
        } else {
            31
        };
        if day > last {
            None
        } else {
            Some(Date { year, month: month as u8, day: day as u8 })
        }
    }

    /// The year, which may be zero or negative.
    pub fn year(&self) -> (year: i32)
        ensures
            year == self@.0,
    {
        self.year
    }

    /// The month, from 1 to 12.
    pub fn month(&self) -> (month: u32)
        ensures
            month == self@.1,
    {
        self.month as u32
    }

    /// The day of the month, from 1.
    pub fn day(&self) -> (day: u32)
        ensures
            day == self@.2,
    {
        self.day as u32
    }

    /// The day after this one, or `None` for the last day of [`MAX_YEAR`].
    pub fn succ_opt(&self) -> (next: Option<Date>)
        ensures
            next is None <==> self@ == (MAX_YEAR as int, 12int, 31int),
            next matches Some(d) ==> d@ == next_calendar_date(self@.0, self@.1, self@.2),
    {
        proof {
            use_type_invariant(self);
        }
        match following_day(self.year, self.month as u32, self.day as u32) {
            Some((year, month, day)) => Some(Date { year, month: month as u8, day: day as u8 }),
            None => None,
        }
    }
}

/// Calls `chrono::NaiveDate::succ_opt` on the given day of chrono's calendar. The contract
/// claims what chrono documents: the result is the next calendar date, and there is none
/// after the last day that chrono can hold, the 31st of December of [`MAX_YEAR`].
#[verifier::external_body]
fn following_day(year: i32, month: u32, day: u32) -> (next: Option<(i32, u32, u32)>)
    requires
        is_calendar_date(year as int, month as int, day as int),
    ensures
        next is None <==> (year == MAX_YEAR && month == 12 && day == 31),
        next matches Some(n) ==> (n.0 as int, n.1 as int, n.2 as int) == next_calendar_date(
            year as int,
            month as int,
            day as int,
        ),
{
    let next = chrono::NaiveDate::from_ymd_opt(year, month, day)?.succ_opt()?;
    Some((chrono::Datelike::year(&next), chrono::Datelike::month(&next), chrono::Datelike::day(&next)))
}

} // verus!
