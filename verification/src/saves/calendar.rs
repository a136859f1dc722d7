//! Calendar dates as they stand in the names of save files: a day, a month
//! and a year of four digits.

use vstd::prelude::*;

verus! {

/// The last year that four digits can write.
pub const LAST_YEAR: u16 = 9999;

/// Whether `year` has a 29th of February.
pub open spec fn is_leap_year(year: int) -> bool {
    year % 4 == 0 && (year % 100 != 0 || year % 400 == 0)
}

/// The number of days of `month` in `year`, for the months from 1 to 12.
pub open spec fn days_in_month(year: int, month: int) -> int {
    if month == 2 {
        if is_leap_year(year) {
            29
        } else {
            28
        }
    } else if month == 4 || month == 6 || month == 9 || month == 11 {
        30
    } else {
        31
    }
}

/// Whether the calendar has a day `day` in month `month` of `year`.
pub open spec fn is_calendar_date(year: int, month: int, day: int) -> bool {
    1 <= month <= 12 && 1 <= day <= days_in_month(year, month)
}

/// Asks `chrono::NaiveDate::from_ymd_opt` whether a date exists. For a year
/// from 0 to 9999, well inside the years that `chrono` can hold, it gives a
/// date exactly when the month is one of the twelve and the month has that
/// day in that year, by the rules of the proleptic Gregorian calendar. This
/// is taken on trust from `chrono`.
#[verifier::external_body]
fn date_exists(year: i32, month: u32, day: u32) -> (r: bool)
    requires
        0 <= year <= LAST_YEAR,
    ensures
        r == is_calendar_date(year as int, month as int, day as int),
{
    chrono::NaiveDate::from_ymd_opt(year, month, day).is_some()
}

/// A day of the calendar, in a year from 0 to 9999.
#[derive(Debug, Clone, Copy, PartialEq, Eq, Hash, Structural)]
pub struct SaveDate {
    day: u8,
    month: u8,
    year: u16,
}

impl SaveDate {
    /// The day of the month, from 1.
    pub closed spec fn day_of(self) -> int {
        self.day as int
    }

    /// The month, from 1 to 12.
    pub closed spec fn month_of(self) -> int {
        self.month as int
    }

    /// The year, from 0 to 9999.
    pub closed spec fn year_of(self) -> int {
        self.year as int
    }

    /// The date is a day of the calendar.
    #[verifier::type_invariant]
    pub open spec fn is_valid(self) -> bool {
        &&& 0 <= self.year_of() <= LAST_YEAR
        &&& is_calendar_date(self.year_of(), self.month_of(), self.day_of())
    }

    /// Two dates with the same day, month and year are the same date.
    pub proof fn lemma_same_date(self, other: SaveDate)
        ensures
            self == other <==> self.day_of() == other.day_of() && self.month_of() == other.month_of()
                && self.year_of() == other.year_of(),
    {
    }

    /// The date with this day, month and year, where the calendar has it and
    /// the year is from 0 to 9999; `None` for every other triple.
    pub fn new(day: u32, month: u32, year: i32) -> (r: Option<SaveDate>)
        ensures
            r is Some <==> 0 <= year <= LAST_YEAR && is_calendar_date(
                year as int,
                month as int,
                day as int,
            ),
            r matches Some(date) ==> date.is_valid() && date.day_of() == day && date.month_of() == month
                && date.year_of() == year,
    {
        if year < 0 || year > 9999 {
            return None;
        }
        if date_exists(year, month, day) {
            Some(SaveDate { day: day as u8, month: month as u8, year: year as u16 })
        } else {
            None
        }
    }

    /// The day of the month.
    pub fn day(&self) -> (r: u8)
        ensures
            r == self.day_of(),
            1 <= r <= 31,
    {
        proof {
            use_type_invariant(self);
        }
        self.day
    }

    /// The month.
    pub fn month(&self) -> (r: u8)
        ensures
            r == self.month_of(),
            1 <= r <= 12,
    {
        proof {
            use_type_invariant(self);
        }
        self.month
    }

    /// The year.
    pub fn year(&self) -> (r: u16)
        ensures
            r == self.year_of(),
            r <= LAST_YEAR,
    {
        proof {
            use_type_invariant(self);
        }
        self.year
    }
}

} // verus!
