//! Calendar dates as plain year/month/day values, with proleptic Gregorian
//! validity. The table header stores its last-update date as three bytes;
//! the year byte is always decoded as `1900 + byte`, for every dialect —
//! a documented historical defect that is preserved, not corrected.

use vstd::prelude::*;

verus! {

/// The Gregorian leap-year rule.
pub open spec fn is_leap_year(year: int) -> bool {
    year % 4 == 0 && (year % 100 != 0 || year % 400 == 0)
}

/// Number of days in the given month of the given year.
pub open spec fn days_in_month(year: int, month: int) -> int
    recommends
        1 <= month <= 12,
{
    if month == 2 {
        if is_leap_year(year) {
            29
        } else {
            28
        }
    } else if month == 4 || month == 6 || month == 9 || month == 11 {
        30
    } else {
        31
    }
}

/// True when year/month/day name a real calendar date.
pub open spec fn date_valid(year: int, month: int, day: int) -> bool {
    &&& 1 <= month <= 12
    &&& 1 <= day <= days_in_month(year, month)
}

/// A calendar date. The invariant `valid()` holds for every value built by
/// `Date::new`.
#[derive(Clone, Copy, Debug, PartialEq, Eq, Structural)]
pub struct Date {
    pub year: u16,
    pub month: u8,
    pub day: u8,
}

impl Date {
    /// Well-formedness: the fields name a real calendar date.
    pub open spec fn valid(self) -> bool {
        date_valid(self.year as int, self.month as int, self.day as int)
    }

    /// Builds a date exactly when the fields name a real calendar date.
    pub fn new(year: u16, month: u8, day: u8) -> (r: Option<Date>)
        ensures
            r is Some <==> date_valid(year as int, month as int, day as int),
            r matches Some(date) ==> date == (Date { year, month, day }) && date.valid(),
    {
        if month < 1 || month > 12 {
            return None;
        }
        let limit: u8 = if month == 2 {
            if year % 4 == 0 && (year % 100 != 0 || year % 400 == 0) {
                29
            } else {
                28
            }
        } else if month == 4 || month == 6 || month == 9 || month == 11 {
            30
        } else {
            31
        };
        if day < 1 || day > limit {
            return None;
        }
        Some(Date { year, month, day })
    }
}

} // verus!
