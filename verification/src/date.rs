//! Calendar dates as plain values.
//!
//! History records carry the date a value became effective. The registry
//! only ever compares dates, so a date is held as its year, month and day
//! with the usual Gregorian validity rule, and ordered lexicographically.

use vstd::prelude::*;

verus! {

/// A calendar date. Ordering is lexicographic on (year, month, day).
#[derive(Clone, Copy, Debug, PartialEq, Eq, Structural)]
pub struct Date {
    pub year: u32,
    pub month: u32,
    pub day: u32,
}

/// A year is a leap year if divisible by 4, except century years not
/// divisible by 400.
pub open spec fn spec_is_leap_year(year: u32) -> bool {
    year % 4 == 0 && (year % 100 != 0 || year % 400 == 0)
}

/// Number of days in the given month of the given year.
pub open spec fn spec_days_in_month(year: u32, month: u32) -> u32 {
    if month == 2 {
        if spec_is_leap_year(year) {
            29
        } else {
            28
        }
    } else if month == 4 || month == 6 || month == 9 || month == 11 {
        30
    } else {
        31
    }
}

/// A valid date has a month between 1 and 12 and a day that exists in
/// that month.
pub open spec fn date_valid(d: Date) -> bool {
    1 <= d.month <= 12 && 1 <= d.day <= spec_days_in_month(d.year, d.month)
}

/// `a` is on or before `b`, lexicographically on (year, month, day).
pub open spec fn date_le(a: Date, b: Date) -> bool {
    if a.year != b.year {
        a.year < b.year
    } else if a.month != b.month {
        a.month < b.month
    } else {
        a.day <= b.day
    }
}

impl Date {
    /// Builds a date, rejecting combinations that do not name a real
    /// calendar day.
    pub fn new(year: u32, month: u32, day: u32) -> (r: Option<Date>)
        ensures
            r matches Some(d) ==> d == (Date { year, month, day }) && date_valid(d),
            r is None ==> !date_valid(Date { year, month, day }),
    {
        let d = Date { year, month, day };
        if d.valid() {
            Some(d)
        } else {
            None
        }
    }

    /// Whether this value names a real calendar day.
    pub fn valid(&self) -> (r: bool)
        ensures
            r == date_valid(*self),
    {
        1 <= self.month && self.month <= 12 && 1 <= self.day && self.day
            <= days_in_month(self.year, self.month)
    }

    /// Whether this date is on or before `other`.
    pub fn on_or_before(&self, other: &Date) -> (r: bool)
        ensures
            r == date_le(*self, *other),
    {
        if self.year != other.year {
            self.year < other.year
        } else if self.month != other.month {
            self.month < other.month
        } else {
            self.day <= other.day
        }
    }
}

/// Number of days in the given month of the given year.
pub fn days_in_month(year: u32, month: u32) -> (r: u32)
    ensures
        r == spec_days_in_month(year, month),
{
    if month == 2 {
        if year % 4 == 0 && (year % 100 != 0 || year % 400 == 0) {
            29
        } else {
            28
        }
    } else if month == 4 || month == 6 || month == 9 || month == 11 {
        30
    } else {
        31
    }
}

/// Date ordering is reflexive.
pub proof fn lemma_date_le_refl(a: Date)
    ensures
        date_le(a, a),
{
}

/// Date ordering is transitive.
pub proof fn lemma_date_le_trans(a: Date, b: Date, c: Date)
    requires
        date_le(a, b),
        date_le(b, c),
    ensures
        date_le(a, c),
{
}

} // verus!
