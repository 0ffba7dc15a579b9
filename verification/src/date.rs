//! Civil dates of the proleptic Gregorian calendar and their arithmetic model.

use vstd::prelude::*;

use crate::error::{CalendarError, Failure};

verus! {

/// The first year a [`CalendarDate`] can lie in.
pub const MIN_YEAR: i16 = -9999;

/// The last year a [`CalendarDate`] can lie in.
pub const MAX_YEAR: i16 = 9999;

/// The Gregorian leap rule: every fourth year, except centuries that are not
/// divisible by 400.
pub open spec fn is_leap(year: int) -> bool {
    year % 4 == 0 && (year % 100 != 0 || year % 400 == 0)
}

/// The number of days of `month` in `year`, for `month` in 1..=12.
pub open spec fn month_length(year: int, month: int) -> int {
    if month == 2 {
        if is_leap(year) {
            29
        } else {
            28
        }
    } else if month == 4 || month == 6 || month == 9 || month == 11 {
        30
    } else {
        31
    }
}

/// A date as three unbounded integers: the model that contracts speak of.
pub struct Ymd {
    pub year: int,
    pub month: int,
    pub day: int,
}

/// The model date with the given fields.
pub open spec fn ymd(year: int, month: int, day: int) -> Ymd {
    Ymd { year, month, day }
}

impl Ymd {
    /// A date of the supported years that exists in the calendar.
    pub open spec fn is_valid(self) -> bool {
        &&& MIN_YEAR <= self.year <= MAX_YEAR
        &&& 1 <= self.month <= 12
        &&& 1 <= self.day <= month_length(self.year, self.month)
    }

    /// Calendar order, by year, then month, then day: whether `self` comes
    /// before `other`.
    pub open spec fn precedes(self, other: Ymd) -> bool {
        ||| self.year < other.year
        ||| self.year == other.year && self.month < other.month
        ||| self.year == other.year && self.month == other.month && self.day < other.day
    }

    /// `self` is `other` or comes before it.
    pub open spec fn not_after(self, other: Ymd) -> bool {
        self == other || self.precedes(other)
    }
}

/// A month of a supported year.
pub open spec fn valid_year_month(year: int, month: int) -> bool {
    MIN_YEAR <= year <= MAX_YEAR && 1 <= month <= 12
}

/// Whether `year` follows the Gregorian leap rule.
pub fn is_leap_year(year: i16) -> (leap: bool)
    ensures
        leap == is_leap(year as int),
{
    year % 4 == 0 && (year % 100 != 0 || year % 400 == 0)
}

/// The number of days of `month` in `year`: 28 or 29 for February, by the
/// leap rule, and 30 or 31 for the other months.
pub fn days_in_month(year: i16, month: i8) -> (days: i8)
    requires
        1 <= month <= 12,
    ensures
        days == month_length(year as int, month as int),
        28 <= days <= 31,
{
    if month == 2 {
        if is_leap_year(year) {
            29
        } else {
            28
        }
    } else if month == 4 || month == 6 || month == 9 || month == 11 {
        30
    } else {
        31
    }
}

/// A valid date of the proleptic Gregorian calendar in the years -9999..=9999.
#[derive(Clone, Copy, Debug, PartialEq, Eq, Structural, Hash)]
pub struct CalendarDate {
    year: i16,
    month: i8,
    day: i8,
}

impl View for CalendarDate {
    type V = Ymd;

    closed spec fn view(&self) -> Ymd {
        Ymd { year: self.year as int, month: self.month as int, day: self.day as int }
    }
}

impl CalendarDate {
    /// Every value of this type is a valid date.
    #[verifier::type_invariant]
    pub open spec fn is_valid(self) -> bool {
        self@.is_valid()
    }

    /// The date with the given fields, if there is one.
    pub fn new(year: i16, month: i8, day: i8) -> (made: Result<CalendarDate, CalendarError>)
        ensures
            ymd(year as int, month as int, day as int).is_valid() ==> made is Ok && made->Ok_0@
                == ymd(year as int, month as int, day as int),
            !ymd(year as int, month as int, day as int).is_valid() ==> made is Err
                && made->Err_0@ == Failure::DateArithmeticOverflow,
    {
        if year < MIN_YEAR || year > MAX_YEAR || month < 1 || month > 12 || day < 1 {
            return Err(CalendarError::DateArithmeticOverflow);
        }
        if day > days_in_month(year, month) {
            return Err(CalendarError::DateArithmeticOverflow);
        }
        Ok(CalendarDate { year, month, day })
    }

    /// The date with the given fields, which the caller has shown to exist.
    pub(crate) fn from_parts(year: i16, month: i8, day: i8) -> (made: CalendarDate)
        requires
            ymd(year as int, month as int, day as int).is_valid(),
        ensures
            made@ == ymd(year as int, month as int, day as int),
    {
        CalendarDate { year, month, day }
    }

    /// Calendar order: whether `self` comes before `other`.
    pub fn precedes(&self, other: &CalendarDate) -> (before: bool)
        ensures
            before == self@.precedes(other@),
    {
        if self.year != other.year {
            self.year < other.year
        } else if self.month != other.month {
            self.month < other.month
        } else {
            self.day < other.day
        }
    }

    /// Whether `self` is `other` or comes before it.
    pub fn not_after(&self, other: &CalendarDate) -> (holds: bool)
        ensures
            holds == self@.not_after(other@),
    {
        !other.precedes(self)
    }

    /// Two dates are the same value exactly when their models agree.
    pub proof fn lemma_view_decides(self, other: CalendarDate)
        ensures
            self == other <==> self@ == other@,
    {
    }

    /// The year, from -9999 to 9999.
    pub fn year(&self) -> (year: i16)
        ensures
            year == self@.year,
    {
        self.year
    }

    /// The month, from 1 to 12.
    pub fn month(&self) -> (month: i8)
        ensures
            month == self@.month,
    {
        self.month
    }

    /// The day of the month, from 1.
    pub fn day(&self) -> (day: i8)
        ensures
            day == self@.day,
    {
        self.day
    }
}

} // verus!
