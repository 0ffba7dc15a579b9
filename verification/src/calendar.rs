//! Calendar arithmetic: month bounds, weekdays, the business week around a
//! date, quarters, and month steps.

use vstd::prelude::*;

use crate::civil::{civil_add_days, civil_add_months, civil_weekday};
use crate::date::{
    days_in_month,
    month_length,
    ymd,
    CalendarDate,
    Ymd,
    MAX_YEAR,
    MIN_YEAR,
};
use crate::day_count::{
    day_number,
    lemma_day_number_ascends,
    lemma_supported_range,
    weekday_index,
};
use crate::error::{CalendarError, Failure, QuarterProblem};
use crate::text::{decimal, decimal_string};
use crate::weekday::{monday_offset, Weekday};

verus! {

/// Why a year and a month are refused, if they are: a month outside 1..=12
/// is named first, then a year outside the supported range.
pub open spec fn year_month_failure(year: int, month: int) -> Option<Failure> {
    if !(1 <= month <= 12) {
        Some(Failure::InvalidMonth { token: decimal(month) })
    } else if !(MIN_YEAR <= year <= MAX_YEAR) {
        Some(Failure::DateArithmeticOverflow)
    } else {
        None
    }
}

fn check_year_month(year: i16, month: i8) -> (checked: Result<(), CalendarError>)
    ensures
        match checked {
            Ok(_) => year_month_failure(year as int, month as int) is None,
            Err(error) => year_month_failure(year as int, month as int) == Some(error@),
        },
{
    if month < 1 || month > 12 {
        Err(CalendarError::InvalidMonth { token: decimal_string(month as i32) })
    } else if year < MIN_YEAR || year > MAX_YEAR {
        Err(CalendarError::DateArithmeticOverflow)
    } else {
        Ok(())
    }
}

/// Day 1 of the given month.
pub fn first_of_month(year: i16, month: i8) -> (first: Result<CalendarDate, CalendarError>)
    ensures
        match first {
            Ok(date) => year_month_failure(year as int, month as int) is None && date@ == ymd(
                year as int,
                month as int,
                1,
            ),
            Err(error) => year_month_failure(year as int, month as int) == Some(error@),
        },
{
    match check_year_month(year, month) {
        Ok(_) => Ok(CalendarDate::from_parts(year, month, 1)),
        Err(error) => Err(error),
    }
}

/// The last day of the given month: the 28th, 29th, 30th or 31st, by the
/// month and the Gregorian leap rule.
pub fn last_of_month(year: i16, month: i8) -> (last: Result<CalendarDate, CalendarError>)
    ensures
        match last {
            Ok(date) => year_month_failure(year as int, month as int) is None && date@ == ymd(
                year as int,
                month as int,
                month_length(year as int, month as int),
            ),
            Err(error) => year_month_failure(year as int, month as int) == Some(error@),
        },
{
    match check_year_month(year, month) {
        Ok(_) => Ok(CalendarDate::from_parts(year, month, days_in_month(year, month))),
        Err(error) => Err(error),
    }
}

/// The day of the week on which `date` falls.
pub fn weekday_of(date: CalendarDate) -> (weekday: Weekday)
    ensures
        weekday == Weekday::at_offset(weekday_index(date@)),
        weekday.offset() == weekday_index(date@),
{
    proof {
        use_type_invariant(&date);
    }
    civil_weekday(date.year(), date.month(), date.day())
}

/// `monday` and `friday` are the bounds of the business week around `date`:
/// `monday` lies as many days before `date` as `date` is away from Monday,
/// and `friday` four days after `monday`.
pub open spec fn is_week_bounds(date: Ymd, monday: Ymd, friday: Ymd) -> bool {
    &&& monday.is_valid()
    &&& friday.is_valid()
    &&& day_number(monday) == day_number(date) - weekday_index(date)
    &&& day_number(friday) == day_number(monday) + 4
}

/// The Monday and the Friday of the week, Monday to Sunday, that holds
/// `date`. Every supported date has both: the first supported day is a
/// Monday and the last one a Friday.
pub fn week_bounds_containing(date: CalendarDate) -> (bounds: (CalendarDate, CalendarDate))
    ensures
        is_week_bounds(date@, bounds.0@, bounds.1@),
        weekday_index(bounds.0@) == 0,
        weekday_index(bounds.1@) == 4,
        bounds.0@.not_after(date@),
        date@.not_after(bounds.1@) <==> weekday_index(date@) <= 4,
{
    proof {
        use_type_invariant(&date);
        lemma_supported_range(date@);
    }
    let back = monday_offset(weekday_of(date));
    let monday = match civil_add_days(date.year(), date.month(), date.day(), -(back as i16)) {
        Ok(to) => CalendarDate::from_parts(to.0, to.1, to.2),
        Err(_) => {
            // No week begins before the first supported day, a Monday.
            assert(false);
            date
        },
    };
    let friday = match civil_add_days(monday.year(), monday.month(), monday.day(), 4) {
        Ok(to) => CalendarDate::from_parts(to.0, to.1, to.2),
        Err(_) => {
            // No business week ends after the last supported day, a Friday.
            assert(false);
            date
        },
    };
    proof {
        use_type_invariant(&monday);
        use_type_invariant(&friday);
        lemma_week_bounds(date@, monday@, friday@);
    }
    (monday, friday)
}

/// The bounds of the business week are a Monday and the Friday four days
/// after it, and no other pair of dates will do. The Monday is never after
/// the date and at most six days before it. The date is not after the Friday
/// exactly when it falls on Monday to Friday; a Saturday or Sunday belongs
/// to the week of the Monday before it and lies after that week's Friday.
pub proof fn lemma_week_bounds(date: Ymd, monday: Ymd, friday: Ymd)
    requires
        date.is_valid(),
        is_week_bounds(date, monday, friday),
    ensures
        weekday_index(monday) == 0,
        weekday_index(friday) == 4,
        monday.not_after(date),
        day_number(date) - day_number(monday) <= 6,
        weekday_index(date) <= 4 <==> date.not_after(friday),
        forall|other_monday: Ymd, other_friday: Ymd|
            is_week_bounds(date, other_monday, other_friday) ==> other_monday == monday
                && other_friday == friday,
{
    lemma_day_number_ascends(monday, date);
    lemma_day_number_ascends(date, friday);
    assert forall|other_monday: Ymd, other_friday: Ymd|
        is_week_bounds(date, other_monday, other_friday) implies other_monday == monday
        && other_friday == friday by {
        lemma_day_number_ascends(other_monday, monday);
        lemma_day_number_ascends(other_friday, friday);
    }
}

/// The first month of a quarter: 1, 4, 7 or 10.
pub open spec fn quarter_start_month(quarter: int) -> int {
    3 * (quarter - 1) + 1
}

/// The first month of `quarter` and the number of its months, which is 3.
pub fn quarter_month_range(quarter: u8) -> (range: Result<(i8, i8), CalendarError>)
    ensures
        1 <= quarter <= 4 ==> range is Ok && range->Ok_0.0 == quarter_start_month(quarter as int)
            && range->Ok_0.1 == 3,
        !(1 <= quarter <= 4) ==> range is Err && range->Err_0@ == (Failure::InvalidQuarter {
            problem: QuarterProblem::OutOfRange,
        }),
{
    match quarter {
        1 => Ok((1, 3)),
        2 => Ok((4, 3)),
        3 => Ok((7, 3)),
        4 => Ok((10, 3)),
        _ => Err(CalendarError::InvalidQuarter { problem: QuarterProblem::OutOfRange }),
    }
}

/// The quarter, 1 to 4, in which `date` lies.
pub fn quarter_containing(date: CalendarDate) -> (quarter: u8)
    ensures
        1 <= quarter <= 4,
        quarter_start_month(quarter as int) <= date@.month < quarter_start_month(quarter as int)
            + 3,
{
    proof {
        use_type_invariant(&date);
    }
    let month = date.month();
    if month <= 3 {
        1
    } else if month <= 6 {
        2
    } else if month <= 9 {
        3
    } else {
        4
    }
}

/// What adding `months` months to a date gives before any range check: the
/// month moves by `months`, carrying into the year, and the day is cut back
/// to the length of the month that is reached.
pub open spec fn month_shifted(from: Ymd, months: int) -> Ymd {
    let total = from.month - 1 + months;
    let year = from.year + total / 12;
    let month = total % 12 + 1;
    let length = month_length(year, month);
    ymd(
        year,
        month,
        if from.day <= length {
            from.day
        } else {
            length
        },
    )
}

/// The date `months` months after `date`, or before it for a negative
/// count. Where the month that is reached is shorter than the day of
/// `date`, the result is its last day. Fails exactly when the year that is
/// reached is not supported.
pub fn add_months(date: CalendarDate, months: i16) -> (moved: Result<CalendarDate, CalendarError>)
    ensures
        match moved {
            Ok(to) => to@ == month_shifted(date@, months as int),
            Err(error) => error@ == Failure::DateArithmeticOverflow,
        },
        moved is Ok <==> MIN_YEAR <= month_shifted(date@, months as int).year <= MAX_YEAR,
{
    proof {
        use_type_invariant(&date);
    }
    match civil_add_months(date.year(), date.month(), date.day(), months) {
        Ok(to) => Ok(CalendarDate::from_parts(to.0, to.1, to.2)),
        Err(_) => Err(CalendarError::DateArithmeticOverflow),
    }
}

/// A month step lands in the month that many months on, in a day that
/// exists there: the day it started from, or the last of the month where
/// that one is missing.
pub proof fn lemma_month_shifted(from: Ymd, months: int)
    requires
        1 <= from.month <= 12,
        1 <= from.day <= month_length(from.year, from.month),
    ensures
        ({
            let to = month_shifted(from, months);
            &&& 1 <= to.month <= 12
            &&& 12 * to.year + to.month == 12 * from.year + from.month + months
            &&& 1 <= to.day <= month_length(to.year, to.month)
            &&& to.day == from.day || (to.day == month_length(to.year, to.month) && to.day
                < from.day)
        }),
{
}

/// Stepping 0, 1 and 2 months from the first day of a quarter gives the
/// first days of its three months, one after the other in the same year:
/// months 1 to 3 for quarter 1, 4 to 6 for quarter 2, 7 to 9 for quarter 3
/// and 10 to 12 for quarter 4.
pub proof fn lemma_quarter_months(year: int, quarter: int, step: int)
    requires
        1 <= quarter <= 4,
        0 <= step < 3,
    ensures
        month_shifted(ymd(year, quarter_start_month(quarter), 1), step) == ymd(
            year,
            3 * quarter - 2 + step,
            1,
        ),
        1 <= 3 * quarter - 2 + step <= 12,
{
}

} // verus!
