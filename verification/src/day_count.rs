//! Dates counted as days: the running day number behind weekdays and day
//! arithmetic, and the facts that tie it to calendar order.

use vstd::prelude::*;

use crate::date::{is_leap, month_length, ymd, Ymd, MAX_YEAR, MIN_YEAR};

verus! {

/// Days from 0001-01-01 up to, and without, January 1 of `year`.
pub open spec fn days_before_year(year: int) -> int {
    let past = year - 1;
    365 * past + past / 4 - past / 100 + past / 400
}

/// Days from January 1 of `year` up to, and without, the first of `month`:
/// the lengths of the months before it, added up.
pub open spec fn days_before_month(year: int, month: int) -> int
    decreases month,
{
    if month <= 1 {
        0
    } else {
        days_before_month(year, month - 1) + month_length(year, month - 1)
    }
}

/// The running number of a day, where 0001-01-01 has number 1.
pub open spec fn day_number(d: Ymd) -> int {
    days_before_year(d.year) + days_before_month(d.year, d.month) + d.day
}

/// The weekday of a date as its distance from Monday: 0 for Monday up to 6
/// for Sunday. 0001-01-01, the day with number 1, is a Monday.
pub open spec fn weekday_index(d: Ymd) -> int {
    (day_number(d) - 1) % 7
}

/// The day number of -9999-01-01, the first supported date.
pub open spec fn first_day_number() -> int {
    -3652424
}

/// The day number of 9999-12-31, the last supported date.
pub open spec fn last_day_number() -> int {
    3652059
}

/// Whether `number` is the day number of a supported date.
pub open spec fn supported_day_number(number: int) -> bool {
    first_day_number() <= number <= last_day_number()
}

/// The days before a month by the usual table: 0, 31, 59, 90, ... with one
/// more from March on in a leap year.
pub proof fn lemma_days_before_month_table(year: int, month: int)
    requires
        1 <= month <= 13,
    ensures
        days_before_month(year, month) == (if month == 1 {
            0int
        } else if month == 2 {
            31
        } else {
            (if is_leap(year) {
                1int
            } else {
                0
            }) + (if month == 3 {
                59int
            } else if month == 4 {
                90
            } else if month == 5 {
                120
            } else if month == 6 {
                151
            } else if month == 7 {
                181
            } else if month == 8 {
                212
            } else if month == 9 {
                243
            } else if month == 10 {
                273
            } else if month == 11 {
                304
            } else if month == 12 {
                334
            } else {
                365
            })
        }),
{
    reveal_with_fuel(days_before_month, 14);
}

/// A year has 365 days, and one more if it is a leap year.
pub proof fn lemma_year_length(year: int)
    ensures
        days_before_year(year + 1) == days_before_year(year) + 365 + (if is_leap(year) {
            1int
        } else {
            0
        }),
        days_before_month(year, 13) == 365 + (if is_leap(year) {
            1int
        } else {
            0
        }),
{
    lemma_days_before_month_table(year, 13);
}

/// Later years start later.
pub proof fn lemma_years_ascend(earlier: int, later: int)
    requires
        earlier <= later,
    ensures
        days_before_year(earlier) + 365 * (later - earlier) <= days_before_year(later),
    decreases later - earlier,
{
    if earlier < later {
        lemma_years_ascend(earlier, later - 1);
        lemma_year_length(later - 1);
    }
}

/// Calendar order and day numbers agree: of two dates with existing month
/// and day, the one that comes first has the smaller day number.
pub proof fn lemma_day_number_ascends(a: Ymd, b: Ymd)
    requires
        1 <= a.month <= 12,
        1 <= b.month <= 12,
        1 <= a.day <= month_length(a.year, a.month),
        1 <= b.day <= month_length(b.year, b.month),
    ensures
        a.precedes(b) <==> day_number(a) < day_number(b),
        a == b <==> day_number(a) == day_number(b),
{
    lemma_days_before_month_table(a.year, a.month);
    lemma_days_before_month_table(b.year, b.month);
    lemma_year_length(a.year);
    lemma_year_length(b.year);
    if a.year < b.year {
        lemma_years_ascend(a.year + 1, b.year);
    } else if b.year < a.year {
        lemma_years_ascend(b.year + 1, a.year);
    }
}

/// The supported dates are exactly those whose day number lies between the
/// numbers of -9999-01-01 and 9999-12-31.
pub proof fn lemma_supported_range(d: Ymd)
    requires
        1 <= d.month <= 12,
        1 <= d.day <= month_length(d.year, d.month),
    ensures
        day_number(ymd(MIN_YEAR as int, 1, 1)) == first_day_number(),
        day_number(ymd(MAX_YEAR as int, 12, 31)) == last_day_number(),
        d.is_valid() <==> supported_day_number(day_number(d)),
{
    let first = ymd(MIN_YEAR as int, 1, 1);
    let last = ymd(MAX_YEAR as int, 12, 31);
    lemma_days_before_month_table(MIN_YEAR as int, 1);
    lemma_days_before_month_table(MAX_YEAR as int, 12);
    lemma_day_number_ascends(first, d);
    lemma_day_number_ascends(d, last);
}

/// The model agrees with the calendar on days whose weekday is known:
/// 1970-01-01 was a Thursday and 2000-01-01 a Saturday. The first supported
/// day is a Monday and the last one a Friday.
pub proof fn lemma_known_weekdays()
    ensures
        day_number(ymd(1970, 1, 1)) == 719163,
        weekday_index(ymd(1970, 1, 1)) == 3,
        weekday_index(ymd(2000, 1, 1)) == 5,
        weekday_index(ymd(MIN_YEAR as int, 1, 1)) == 0,
        weekday_index(ymd(MAX_YEAR as int, 12, 31)) == 4,
{
    lemma_days_before_month_table(MAX_YEAR as int, 12);
}

/// Within a month the day number, and with it the weekday, advances with the
/// day of the month.
pub proof fn lemma_same_month(year: int, month: int, day: int, other: int)
    ensures
        day_number(ymd(year, month, other)) == day_number(ymd(year, month, day)) + (other - day),
        weekday_index(ymd(year, month, other)) == (weekday_index(ymd(year, month, day)) + (other
            - day)) % 7,
{
}

} // verus!
