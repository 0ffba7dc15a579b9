//! The calls into the `jiff` date library. Each takes and returns the fields
//! of a date as plain integers. The contracts say what `jiff` documents of
//! the call, over the day-number model of this crate; Verus takes them on
//! trust.

use vstd::prelude::*;

use crate::calendar::month_shifted;
use crate::date::{ymd, MAX_YEAR, MIN_YEAR};
use crate::day_count::{day_number, supported_day_number, weekday_index};
use crate::weekday::Weekday;

verus! {

/// The error type of `jiff`, carried through without a look inside.
#[verifier::external_type_specification]
#[verifier::external_body]
pub struct ExJiffError(jiff::Error);

/// `jiff::civil::Date::weekday` on the date with the given fields: the day
/// of the week on which that date falls in the proleptic Gregorian calendar.
/// The contract counts the days from 0001-01-01, a Monday: the weekday is
/// as far from Monday as the remainder of that count by 7 says.
#[verifier::external_body]
pub(crate) fn civil_weekday(year: i16, month: i8, day: i8) -> (weekday: Weekday)
    requires
        ymd(year as int, month as int, day as int).is_valid(),
    ensures
        weekday.offset() == weekday_index(ymd(year as int, month as int, day as int)),
{
    match jiff::civil::date(year, month, day).weekday() {
        jiff::civil::Weekday::Monday => Weekday::Monday,
        jiff::civil::Weekday::Tuesday => Weekday::Tuesday,
        jiff::civil::Weekday::Wednesday => Weekday::Wednesday,
        jiff::civil::Weekday::Thursday => Weekday::Thursday,
        jiff::civil::Weekday::Friday => Weekday::Friday,
        jiff::civil::Weekday::Saturday => Weekday::Saturday,
        jiff::civil::Weekday::Sunday => Weekday::Sunday,
    }
}

/// `jiff::civil::Date::checked_add` with a span of `days` days: the date
/// that many days later, or earlier for a negative count. The call fails
/// exactly when that date lies outside the years -9999..=9999. A span of
/// days takes any count that fits in 16 bits.
#[verifier::external_body]
pub(crate) fn civil_add_days(year: i16, month: i8, day: i8, days: i16) -> (moved: Result<
    (i16, i8, i8),
    jiff::Error,
>)
    requires
        ymd(year as int, month as int, day as int).is_valid(),
    ensures
        match moved {
            Ok(to) => {
                &&& ymd(to.0 as int, to.1 as int, to.2 as int).is_valid()
                &&& day_number(ymd(to.0 as int, to.1 as int, to.2 as int)) == day_number(
                    ymd(year as int, month as int, day as int),
                ) + days
            },
            Err(_) => !supported_day_number(
                day_number(ymd(year as int, month as int, day as int)) + days,
            ),
        },
{
    let span = jiff::Span::new().days(days);
    let to = jiff::civil::date(year, month, day).checked_add(span)?;
    Ok((to.year(), to.month(), to.day()))
}

/// `jiff::civil::Date::checked_add` with a span of `months` months: the month
/// moves by `months`, carrying into the year, and the day is cut back to the
/// length of the month reached. The call fails exactly when the year reached
/// lies outside -9999..=9999. A span of months takes any count that fits in
/// 16 bits.
#[verifier::external_body]
pub(crate) fn civil_add_months(year: i16, month: i8, day: i8, months: i16) -> (moved: Result<
    (i16, i8, i8),
    jiff::Error,
>)
    requires
        ymd(year as int, month as int, day as int).is_valid(),
    ensures
        match moved {
            Ok(to) => {
                &&& ymd(to.0 as int, to.1 as int, to.2 as int) == month_shifted(
                    ymd(year as int, month as int, day as int),
                    months as int,
                )
                &&& ymd(to.0 as int, to.1 as int, to.2 as int).is_valid()
            },
            Err(_) => {
                let to = month_shifted(ymd(year as int, month as int, day as int), months as int);
                !(MIN_YEAR <= to.year <= MAX_YEAR)
            },
        },
{
    let span = jiff::Span::new().months(months);
    let to = jiff::civil::date(year, month, day).checked_add(span)?;
    Ok((to.year(), to.month(), to.day()))
}

} // verus!
