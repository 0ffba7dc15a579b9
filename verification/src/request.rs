//! From what the user asked for to the grids and lines that answer it.

use vstd::prelude::*;

use crate::calendar::{quarter_containing, quarter_start_month};
use crate::date::{ymd, CalendarDate, Ymd};
use crate::error::{CalendarError, Failure, QuarterProblem};
use crate::grid::{build_month_grid, build_quarter_grids, month_grid, GridModel, MonthGrid};
use crate::month::Month;
use crate::parse::QuarterMode;
use crate::render::{grid_models, lines_text, quarter_lines, render_quarter};

verus! {

/// The date that stands for the month to show: the reference day, moved to
/// the year and the month that were asked for, where they were.
pub open spec fn requested_date(month: Option<Month>, year: Option<i16>, today: Ymd) -> Ymd {
    ymd(
        match year {
            Some(year) => year as int,
            None => today.year,
        },
        match month {
            Some(month) => month.number(),
            None => today.month,
        },
        today.day,
    )
}

/// The grids of the three months of a quarter.
pub open spec fn quarter_grids(year: int, quarter: int, today: Ymd) -> Seq<GridModel> {
    Seq::new(3, |step: int| month_grid(year, quarter_start_month(quarter) + step, today))
}

/// The quarter, 1 to 4, of a month.
pub open spec fn quarter_of_month(month: int) -> int {
    (month - 1) / 3 + 1
}

/// The grids that answer a request. The requested date must exist: the
/// day of the month of `today` in the month and year asked for. Without a
/// quarter the answer is the month of that date; with `Auto` the quarter in
/// which it lies; with a number, that quarter of its year.
pub open spec fn requested_grids(
    month: Option<Month>,
    quarter: Option<QuarterMode>,
    year: Option<i16>,
    today: Ymd,
) -> Result<Seq<GridModel>, Failure> {
    let target = requested_date(month, year, today);
    if !target.is_valid() {
        Err(Failure::DateArithmeticOverflow)
    } else {
        match quarter {
            None => Ok(seq![month_grid(target.year, target.month, today)]),
            Some(QuarterMode::Auto) => Ok(
                quarter_grids(target.year, quarter_of_month(target.month), today),
            ),
            Some(QuarterMode::Specific(number)) => if 1 <= number <= 4 {
                Ok(quarter_grids(target.year, number as int, today))
            } else {
                Err(Failure::InvalidQuarter { problem: QuarterProblem::OutOfRange })
            },
        }
    }
}

/// The date that stands for the month to show: the day of the month of
/// `today` in the year and month that were asked for, and in those of
/// `today` where none was. Fails when there is no such date.
pub fn resolve_target(month: Option<Month>, year: Option<i16>, today: CalendarDate) -> (target:
    Result<CalendarDate, CalendarError>)
    ensures
        match target {
            Ok(date) => date@ == requested_date(month, year, today@),
            Err(error) => !requested_date(month, year, today@).is_valid() && error@
                == Failure::DateArithmeticOverflow,
        },
{
    let year = match year {
        Some(year) => year,
        None => today.year(),
    };
    let month = match month {
        Some(month) => month.ordinal(),
        None => today.month(),
    };
    proof {
        use_type_invariant(&today);
    }
    CalendarDate::new(year, month, today.day())
}

/// The grids that answer a request: one month, or the three months of a
/// quarter, all with `today` as the reference day.
pub fn calendar_grids(
    month: Option<Month>,
    quarter: Option<QuarterMode>,
    year: Option<i16>,
    today: CalendarDate,
) -> (grids: Result<Vec<MonthGrid>, CalendarError>)
    ensures
        match grids {
            Ok(months) => requested_grids(month, quarter, year, today@) == Ok::<
                Seq<GridModel>,
                Failure,
            >(grid_models(months@)),
            Err(error) => requested_grids(month, quarter, year, today@) == Err::<
                Seq<GridModel>,
                Failure,
            >(error@),
        },
{
    let target = match resolve_target(month, year, today) {
        Ok(date) => date,
        Err(error) => {
            return Err(error);
        },
    };
    proof {
        use_type_invariant(&target);
    }
    match quarter {
        None => {
            let mut months: Vec<MonthGrid> = Vec::new();
            months.push(build_month_grid(target, today));
            assert(grid_models(months@) =~= seq![
                month_grid(target@.year, target@.month, today@),
            ]);
            Ok(months)
        },
        Some(QuarterMode::Auto) => {
            let number = quarter_containing(target);
            assert(number == quarter_of_month(target@.month));
            match build_quarter_grids(target.year(), number, today) {
                Ok(months) => {
                    assert(grid_models(months@) =~= quarter_grids(
                        target@.year,
                        number as int,
                        today@,
                    ));
                    Ok(months)
                },
                Err(error) => Err(error),
            }
        },
        Some(QuarterMode::Specific(number)) => {
            match build_quarter_grids(target.year(), number, today) {
                Ok(months) => {
                    assert(grid_models(months@) =~= quarter_grids(
                        target@.year,
                        number as int,
                        today@,
                    ));
                    Ok(months)
                },
                Err(error) => Err(error),
            }
        },
    }
}

/// The lines that answer a request: those of the month, or those of the
/// three months of the quarter with an empty line between them. Nothing is
/// rendered when the request fails.
pub fn render_calendar(
    month: Option<Month>,
    quarter: Option<QuarterMode>,
    year: Option<i16>,
    today: CalendarDate,
) -> (lines: Result<Vec<String>, CalendarError>)
    ensures
        match lines {
            Ok(text) => requested_grids(month, quarter, year, today@) is Ok && lines_text(text@)
                == quarter_lines(requested_grids(month, quarter, year, today@)->Ok_0),
            Err(error) => requested_grids(month, quarter, year, today@) == Err::<
                Seq<GridModel>,
                Failure,
            >(error@),
        },
{
    match calendar_grids(month, quarter, year, today) {
        Ok(months) => Ok(render_quarter(&months)),
        Err(error) => Err(error),
    }
}

} // verus!
