//! The grid of a month: one cell for each day, tagged with how it is to be
//! shown, behind the blank cells that lead up to the first weekday.

use vstd::prelude::*;

use crate::calendar::{
    add_months,
    first_of_month,
    is_week_bounds,
    lemma_quarter_months,
    quarter_month_range,
    quarter_start_month,
    week_bounds_containing,
    weekday_of,
};
use crate::date::{
    days_in_month,
    month_length,
    valid_year_month,
    ymd,
    CalendarDate,
    Ymd,
    MAX_YEAR,
    MIN_YEAR,
};
use crate::day_count::{day_number, lemma_day_number_ascends, weekday_index};
use crate::error::{CalendarError, Failure, QuarterProblem};
use crate::weekday::monday_offset;

verus! {

/// How a day is shown.
#[derive(Clone, Copy, Debug, PartialEq, Eq, Structural, Hash)]
pub enum Category {
    /// A day like any other.
    Normal,
    /// The reference day itself.
    Today,
    /// Monday to Friday of the week that holds the reference day.
    CurrentWeek,
    /// A Saturday or Sunday.
    Weekend,
}

/// The rules that pick a category, in the order in which they apply: the
/// reference day first, then its business week, then weekends.
pub open spec fn category_by_rules(
    is_today: bool,
    in_current_week: bool,
    is_weekend: bool,
) -> Category {
    if is_today {
        Category::Today
    } else if in_current_week {
        Category::CurrentWeek
    } else if is_weekend {
        Category::Weekend
    } else {
        Category::Normal
    }
}

/// Picks the category of a day from what is known about it. An earlier rule
/// wins over a later one: today over the current week, the current week
/// over the weekend.
pub fn categorize(is_today: bool, in_current_week: bool, is_weekend: bool) -> (category: Category)
    ensures
        category == category_by_rules(is_today, in_current_week, is_weekend),
{
    if is_today {
        Category::Today
    } else if in_current_week {
        Category::CurrentWeek
    } else if is_weekend {
        Category::Weekend
    } else {
        Category::Normal
    }
}

/// Whether `date` is one of the five days, Monday to Friday, of the week
/// that holds `today`.
pub open spec fn in_business_week(date: Ymd, today: Ymd) -> bool {
    let monday = day_number(today) - weekday_index(today);
    monday <= day_number(date) <= monday + 4
}

/// The category of `date` when the reference day is `today`.
pub open spec fn category_of(date: Ymd, today: Ymd) -> Category {
    category_by_rules(date == today, in_business_week(date, today), weekday_index(date) >= 5)
}

/// One rendered day.
#[derive(Clone, Copy, Debug, PartialEq, Eq, Structural, Hash)]
pub struct DayCell {
    pub date: CalendarDate,
    pub category: Category,
}

/// The model of a [`DayCell`].
pub struct CellModel {
    pub date: Ymd,
    pub category: Category,
}

impl View for DayCell {
    type V = CellModel;

    open spec fn view(&self) -> CellModel {
        CellModel { date: self.date@, category: self.category }
    }
}

/// The model of a [`MonthGrid`]: the month it shows, the number of blank
/// cells before day 1, and the cells of its days in order.
pub struct GridModel {
    pub year: int,
    pub month: int,
    pub offset: int,
    pub cells: Seq<CellModel>,
}

impl GridModel {
    /// The grid shows a supported month: it has one cell for each of its
    /// days, in order, and as many leading blanks as day 1 is away from
    /// Monday.
    pub open spec fn is_month(self) -> bool {
        &&& valid_year_month(self.year, self.month)
        &&& self.offset == weekday_index(ymd(self.year, self.month, 1))
        &&& self.cells.len() == month_length(self.year, self.month)
        &&& forall|i: int|
            0 <= i < self.cells.len() ==> (#[trigger] self.cells[i]).date == ymd(
                self.year,
                self.month,
                i + 1,
            )
    }
}

/// The grid of the given month when the reference day is `today`.
pub open spec fn month_grid(year: int, month: int, today: Ymd) -> GridModel {
    GridModel {
        year,
        month,
        offset: weekday_index(ymd(year, month, 1)),
        cells: Seq::new(
            month_length(year, month) as nat,
            |i: int|
                CellModel {
                    date: ymd(year, month, i + 1),
                    category: category_of(ymd(year, month, i + 1), today),
                },
        ),
    }
}

/// The grid of one month, ready to be rendered.
#[derive(Debug)]
pub struct MonthGrid {
    year: i16,
    month: i8,
    offset: i8,
    cells: Vec<DayCell>,
}

impl View for MonthGrid {
    type V = GridModel;

    closed spec fn view(&self) -> GridModel {
        GridModel {
            year: self.year as int,
            month: self.month as int,
            offset: self.offset as int,
            cells: Seq::new(self.cells@.len(), |i: int| self.cells@[i]@),
        }
    }
}

impl MonthGrid {
    /// Every grid shows a supported month.
    #[verifier::type_invariant]
    pub open spec fn is_month(self) -> bool {
        self@.is_month()
    }

    /// The year of the month shown.
    pub fn year(&self) -> (year: i16)
        ensures
            year == self@.year,
    {
        self.year
    }

    /// The month shown, 1 to 12.
    pub fn month(&self) -> (month: i8)
        ensures
            month == self@.month,
    {
        self.month
    }

    /// The number of blank cells before day 1: its distance from Monday.
    pub fn offset(&self) -> (offset: i8)
        ensures
            offset == self@.offset,
    {
        self.offset
    }

    /// The number of cells, which is the number of days of the month.
    pub fn len(&self) -> (len: usize)
        ensures
            len == self@.cells.len(),
    {
        self.cells.len()
    }

    /// The cell of day `index + 1`.
    pub fn cell(&self, index: usize) -> (cell: DayCell)
        requires
            index < self@.cells.len(),
        ensures
            cell@ == self@.cells[index as int],
    {
        self.cells[index]
    }

    /// The cells of the days of the month, in order.
    pub fn cells(&self) -> (cells: &Vec<DayCell>)
        ensures
            cells@.len() == self@.cells.len(),
            forall|i: int| 0 <= i < cells@.len() ==> (#[trigger] cells@[i])@ == self@.cells[i],
    {
        &self.cells
    }
}

/// Builds the grid of the month in which `target` lies, with `today` as the
/// reference day: the days of the month in order, each with its category,
/// and the distance of day 1 from Monday as the number of leading blanks.
pub fn build_month_grid(target: CalendarDate, today: CalendarDate) -> (grid: MonthGrid)
    ensures
        grid@ == month_grid(target@.year, target@.month, today@),
        grid@.cells.len() == month_length(target@.year, target@.month),
        0 <= grid@.offset <= 6,
{
    proof {
        use_type_invariant(&target);
        use_type_invariant(&today);
    }
    let year = target.year();
    let month = target.month();
    let length = days_in_month(year, month);
    let start = CalendarDate::from_parts(year, month, 1);
    let offset = monday_offset(weekday_of(start));
    let (week_monday, week_friday) = week_bounds_containing(today);
    let mut cells: Vec<DayCell> = Vec::new();
    let mut day: i8 = 1;
    while day <= length
        invariant
            valid_year_month(year as int, month as int),
            length == month_length(year as int, month as int),
            1 <= day <= length + 1,
            today@.is_valid(),
            is_week_bounds(today@, week_monday@, week_friday@),
            cells@.len() == day - 1,
            forall|i: int|
                0 <= i < cells@.len() ==> (#[trigger] cells@[i])@ == month_grid(
                    year as int,
                    month as int,
                    today@,
                ).cells[i],
        decreases length + 1 - day,
    {
        let current = CalendarDate::from_parts(year, month, day);
        proof {
            lemma_day_number_ascends(week_monday@, current@);
            lemma_day_number_ascends(current@, week_friday@);
            current.lemma_view_decides(today);
        }
        let category = categorize(
            current == today,
            week_monday.not_after(&current) && current.not_after(&week_friday),
            weekday_of(current).is_weekend(),
        );
        cells.push(DayCell { date: current, category });
        day = day + 1;
    }
    let grid = MonthGrid { year, month, offset, cells };
    assert(grid@ =~= month_grid(target@.year, target@.month, today@)) by {
        assert(grid@.cells =~= month_grid(target@.year, target@.month, today@).cells);
    }
    grid
}

/// The grids of the three months of a quarter, with the same reference day
/// for all three. Fails for a quarter outside 1..=4 and, for a quarter that
/// exists, for a year that is not supported.
pub fn build_quarter_grids(year: i16, quarter: u8, today: CalendarDate) -> (grids: Result<
    Vec<MonthGrid>,
    CalendarError,
>)
    ensures
        match grids {
            Ok(months) => {
                &&& 1 <= quarter <= 4
                &&& MIN_YEAR <= year <= MAX_YEAR
                &&& months@.len() == 3
                &&& forall|step: int|
                    0 <= step < 3 ==> (#[trigger] months@[step])@ == month_grid(
                        year as int,
                        quarter_start_month(quarter as int) + step,
                        today@,
                    )
            },
            Err(error) => if 1 <= quarter <= 4 {
                !(MIN_YEAR <= year <= MAX_YEAR) && error@ == Failure::DateArithmeticOverflow
            } else {
                error@ == (Failure::InvalidQuarter { problem: QuarterProblem::OutOfRange })
            },
        },
{
    let (start_month, month_count) = match quarter_month_range(quarter) {
        Ok(range) => range,
        Err(error) => {
            return Err(error);
        },
    };
    let start = match first_of_month(year, start_month) {
        Ok(date) => date,
        Err(error) => {
            return Err(error);
        },
    };
    let mut months: Vec<MonthGrid> = Vec::new();
    let mut step: i8 = 0;
    while step < month_count
        invariant
            1 <= quarter <= 4,
            MIN_YEAR <= year <= MAX_YEAR,
            month_count == 3,
            0 <= step <= month_count,
            start@ == ymd(year as int, quarter_start_month(quarter as int), 1),
            months@.len() == step,
            forall|done: int|
                0 <= done < step ==> (#[trigger] months@[done])@ == month_grid(
                    year as int,
                    quarter_start_month(quarter as int) + done,
                    today@,
                ),
        decreases month_count - step,
    {
        proof {
            lemma_quarter_months(year as int, quarter as int, step as int);
        }
        let target = match add_months(start, step as i16) {
            Ok(date) => date,
            Err(error) => {
                return Err(error);
            },
        };
        months.push(build_month_grid(target, today));
        step = step + 1;
    }
    Ok(months)
}

/// The grid of a supported month shows that month: it has one cell for
/// each of its days, and between none and six leading blanks.
pub proof fn lemma_month_grid_is_month(year: int, month: int, today: Ymd)
    requires
        valid_year_month(year, month),
    ensures
        month_grid(year, month, today).is_month(),
        month_grid(year, month, today).cells.len() == month_length(year, month),
        0 <= month_grid(year, month, today).offset <= 6,
{
}

/// The cells of a grid follow the calendar without a gap: the first is day
/// 1 of the month, each later one is the day after the one before it, and
/// so each cell comes before all that follow it.
pub proof fn lemma_cells_ascend(grid: GridModel)
    requires
        grid.is_month(),
    ensures
        grid.cells[0].date == ymd(grid.year, grid.month, 1),
        forall|i: int| 0 <= i < grid.cells.len() ==> (#[trigger] grid.cells[i]).date.is_valid(),
        forall|i: int|
            0 <= i < grid.cells.len() - 1 ==> day_number(grid.cells[i + 1].date) == day_number(
                (#[trigger] grid.cells[i]).date,
            ) + 1,
        forall|i: int, j: int|
            0 <= i < j < grid.cells.len() ==> (#[trigger] grid.cells[i]).date.precedes(
                (#[trigger] grid.cells[j]).date,
            ),
{
}

/// The number of cells with category `Today`.
pub open spec fn count_today(cells: Seq<CellModel>) -> nat
    decreases cells.len(),
{
    if cells.len() == 0 {
        0
    } else {
        count_today(cells.drop_last()) + (if cells.last().category == Category::Today {
            1nat
        } else {
            0
        })
    }
}

proof fn lemma_count_today_prefix(year: int, month: int, today: Ymd, upto: int)
    requires
        valid_year_month(year, month),
        today.is_valid(),
        0 <= upto <= month_length(year, month),
    ensures
        count_today(month_grid(year, month, today).cells.take(upto)) == (if today.year == year
            && today.month == month && today.day <= upto {
            1nat
        } else {
            0
        }),
    decreases upto,
{
    let cells = month_grid(year, month, today).cells;
    if upto > 0 {
        lemma_count_today_prefix(year, month, today, upto - 1);
        assert(cells.take(upto).drop_last() =~= cells.take(upto - 1));
        assert(cells.take(upto).last() == cells[upto - 1]);
    }
}

/// A month grid has exactly one cell with category `Today` when the
/// reference day lies in the month shown, and none otherwise; that cell is
/// the one of the reference day.
pub proof fn lemma_one_today(year: int, month: int, today: Ymd)
    requires
        valid_year_month(year, month),
        today.is_valid(),
    ensures
        count_today(month_grid(year, month, today).cells) == (if today.year == year && today.month
            == month {
            1nat
        } else {
            0
        }),
        forall|i: int|
            #![trigger month_grid(year, month, today).cells[i]]
            0 <= i < month_length(year, month) ==> (month_grid(year, month, today).cells[i].category
                == Category::Today <==> ymd(year, month, i + 1) == today),
{
    let cells = month_grid(year, month, today).cells;
    lemma_count_today_prefix(year, month, today, month_length(year, month));
    assert(cells.take(month_length(year, month)) =~= cells);
}

/// Over the three grids of a quarter there is exactly one cell with
/// category `Today` when the reference day lies in that quarter of that
/// year, and none otherwise.
pub proof fn lemma_one_today_in_quarter(year: int, quarter: int, today: Ymd)
    requires
        MIN_YEAR <= year <= MAX_YEAR,
        1 <= quarter <= 4,
        today.is_valid(),
    ensures
        count_today(month_grid(year, quarter_start_month(quarter), today).cells) + count_today(
            month_grid(year, quarter_start_month(quarter) + 1, today).cells,
        ) + count_today(month_grid(year, quarter_start_month(quarter) + 2, today).cells) == (
        if today.year == year && quarter_start_month(quarter) <= today.month
            < quarter_start_month(quarter) + 3 {
            1nat
        } else {
            0
        }),
{
    lemma_one_today(year, quarter_start_month(quarter), today);
    lemma_one_today(year, quarter_start_month(quarter) + 1, today);
    lemma_one_today(year, quarter_start_month(quarter) + 2, today);
}

/// The reference day is always shown as `Today`, on whatever weekday it
/// falls: a Saturday or Sunday that is the reference day is not shown as a
/// weekend, and the reference day is not shown as part of its own week.
pub proof fn lemma_today_takes_precedence(today: Ymd)
    ensures
        category_of(today, today) == Category::Today,
        forall|in_current_week: bool, is_weekend: bool|
            category_by_rules(true, in_current_week, is_weekend) == Category::Today,
        forall|is_weekend: bool|
            category_by_rules(false, true, is_weekend) == Category::CurrentWeek,
{
}

} // verus!
