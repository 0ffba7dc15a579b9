//! A month and quarter calendar for the terminal: calendar arithmetic, the
//! week-aligned grid of day cells, and its rendering as fixed-width text.
//!
//! The reference day, "today", is always passed in, so every function here
//! gives the same answer for the same arguments.

pub mod calendar;
mod civil;
pub mod date;
pub mod day_count;
pub mod error;
pub mod grid;
pub mod month;
pub mod parse;
pub mod render;
pub mod request;
pub mod style;
pub mod text;
pub mod weekday;

pub use calendar::{
    add_months, first_of_month, last_of_month, quarter_containing, quarter_month_range,
    week_bounds_containing, weekday_of,
};
pub use date::{days_in_month, is_leap_year, CalendarDate, MAX_YEAR, MIN_YEAR};
pub use error::{CalendarError, QuarterProblem};
pub use grid::{build_month_grid, build_quarter_grids, categorize, Category, DayCell, MonthGrid};
pub use month::{month_name, Month};
pub use parse::{parse_month, parse_quarter, QuarterMode};
pub use render::{
    center, render_cell, render_month, render_month_into, render_quarter, right_align, title_line,
    weekday_header, HEADER_WIDTH,
};
pub use request::{calendar_grids, render_calendar, resolve_target};
pub use style::style;
pub use text::{decimal_string, push_decimal, push_spaces};
pub use weekday::{monday_offset, short_weekday, Weekday};
