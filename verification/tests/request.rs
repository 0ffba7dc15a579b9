use termcal::{
    build_month_grid, build_quarter_grids, calendar_grids, render_calendar, render_month,
    render_quarter, resolve_target, CalendarDate, CalendarError, Category, Month, QuarterMode,
    QuarterProblem,
};

fn date(year: i16, month: i8, day: i8) -> CalendarDate {
    CalendarDate::new(year, month, day).unwrap()
}

#[test]
fn resolve_target_defaults_to_today() {
    let today = date(2024, 2, 15);
    assert_eq!(resolve_target(None, None, today), Ok(today));
}

#[test]
fn resolve_target_takes_month_and_year() {
    let today = date(2024, 2, 15);
    assert_eq!(resolve_target(Some(Month::Nov), None, today), Ok(date(2024, 11, 15)));
    assert_eq!(resolve_target(None, Some(1999), today), Ok(date(1999, 2, 15)));
    assert_eq!(resolve_target(Some(Month::Dez), Some(-44), today), Ok(date(-44, 12, 15)));
}

#[test]
fn resolve_target_fails_where_the_day_is_missing() {
    assert_eq!(
        resolve_target(Some(Month::Feb), None, date(2024, 1, 31)),
        Err(CalendarError::DateArithmeticOverflow)
    );
    assert_eq!(
        resolve_target(None, Some(2023), date(2024, 2, 29)),
        Err(CalendarError::DateArithmeticOverflow)
    );
    assert_eq!(
        resolve_target(None, Some(10000), date(2024, 2, 15)),
        Err(CalendarError::DateArithmeticOverflow)
    );
}

#[test]
fn calendar_grids_for_a_month() {
    let today = date(2024, 2, 15);
    let grids = calendar_grids(Some(Month::Mar), None, None, today).unwrap();
    assert_eq!(grids.len(), 1);
    assert_eq!((grids[0].year(), grids[0].month()), (2024, 3));
    assert_eq!(grids[0].cells(), build_month_grid(date(2024, 3, 1), today).cells());
}

#[test]
fn calendar_grids_for_the_quarter_of_the_month() {
    let today = date(2024, 2, 15);
    let grids = calendar_grids(Some(Month::Aug), Some(QuarterMode::Auto), None, today).unwrap();
    let months: Vec<(i16, i8)> = grids.iter().map(|grid| (grid.year(), grid.month())).collect();
    assert_eq!(months, vec![(2024, 7), (2024, 8), (2024, 9)]);
    let grids = calendar_grids(None, Some(QuarterMode::Auto), Some(2020), today).unwrap();
    let months: Vec<(i16, i8)> = grids.iter().map(|grid| (grid.year(), grid.month())).collect();
    assert_eq!(months, vec![(2020, 1), (2020, 2), (2020, 3)]);
}

#[test]
fn calendar_grids_for_a_numbered_quarter() {
    let today = date(2024, 2, 15);
    let grids =
        calendar_grids(None, Some(QuarterMode::Specific(4)), Some(2023), today).unwrap();
    let months: Vec<(i16, i8)> = grids.iter().map(|grid| (grid.year(), grid.month())).collect();
    assert_eq!(months, vec![(2023, 10), (2023, 11), (2023, 12)]);
    let expected = build_quarter_grids(2023, 4, today).unwrap();
    for step in 0..3 {
        assert_eq!(grids[step].cells(), expected[step].cells());
        assert_eq!(grids[step].offset(), expected[step].offset());
    }
}

#[test]
fn calendar_grids_refuse_a_wrong_quarter() {
    let today = date(2024, 2, 15);
    assert_eq!(
        calendar_grids(None, Some(QuarterMode::Specific(5)), None, today).unwrap_err(),
        CalendarError::InvalidQuarter { problem: QuarterProblem::OutOfRange }
    );
    // A missing date is reported before the quarter is looked at.
    assert_eq!(
        calendar_grids(Some(Month::Feb), Some(QuarterMode::Specific(5)), None, date(2024, 1, 31))
            .unwrap_err(),
        CalendarError::DateArithmeticOverflow
    );
}

#[test]
fn render_calendar_for_the_current_month() {
    let today = date(2024, 2, 15);
    let lines = render_calendar(None, None, None, today).unwrap();
    assert_eq!(lines, render_month(&build_month_grid(today, today)));
    assert_eq!(lines.len(), 8);
    assert_eq!(lines[0], "       February 2024       ");
    assert!(lines[4].contains("\x1b[34m 15\x1b[39m "));
}

#[test]
fn render_calendar_for_first_quarter_of_2023() {
    let today = date(2024, 2, 15);
    let lines =
        render_calendar(None, Some(QuarterMode::Specific(1)), Some(2023), today).unwrap();
    assert_eq!(lines, render_quarter(&build_quarter_grids(2023, 1, today).unwrap()));
    let titles: Vec<&String> =
        lines.iter().filter(|line| line.trim_end().ends_with("2023")).collect();
    assert_eq!(
        titles,
        vec![
            "       January 2023        ",
            "       February 2023       ",
            "        March 2023         ",
        ]
    );
    assert!(!lines.iter().any(|line| line.contains("\x1b[34m") || line.contains("\x1b[33m")));
    assert!(lines.iter().any(|line| line.contains("\x1b[38;2;128;128;128m")));
}

#[test]
fn render_calendar_renders_nothing_on_failure() {
    let today = date(2024, 1, 31);
    assert_eq!(
        render_calendar(Some(Month::Apr), None, None, today),
        Err(CalendarError::DateArithmeticOverflow)
    );
    assert_eq!(
        render_calendar(None, Some(QuarterMode::Specific(0)), None, today),
        Err(CalendarError::InvalidQuarter { problem: QuarterProblem::OutOfRange })
    );
}

#[test]
fn one_today_in_whatever_is_rendered() {
    let today = date(2024, 2, 15);
    let requests = [
        (None, None, None, 1usize),
        (Some(Month::Mar), None, None, 0),
        (None, Some(QuarterMode::Auto), None, 1),
        (None, Some(QuarterMode::Specific(1)), None, 1),
        (None, Some(QuarterMode::Specific(2)), None, 0),
        (None, Some(QuarterMode::Specific(1)), Some(2023), 0),
    ];
    for (month, quarter, year, expected) in requests {
        let grids = calendar_grids(month, quarter, year, today).unwrap();
        let found: usize = grids
            .iter()
            .map(|grid| {
                grid.cells().iter().filter(|cell| cell.category == Category::Today).count()
            })
            .sum();
        assert_eq!(found, expected);
    }
}
