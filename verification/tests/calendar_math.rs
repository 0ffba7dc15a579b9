use termcal::{
    add_months, days_in_month, first_of_month, is_leap_year, last_of_month, monday_offset,
    quarter_containing, quarter_month_range, short_weekday, week_bounds_containing, weekday_of,
    CalendarDate, CalendarError, QuarterProblem, Weekday,
};

fn date(year: i16, month: i8, day: i8) -> CalendarDate {
    CalendarDate::new(year, month, day).unwrap()
}

fn fields(d: CalendarDate) -> (i16, i8, i8) {
    (d.year(), d.month(), d.day())
}

#[test]
fn new_accepts_existing_dates() {
    assert_eq!(fields(date(2024, 2, 29)), (2024, 2, 29));
    assert_eq!(fields(date(-9999, 1, 1)), (-9999, 1, 1));
    assert_eq!(fields(date(9999, 12, 31)), (9999, 12, 31));
    assert_eq!(fields(date(0, 2, 29)), (0, 2, 29));
}

#[test]
fn new_refuses_missing_dates() {
    assert_eq!(CalendarDate::new(2023, 2, 29), Err(CalendarError::DateArithmeticOverflow));
    assert_eq!(CalendarDate::new(2024, 4, 31), Err(CalendarError::DateArithmeticOverflow));
    assert_eq!(CalendarDate::new(2024, 0, 1), Err(CalendarError::DateArithmeticOverflow));
    assert_eq!(CalendarDate::new(2024, 13, 1), Err(CalendarError::DateArithmeticOverflow));
    assert_eq!(CalendarDate::new(2024, 1, 0), Err(CalendarError::DateArithmeticOverflow));
    assert_eq!(CalendarDate::new(2024, 1, -1), Err(CalendarError::DateArithmeticOverflow));
    assert_eq!(CalendarDate::new(10000, 1, 1), Err(CalendarError::DateArithmeticOverflow));
    assert_eq!(CalendarDate::new(-10000, 1, 1), Err(CalendarError::DateArithmeticOverflow));
}

#[test]
fn leap_years_follow_the_gregorian_rule() {
    assert!(is_leap_year(2000));
    assert!(!is_leap_year(1900));
    assert!(is_leap_year(2024));
    assert!(!is_leap_year(2023));
    assert!(is_leap_year(0));
    assert!(is_leap_year(-4));
    assert!(!is_leap_year(-100));
    assert!(is_leap_year(-400));
}

#[test]
fn last_of_month_in_february() {
    assert_eq!(last_of_month(2000, 2).unwrap().day(), 29);
    assert_eq!(last_of_month(1900, 2).unwrap().day(), 28);
    assert_eq!(last_of_month(2024, 2).unwrap().day(), 29);
    assert_eq!(last_of_month(2023, 2).unwrap().day(), 28);
}

#[test]
fn last_of_month_in_every_month() {
    let lengths = [31, 28, 31, 30, 31, 30, 31, 31, 30, 31, 30, 31];
    for month in 1..=12i8 {
        let last = last_of_month(2023, month).unwrap();
        assert_eq!(fields(last), (2023, month, lengths[(month - 1) as usize]));
        assert_eq!(days_in_month(2023, month), lengths[(month - 1) as usize]);
    }
}

#[test]
fn first_of_month_is_day_one() {
    assert_eq!(fields(first_of_month(2024, 2).unwrap()), (2024, 2, 1));
    assert_eq!(fields(first_of_month(-9999, 1).unwrap()), (-9999, 1, 1));
}

#[test]
fn month_bounds_refuse_a_wrong_month() {
    assert_eq!(
        first_of_month(2024, 13),
        Err(CalendarError::InvalidMonth { token: "13".to_string() })
    );
    assert_eq!(
        first_of_month(2024, 0),
        Err(CalendarError::InvalidMonth { token: "0".to_string() })
    );
    assert_eq!(
        last_of_month(20000, -3),
        Err(CalendarError::InvalidMonth { token: "-3".to_string() })
    );
}

#[test]
fn month_bounds_refuse_a_wrong_year() {
    assert_eq!(first_of_month(10000, 1), Err(CalendarError::DateArithmeticOverflow));
    assert_eq!(last_of_month(-10000, 12), Err(CalendarError::DateArithmeticOverflow));
}

#[test]
fn weekday_of_known_dates() {
    assert_eq!(weekday_of(date(1970, 1, 1)), Weekday::Thursday);
    assert_eq!(weekday_of(date(2024, 2, 1)), Weekday::Thursday);
    assert_eq!(weekday_of(date(2024, 2, 15)), Weekday::Thursday);
    assert_eq!(weekday_of(date(2000, 2, 29)), Weekday::Tuesday);
    assert_eq!(weekday_of(date(2023, 1, 1)), Weekday::Sunday);
    assert_eq!(weekday_of(date(1, 1, 1)), Weekday::Monday);
    assert_eq!(weekday_of(date(-9999, 1, 1)), Weekday::Monday);
    assert_eq!(weekday_of(date(9999, 12, 31)), Weekday::Friday);
    assert_eq!(weekday_of(date(1582, 10, 15)), Weekday::Friday);
}

// The day number of the model, written out again with truncating arithmetic.
fn model_day_number(year: i64, month: i64, day: i64) -> i64 {
    let past = year - 1;
    let lengths = [31, 28, 31, 30, 31, 30, 31, 31, 30, 31, 30, 31];
    let leap = year.rem_euclid(4) == 0 && (year.rem_euclid(100) != 0 || year.rem_euclid(400) == 0);
    let mut before = 0;
    for m in 1..month {
        before += lengths[(m - 1) as usize];
        if m == 2 && leap {
            before += 1;
        }
    }
    365 * past + past.div_euclid(4) - past.div_euclid(100) + past.div_euclid(400) + before + day
}

#[test]
fn weekday_of_agrees_with_the_day_number() {
    let years: [i16; 12] = [-9999, -401, -400, -1, 0, 1, 1600, 1900, 2000, 2023, 2024, 9999];
    for year in years {
        for month in 1..=12i8 {
            for day in 1..=days_in_month(year, month) {
                let number = model_day_number(year as i64, month as i64, day as i64);
                let expected = (number - 1).rem_euclid(7) as i8;
                assert_eq!(monday_offset(weekday_of(date(year, month, day))), expected);
            }
        }
    }
}

#[test]
fn monday_offset_counts_from_monday() {
    assert_eq!(monday_offset(Weekday::Monday), 0);
    assert_eq!(monday_offset(Weekday::Tuesday), 1);
    assert_eq!(monday_offset(Weekday::Wednesday), 2);
    assert_eq!(monday_offset(Weekday::Thursday), 3);
    assert_eq!(monday_offset(Weekday::Friday), 4);
    assert_eq!(monday_offset(Weekday::Saturday), 5);
    assert_eq!(monday_offset(Weekday::Sunday), 6);
}

#[test]
fn from_monday_offset_is_the_inverse() {
    for offset in 0..7i8 {
        let weekday = Weekday::from_monday_offset(offset).unwrap();
        assert_eq!(monday_offset(weekday), offset);
    }
    assert_eq!(Weekday::from_monday_offset(7), None);
    assert_eq!(Weekday::from_monday_offset(-1), None);
}

#[test]
fn weekend_is_saturday_and_sunday() {
    assert!(Weekday::Saturday.is_weekend());
    assert!(Weekday::Sunday.is_weekend());
    assert!(!Weekday::Friday.is_weekend());
    assert!(!Weekday::Monday.is_weekend());
}

#[test]
fn short_weekday_names() {
    assert_eq!(short_weekday(Weekday::Monday), "Mon");
    assert_eq!(short_weekday(Weekday::Tuesday), "Tue");
    assert_eq!(short_weekday(Weekday::Wednesday), "Wed");
    assert_eq!(short_weekday(Weekday::Thursday), "Thu");
    assert_eq!(short_weekday(Weekday::Friday), "Fri");
    assert_eq!(short_weekday(Weekday::Saturday), "Sat");
    assert_eq!(short_weekday(Weekday::Sunday), "Sun");
}

#[test]
fn week_bounds_for_every_day_of_a_week() {
    for day in 12..=18i8 {
        let (monday, friday) = week_bounds_containing(date(2024, 2, day));
        assert_eq!(fields(monday), (2024, 2, 12));
        assert_eq!(fields(friday), (2024, 2, 16));
        assert_eq!(weekday_of(monday), Weekday::Monday);
        assert_eq!(weekday_of(friday), Weekday::Friday);
    }
}

#[test]
fn week_bounds_of_a_weekend_day_lie_before_it() {
    let saturday = date(2024, 2, 17);
    let (monday, friday) = week_bounds_containing(saturday);
    assert!(monday.not_after(&saturday));
    assert!(friday.precedes(&saturday));
    assert!(!saturday.not_after(&friday));
}

#[test]
fn week_bounds_across_months_and_years() {
    let (monday, friday) = week_bounds_containing(date(2024, 3, 1));
    assert_eq!(fields(monday), (2024, 2, 26));
    assert_eq!(fields(friday), (2024, 3, 1));
    let (monday, friday) = week_bounds_containing(date(2023, 12, 31));
    assert_eq!(fields(monday), (2023, 12, 25));
    assert_eq!(fields(friday), (2023, 12, 29));
    let (monday, friday) = week_bounds_containing(date(2025, 1, 1));
    assert_eq!(fields(monday), (2024, 12, 30));
    assert_eq!(fields(friday), (2025, 1, 3));
}

#[test]
fn week_bounds_at_the_ends_of_the_calendar() {
    let (monday, friday) = week_bounds_containing(date(-9999, 1, 1));
    assert_eq!(fields(monday), (-9999, 1, 1));
    assert_eq!(fields(friday), (-9999, 1, 5));
    let (monday, friday) = week_bounds_containing(date(-9999, 1, 7));
    assert_eq!(fields(monday), (-9999, 1, 1));
    assert_eq!(fields(friday), (-9999, 1, 5));
    let (monday, friday) = week_bounds_containing(date(9999, 12, 31));
    assert_eq!(fields(monday), (9999, 12, 27));
    assert_eq!(fields(friday), (9999, 12, 31));
}

#[test]
fn quarter_month_range_maps_quarters_to_months() {
    assert_eq!(quarter_month_range(1), Ok((1, 3)));
    assert_eq!(quarter_month_range(2), Ok((4, 3)));
    assert_eq!(quarter_month_range(3), Ok((7, 3)));
    assert_eq!(quarter_month_range(4), Ok((10, 3)));
}

#[test]
fn quarter_month_range_refuses_other_numbers() {
    let refused = Err(CalendarError::InvalidQuarter { problem: QuarterProblem::OutOfRange });
    assert_eq!(quarter_month_range(0), refused);
    assert_eq!(quarter_month_range(5), refused);
    assert_eq!(quarter_month_range(255), refused);
}

#[test]
fn quarter_containing_every_month() {
    let quarters = [1, 1, 1, 2, 2, 2, 3, 3, 3, 4, 4, 4];
    for month in 1..=12i8 {
        assert_eq!(quarter_containing(date(2024, month, 15)), quarters[(month - 1) as usize]);
    }
}

#[test]
fn quarter_months_are_consecutive() {
    for year in [-9999i16, 1999, 2024, 9999] {
        for quarter in 1..=4u8 {
            let (start_month, count) = quarter_month_range(quarter).unwrap();
            assert_eq!(count, 3);
            let start = first_of_month(year, start_month).unwrap();
            for step in 0..3i16 {
                let month = add_months(start, step).unwrap();
                assert_eq!(
                    fields(month),
                    (year, 3 * (quarter as i8 - 1) + 1 + step as i8, 1)
                );
            }
        }
    }
}

#[test]
fn add_months_keeps_the_day_where_it_exists() {
    assert_eq!(fields(add_months(date(2024, 1, 15), 1).unwrap()), (2024, 2, 15));
    assert_eq!(fields(add_months(date(2024, 3, 31), 2).unwrap()), (2024, 5, 31));
    assert_eq!(fields(add_months(date(2024, 11, 30), 3).unwrap()), (2025, 2, 28));
    assert_eq!(fields(add_months(date(2024, 5, 7), 0).unwrap()), (2024, 5, 7));
    assert_eq!(fields(add_months(date(2024, 5, 7), 12).unwrap()), (2025, 5, 7));
    assert_eq!(fields(add_months(date(2024, 5, 7), 120).unwrap()), (2034, 5, 7));
}

#[test]
fn add_months_clamps_the_day() {
    assert_eq!(fields(add_months(date(2024, 3, 31), 1).unwrap()), (2024, 4, 30));
    assert_eq!(fields(add_months(date(2024, 1, 31), 1).unwrap()), (2024, 2, 29));
    assert_eq!(fields(add_months(date(2023, 1, 31), 1).unwrap()), (2023, 2, 28));
    assert_eq!(fields(add_months(date(2024, 2, 29), 12).unwrap()), (2025, 2, 28));
}

#[test]
fn add_months_goes_backwards() {
    assert_eq!(fields(add_months(date(2024, 3, 31), -1).unwrap()), (2024, 2, 29));
    assert_eq!(fields(add_months(date(2024, 1, 15), -1).unwrap()), (2023, 12, 15));
    assert_eq!(fields(add_months(date(2024, 1, 15), -13).unwrap()), (2022, 12, 15));
    assert_eq!(fields(add_months(date(0, 1, 1), -1).unwrap()), (-1, 12, 1));
}

#[test]
fn add_months_fails_outside_the_calendar() {
    assert_eq!(add_months(date(9999, 12, 1), 1), Err(CalendarError::DateArithmeticOverflow));
    assert_eq!(add_months(date(9999, 1, 1), 12), Err(CalendarError::DateArithmeticOverflow));
    assert_eq!(add_months(date(-9999, 1, 31), -1), Err(CalendarError::DateArithmeticOverflow));
    assert_eq!(fields(add_months(date(9999, 1, 1), 11).unwrap()), (9999, 12, 1));
    assert_eq!(fields(add_months(date(-9999, 12, 1), -11).unwrap()), (-9999, 1, 1));
    assert_eq!(add_months(date(8000, 1, 1), i16::MAX), Err(CalendarError::DateArithmeticOverflow));
    assert_eq!(add_months(date(-8000, 1, 1), i16::MIN), Err(CalendarError::DateArithmeticOverflow));
    assert_eq!(fields(add_months(date(2024, 1, 1), i16::MAX).unwrap()), (4754, 8, 1));
    assert_eq!(fields(add_months(date(2024, 1, 1), i16::MIN).unwrap()), (-707, 5, 1));
}

#[test]
fn dates_compare_in_calendar_order() {
    assert!(date(2023, 12, 31).precedes(&date(2024, 1, 1)));
    assert!(date(2024, 1, 31).precedes(&date(2024, 2, 1)));
    assert!(date(2024, 2, 1).precedes(&date(2024, 2, 2)));
    assert!(!date(2024, 2, 2).precedes(&date(2024, 2, 2)));
    assert!(date(2024, 2, 2).not_after(&date(2024, 2, 2)));
    assert!(!date(2024, 2, 3).not_after(&date(2024, 2, 2)));
    assert!(date(-1, 12, 31).precedes(&date(0, 1, 1)));
}
