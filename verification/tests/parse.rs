use termcal::{
    month_name, parse_month, parse_quarter, CalendarError, Month, QuarterMode, QuarterProblem,
};

const MONTHS: [Month; 12] = [
    Month::Jan,
    Month::Feb,
    Month::Mar,
    Month::Apr,
    Month::May,
    Month::Jun,
    Month::Jul,
    Month::Aug,
    Month::Sep,
    Month::Oct,
    Month::Nov,
    Month::Dez,
];

#[test]
fn ordinal_counts_from_one() {
    for (index, month) in MONTHS.iter().enumerate() {
        assert_eq!(month.ordinal(), index as i8 + 1);
    }
}

#[test]
fn month_names_are_english() {
    let names = [
        "January",
        "February",
        "March",
        "April",
        "May",
        "June",
        "July",
        "August",
        "September",
        "October",
        "November",
        "December",
    ];
    for ordinal in 1..=12i8 {
        assert_eq!(month_name(ordinal), names[(ordinal - 1) as usize]);
    }
}

#[test]
fn parse_month_reads_numbers() {
    for (index, month) in MONTHS.iter().enumerate() {
        assert_eq!(parse_month(&format!("{}", index + 1)), Ok(*month));
    }
}

#[test]
fn parse_month_reads_names_and_abbreviations() {
    let tokens = [
        ("jan", "january"),
        ("feb", "february"),
        ("mar", "march"),
        ("apr", "april"),
        ("may", "may"),
        ("jun", "june"),
        ("jul", "july"),
        ("aug", "august"),
        ("sep", "september"),
        ("oct", "october"),
        ("nov", "november"),
        ("dec", "december"),
    ];
    for (index, (short, full)) in tokens.iter().enumerate() {
        assert_eq!(parse_month(short), Ok(MONTHS[index]));
        assert_eq!(parse_month(full), Ok(MONTHS[index]));
    }
    assert_eq!(parse_month("dez"), Ok(Month::Dez));
}

#[test]
fn parse_month_ignores_case() {
    assert_eq!(parse_month("JAN"), Ok(Month::Jan));
    assert_eq!(parse_month("January"), Ok(Month::Jan));
    assert_eq!(parse_month("fEbRuArY"), Ok(Month::Feb));
    assert_eq!(parse_month("DEZ"), Ok(Month::Dez));
    assert_eq!(parse_month("Sep"), Ok(Month::Sep));
}

#[test]
fn parse_month_refuses_thirteen() {
    let error = parse_month("13").unwrap_err();
    assert_eq!(error, CalendarError::InvalidMonth { token: "13".to_string() });
    assert!(error.message().contains("13"));
    assert_eq!(
        error.message(),
        "Invalid month '13'. Use month name (jan, january), abbreviation, or number (1-12)"
    );
}

#[test]
fn parse_month_refuses_foo() {
    let error = parse_month("foo").unwrap_err();
    assert_eq!(error, CalendarError::InvalidMonth { token: "foo".to_string() });
    assert!(error.message().contains("foo"));
    assert_eq!(
        error.message(),
        "Invalid month 'foo'. Use month name (jan, january), abbreviation, or number (1-12)"
    );
}

#[test]
fn parse_month_keeps_the_token_as_written() {
    let error = parse_month("FooBar").unwrap_err();
    assert_eq!(error, CalendarError::InvalidMonth { token: "FooBar".to_string() });
    let error = parse_month("märz").unwrap_err();
    assert_eq!(error, CalendarError::InvalidMonth { token: "märz".to_string() });
}

#[test]
fn parse_month_refuses_near_misses() {
    for token in ["", "0", "01", "1 ", " jan", "janu", "sept", "decembe", "+1", "-1", "1.0"] {
        assert_eq!(
            parse_month(token),
            Err(CalendarError::InvalidMonth { token: token.to_string() }),
            "token {:?}",
            token
        );
    }
}

#[test]
fn parse_quarter_reads_one_to_four() {
    assert_eq!(parse_quarter("1"), Ok(QuarterMode::Specific(1)));
    assert_eq!(parse_quarter("2"), Ok(QuarterMode::Specific(2)));
    assert_eq!(parse_quarter("3"), Ok(QuarterMode::Specific(3)));
    assert_eq!(parse_quarter("4"), Ok(QuarterMode::Specific(4)));
}

#[test]
fn parse_quarter_reads_a_plus_sign_and_leading_zeros() {
    assert_eq!(parse_quarter("+3"), Ok(QuarterMode::Specific(3)));
    assert_eq!(parse_quarter("004"), Ok(QuarterMode::Specific(4)));
    assert_eq!(parse_quarter("+0001"), Ok(QuarterMode::Specific(1)));
    assert_eq!(parse_quarter("0000000000000000000000002"), Ok(QuarterMode::Specific(2)));
}

#[test]
fn parse_quarter_refuses_numbers_out_of_range() {
    let refused = Err(CalendarError::InvalidQuarter { problem: QuarterProblem::OutOfRange });
    for token in ["0", "5", "9", "10", "100", "255", "+255", "000"] {
        assert_eq!(parse_quarter(token), refused, "token {:?}", token);
    }
}

#[test]
fn parse_quarter_refuses_what_is_no_small_number() {
    let refused = Err(CalendarError::InvalidQuarter { problem: QuarterProblem::NotANumber });
    let tokens = [
        "", "+", "-", "-1", "abc", "1a", "a1", " 1", "1 ", "1.0", "256", "300", "99999", "++1",
        "٣",
    ];
    for token in tokens {
        assert_eq!(parse_quarter(token), refused, "token {:?}", token);
    }
}

#[test]
fn parse_quarter_agrees_with_the_standard_parser() {
    let tokens = ["0", "1", "4", "5", "17", "255", "256", "+4", "-4", "", "+", "04", "4x", "1000"];
    for token in tokens {
        let expected = match token.parse::<u8>() {
            Ok(number) if (1..=4).contains(&number) => Ok(QuarterMode::Specific(number)),
            Ok(_) => Err(CalendarError::InvalidQuarter { problem: QuarterProblem::OutOfRange }),
            Err(_) => Err(CalendarError::InvalidQuarter { problem: QuarterProblem::NotANumber }),
        };
        assert_eq!(parse_quarter(token), expected, "token {:?}", token);
    }
}

#[test]
fn quarter_messages() {
    assert_eq!(
        parse_quarter("x").unwrap_err().message(),
        "Quarter must be a number between 1 and 4"
    );
    assert_eq!(parse_quarter("7").unwrap_err().message(), "Quarter must be between 1 and 4");
}

#[test]
fn overflow_message() {
    assert_eq!(
        CalendarError::DateArithmeticOverflow.message(),
        "Date is outside the supported calendar (years -9999 to 9999)"
    );
}
