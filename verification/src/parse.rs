//! Reading the month and quarter tokens of a command line.

use vstd::prelude::*;

use crate::error::{CalendarError, Failure, QuarterProblem};
use crate::month::Month;

verus! {

/// Which months to show besides the one asked for.
#[derive(Clone, Copy, Debug, PartialEq, Eq, Structural, Hash)]
pub enum QuarterMode {
    /// The quarter in which the requested month lies.
    Auto,
    /// The quarter with this number, 1 to 4.
    Specific(u8),
}

/// A capital letter from A to Z as its small letter; any other character
/// unchanged.
pub open spec fn lower_ascii_char(c: char) -> char {
    if 'A' <= c <= 'Z' {
        ((c as u8) + 32) as char
    } else {
        c
    }
}

/// `text` with its capital letters from A to Z made small.
pub open spec fn lower_ascii(text: Seq<char>) -> Seq<char> {
    Seq::new(text.len(), |i: int| lower_ascii_char(text[i]))
}

/// The month that a token in small letters names: its number, its first
/// three letters, or its full English name. December also answers to "dez".
pub open spec fn month_of_token(token: Seq<char>) -> Option<Month> {
    if token == "1"@ || token == "jan"@ || token == "january"@ {
        Some(Month::Jan)
    } else if token == "2"@ || token == "feb"@ || token == "february"@ {
        Some(Month::Feb)
    } else if token == "3"@ || token == "mar"@ || token == "march"@ {
        Some(Month::Mar)
    } else if token == "4"@ || token == "apr"@ || token == "april"@ {
        Some(Month::Apr)
    } else if token == "5"@ || token == "may"@ {
        Some(Month::May)
    } else if token == "6"@ || token == "jun"@ || token == "june"@ {
        Some(Month::Jun)
    } else if token == "7"@ || token == "jul"@ || token == "july"@ {
        Some(Month::Jul)
    } else if token == "8"@ || token == "aug"@ || token == "august"@ {
        Some(Month::Aug)
    } else if token == "9"@ || token == "sep"@ || token == "september"@ {
        Some(Month::Sep)
    } else if token == "10"@ || token == "oct"@ || token == "october"@ {
        Some(Month::Oct)
    } else if token == "11"@ || token == "nov"@ || token == "november"@ {
        Some(Month::Nov)
    } else if token == "12"@ || token == "dez"@ || token == "dec"@ || token == "december"@ {
        Some(Month::Dez)
    } else {
        None
    }
}

fn lower_char(c: char) -> (lowered: char)
    ensures
        lowered == lower_ascii_char(c),
{
    if 'A' <= c && c <= 'Z' {
        ((c as u8) + 32) as char
    } else {
        c
    }
}

fn lowered(text: &str) -> (small: Vec<char>)
    ensures
        small@ == lower_ascii(text@),
{
    let length = text.unicode_len();
    let mut small: Vec<char> = Vec::new();
    let mut at: usize = 0;
    while at < length
        invariant
            length == text@.len(),
            at <= length,
            small@ == lower_ascii(text@).take(at as int),
        decreases length - at,
    {
        small.push(lower_char(text.get_char(at)));
        at = at + 1;
        assert(small@ =~= lower_ascii(text@).take(at as int));
    }
    assert(small@ =~= lower_ascii(text@));
    small
}

fn spells(word: &Vec<char>, literal: &str) -> (same: bool)
    ensures
        same == (word@ == literal@),
{
    let length = literal.unicode_len();
    if word.len() != length {
        return false;
    }
    let mut at: usize = 0;
    while at < length
        invariant
            length == literal@.len(),
            word@.len() == length,
            at <= length,
            forall|i: int| 0 <= i < at ==> word@[i] == literal@[i],
        decreases length - at,
    {
        if word[at] != literal.get_char(at) {
            return false;
        }
        at = at + 1;
    }
    assert(word@ =~= literal@);
    true
}

fn month_named(token: &Vec<char>) -> (month: Option<Month>)
    ensures
        month == month_of_token(token@),
{
    if spells(token, "1") || spells(token, "jan") || spells(token, "january") {
        Some(Month::Jan)
    } else if spells(token, "2") || spells(token, "feb") || spells(token, "february") {
        Some(Month::Feb)
    } else if spells(token, "3") || spells(token, "mar") || spells(token, "march") {
        Some(Month::Mar)
    } else if spells(token, "4") || spells(token, "apr") || spells(token, "april") {
        Some(Month::Apr)
    } else if spells(token, "5") || spells(token, "may") {
        Some(Month::May)
    } else if spells(token, "6") || spells(token, "jun") || spells(token, "june") {
        Some(Month::Jun)
    } else if spells(token, "7") || spells(token, "jul") || spells(token, "july") {
        Some(Month::Jul)
    } else if spells(token, "8") || spells(token, "aug") || spells(token, "august") {
        Some(Month::Aug)
    } else if spells(token, "9") || spells(token, "sep") || spells(token, "september") {
        Some(Month::Sep)
    } else if spells(token, "10") || spells(token, "oct") || spells(token, "october") {
        Some(Month::Oct)
    } else if spells(token, "11") || spells(token, "nov") || spells(token, "november") {
        Some(Month::Nov)
    } else if spells(token, "12") || spells(token, "dez") || spells(token, "dec") || spells(
        token,
        "december",
    ) {
        Some(Month::Dez)
    } else {
        None
    }
}

/// Reads a month token: a number from 1 to 12, or an English month name or
/// its first three letters in capital or small letters. Any other token is
/// refused, and the error carries it as it was written.
pub fn parse_month(raw: &str) -> (parsed: Result<Month, CalendarError>)
    ensures
        match parsed {
            Ok(month) => month_of_token(lower_ascii(raw@)) == Some(month),
            Err(error) => month_of_token(lower_ascii(raw@)) is None && error@ == (
            Failure::InvalidMonth { token: raw@ }),
        },
{
    let token = lowered(raw);
    match month_named(&token) {
        Some(month) => Ok(month),
        None => Err(CalendarError::InvalidMonth { token: String::from_str(raw) }),
    }
}

/// Whether `c` is one of the digits 0 to 9.
pub open spec fn is_digit(c: char) -> bool {
    '0' <= c <= '9'
}

/// The number that a sequence of digits spells in decimal; 0 for none.
pub open spec fn digits_value(digits: Seq<char>) -> nat
    decreases digits.len(),
{
    if digits.len() == 0 {
        0
    } else {
        (10 * digits_value(digits.drop_last()) + (digits.last() as u8 - '0' as u8)) as nat
    }
}

/// The value of a token as a number of eight bits: one or more digits,
/// which a plus sign may precede, that spell a number up to 255. Leading
/// zeros are allowed; a minus sign, a space or an empty token is not.
pub open spec fn parse_u8(token: Seq<char>) -> Option<nat> {
    let digits = unsigned_part(token);
    if digits.len() > 0 && all_digits(digits) && digits_value(digits) <= 255 {
        Some(digits_value(digits))
    } else {
        None
    }
}

/// A token without the plus sign that it may begin with.
pub open spec fn unsigned_part(token: Seq<char>) -> Seq<char> {
    if token.len() > 0 && token[0] == '+' {
        token.skip(1)
    } else {
        token
    }
}

/// Whether every character of `text` is a digit.
pub open spec fn all_digits(text: Seq<char>) -> bool {
    forall|i: int| 0 <= i < text.len() ==> is_digit(#[trigger] text[i])
}

/// What a quarter token means: a quarter if it is a number from 1 to 4, and
/// else the reason why it is refused.
pub open spec fn quarter_of_token(token: Seq<char>) -> Result<QuarterMode, Failure> {
    match parse_u8(token) {
        Some(number) => if 1 <= number <= 4 {
            Ok(QuarterMode::Specific(number as u8))
        } else {
            Err(Failure::InvalidQuarter { problem: QuarterProblem::OutOfRange })
        },
        None => Err(Failure::InvalidQuarter { problem: QuarterProblem::NotANumber }),
    }
}

/// Reads a quarter token: a number from 1 to 4.
pub fn parse_quarter(raw: &str) -> (parsed: Result<QuarterMode, CalendarError>)
    ensures
        match parsed {
            Ok(mode) => quarter_of_token(raw@) == Ok::<QuarterMode, Failure>(mode),
            Err(error) => quarter_of_token(raw@) == Err::<QuarterMode, Failure>(error@),
        },
{
    let length = raw.unicode_len();
    let mut at: usize = 0;
    if length > 0 && raw.get_char(0) == '+' {
        at = 1;
    }
    let ghost digits = unsigned_part(raw@);
    let first = at;
    if at == length {
        return Err(CalendarError::InvalidQuarter { problem: QuarterProblem::NotANumber });
    }
    let mut value: u16 = 0;
    while at < length
        invariant
            length == raw@.len(),
            first <= at <= length,
            first <= 1,
            digits == unsigned_part(raw@),
            digits == raw@.skip(first as int),
            digits.len() == length - first,
            all_digits(digits.take(at - first)),
            value <= 256,
            value == if digits_value(digits.take(at - first)) <= 255 {
                digits_value(digits.take(at - first))
            } else {
                256
            },
        decreases length - at,
    {
        let c = raw.get_char(at);
        assert(c == digits[at - first]);
        if !('0' <= c && c <= '9') {
            assert(!is_digit(digits[at - first]));
            return Err(CalendarError::InvalidQuarter { problem: QuarterProblem::NotANumber });
        }
        let digit = (c as u8 - '0' as u8) as u16;
        assert(digits.take(at - first + 1).drop_last() =~= digits.take(at - first));
        assert(digits.take(at - first + 1).last() == c);
        let next = value * 10 + digit;
        value = if next > 255 {
            256
        } else {
            next
        };
        at = at + 1;
        assert forall|i: int| 0 <= i < at - first implies is_digit(
            #[trigger] digits.take(at - first)[i],
        ) by {
            if i < at - first - 1 {
                assert(digits.take(at - first)[i] == digits.take(at - first - 1)[i]);
            }
        }
    }
    assert(digits.take(length - first) =~= digits);
    if value > 255 {
        Err(CalendarError::InvalidQuarter { problem: QuarterProblem::NotANumber })
    } else if 1 <= value && value <= 4 {
        Ok(QuarterMode::Specific(value as u8))
    } else {
        Err(CalendarError::InvalidQuarter { problem: QuarterProblem::OutOfRange })
    }
}

} // verus!
