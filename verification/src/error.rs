//! The ways in which a calendar request can fail.

use vstd::prelude::*;

verus! {

/// Why a quarter token was refused.
#[derive(Clone, Copy, Debug, PartialEq, Eq, Structural)]
pub enum QuarterProblem {
    /// The token is not a number that fits in eight bits.
    NotANumber,
    /// The token is a number outside 1..=4.
    OutOfRange,
}

/// An error that ends a calendar request before anything is rendered.
#[derive(Debug, PartialEq, Eq)]
pub enum CalendarError {
    /// A month that is no month name, abbreviation or number from 1 to 12;
    /// `token` is the offending input as it was written.
    InvalidMonth { token: String },
    /// A quarter that is no number from 1 to 4.
    InvalidQuarter { problem: QuarterProblem },
    /// A date that lies outside the supported years or does not exist.
    DateArithmeticOverflow,
}

/// The model of a [`CalendarError`]: the same cases, with the offending
/// token as a sequence of characters.
pub enum Failure {
    InvalidMonth { token: Seq<char> },
    InvalidQuarter { problem: QuarterProblem },
    DateArithmeticOverflow,
}

impl Failure {
    /// The one-line message shown to the user: what was wrong and, for a
    /// month or quarter, which forms are accepted.
    pub open spec fn message(self) -> Seq<char> {
        match self {
            Failure::InvalidMonth { token } => "Invalid month '"@ + token
                + "'. Use month name (jan, january), abbreviation, or number (1-12)"@,
            Failure::InvalidQuarter { problem: QuarterProblem::NotANumber } =>
                "Quarter must be a number between 1 and 4"@,
            Failure::InvalidQuarter { problem: QuarterProblem::OutOfRange } =>
                "Quarter must be between 1 and 4"@,
            Failure::DateArithmeticOverflow =>
                "Date is outside the supported calendar (years -9999 to 9999)"@,
        }
    }
}

impl View for CalendarError {
    type V = Failure;

    open spec fn view(&self) -> Failure {
        match self {
            CalendarError::InvalidMonth { token } => Failure::InvalidMonth { token: token@ },
            CalendarError::InvalidQuarter { problem } => Failure::InvalidQuarter {
                problem: *problem,
            },
            CalendarError::DateArithmeticOverflow => Failure::DateArithmeticOverflow,
        }
    }
}

impl CalendarError {
    /// The one-line message shown to the user.
    pub fn message(&self) -> (text: String)
        ensures
            text@ == self@.message(),
    {
        match self {
            CalendarError::InvalidMonth { token } => {
                let mut text = String::from_str("Invalid month '");
                text.append(token.as_str());
                text.append("'. Use month name (jan, january), abbreviation, or number (1-12)");
                text
            },
            CalendarError::InvalidQuarter { problem: QuarterProblem::NotANumber } => {
                String::from_str("Quarter must be a number between 1 and 4")
            },
            CalendarError::InvalidQuarter { problem: QuarterProblem::OutOfRange } => {
                String::from_str("Quarter must be between 1 and 4")
            },
            CalendarError::DateArithmeticOverflow => {
                String::from_str("Date is outside the supported calendar (years -9999 to 9999)")
            },
        }
    }
}

} // verus!
