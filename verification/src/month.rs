//! The twelve months: their numbers, their English names, and the tokens by
//! which a user may name one.

use vstd::prelude::*;

verus! {

/// A month of the year.
#[derive(Clone, Copy, Debug, PartialEq, Eq, Structural, Hash)]
pub enum Month {
    Jan,
    Feb,
    Mar,
    Apr,
    May,
    Jun,
    Jul,
    Aug,
    Sep,
    Oct,
    Nov,
    Dez,
}

impl Month {
    /// The number of the month, 1 for January up to 12 for December.
    pub open spec fn number(self) -> int {
        match self {
            Month::Jan => 1,
            Month::Feb => 2,
            Month::Mar => 3,
            Month::Apr => 4,
            Month::May => 5,
            Month::Jun => 6,
            Month::Jul => 7,
            Month::Aug => 8,
            Month::Sep => 9,
            Month::Oct => 10,
            Month::Nov => 11,
            Month::Dez => 12,
        }
    }

    /// The number of the month, 1 for January up to 12 for December.
    pub fn ordinal(&self) -> (ordinal: i8)
        ensures
            ordinal == self.number(),
            1 <= ordinal <= 12,
    {
        match self {
            Month::Jan => 1,
            Month::Feb => 2,
            Month::Mar => 3,
            Month::Apr => 4,
            Month::May => 5,
            Month::Jun => 6,
            Month::Jul => 7,
            Month::Aug => 8,
            Month::Sep => 9,
            Month::Oct => 10,
            Month::Nov => 11,
            Month::Dez => 12,
        }
    }
}

/// The English name of the month with the given number.
pub open spec fn month_name_text(ordinal: int) -> Seq<char> {
    if ordinal == 1 {
        "January"@
    } else if ordinal == 2 {
        "February"@
    } else if ordinal == 3 {
        "March"@
    } else if ordinal == 4 {
        "April"@
    } else if ordinal == 5 {
        "May"@
    } else if ordinal == 6 {
        "June"@
    } else if ordinal == 7 {
        "July"@
    } else if ordinal == 8 {
        "August"@
    } else if ordinal == 9 {
        "September"@
    } else if ordinal == 10 {
        "October"@
    } else if ordinal == 11 {
        "November"@
    } else {
        "December"@
    }
}

/// The English name of the month with the given number.
pub fn month_name(ordinal: i8) -> (name: &'static str)
    requires
        1 <= ordinal <= 12,
    ensures
        name@ == month_name_text(ordinal as int),
{
    match ordinal {
        1 => "January",
        2 => "February",
        3 => "March",
        4 => "April",
        5 => "May",
        6 => "June",
        7 => "July",
        8 => "August",
        9 => "September",
        10 => "October",
        11 => "November",
        _ => "December",
    }
}

/// No month name is longer than nine characters.
pub proof fn lemma_month_name_length(ordinal: int)
    ensures
        3 <= month_name_text(ordinal).len() <= 9,
{
    reveal_strlit("January");
    reveal_strlit("February");
    reveal_strlit("March");
    reveal_strlit("April");
    reveal_strlit("May");
    reveal_strlit("June");
    reveal_strlit("July");
    reveal_strlit("August");
    reveal_strlit("September");
    reveal_strlit("October");
    reveal_strlit("November");
    reveal_strlit("December");
}

} // verus!
