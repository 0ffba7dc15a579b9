//! The seven days of the week, counted from Monday.

use vstd::prelude::*;

verus! {

/// A day of the week.
#[derive(Clone, Copy, Debug, PartialEq, Eq, Structural, Hash)]
pub enum Weekday {
    Monday,
    Tuesday,
    Wednesday,
    Thursday,
    Friday,
    Saturday,
    Sunday,
}

impl Weekday {
    /// The distance from Monday: 0 for Monday up to 6 for Sunday.
    pub open spec fn offset(self) -> int {
        match self {
            Weekday::Monday => 0,
            Weekday::Tuesday => 1,
            Weekday::Wednesday => 2,
            Weekday::Thursday => 3,
            Weekday::Friday => 4,
            Weekday::Saturday => 5,
            Weekday::Sunday => 6,
        }
    }

    /// The weekday at distance `offset` from Monday, for `offset` in 0..=6.
    pub open spec fn at_offset(offset: int) -> Weekday {
        if offset == 0 {
            Weekday::Monday
        } else if offset == 1 {
            Weekday::Tuesday
        } else if offset == 2 {
            Weekday::Wednesday
        } else if offset == 3 {
            Weekday::Thursday
        } else if offset == 4 {
            Weekday::Friday
        } else if offset == 5 {
            Weekday::Saturday
        } else {
            Weekday::Sunday
        }
    }

    /// The weekday at distance `offset` from Monday, if `offset` is in 0..=6.
    pub fn from_monday_offset(offset: i8) -> (day: Option<Weekday>)
        ensures
            0 <= offset <= 6 ==> day == Some(Weekday::at_offset(offset as int)),
            0 <= offset <= 6 ==> day->Some_0.offset() == offset,
            !(0 <= offset <= 6) ==> day is None,
    {
        match offset {
            0 => Some(Weekday::Monday),
            1 => Some(Weekday::Tuesday),
            2 => Some(Weekday::Wednesday),
            3 => Some(Weekday::Thursday),
            4 => Some(Weekday::Friday),
            5 => Some(Weekday::Saturday),
            6 => Some(Weekday::Sunday),
            _ => None,
        }
    }

    /// Saturday or Sunday.
    pub fn is_weekend(self) -> (weekend: bool)
        ensures
            weekend == (self.offset() >= 5),
    {
        match self {
            Weekday::Saturday | Weekday::Sunday => true,
            _ => false,
        }
    }
}

/// The distance of `weekday` from Monday: 0 for Monday up to 6 for Sunday.
pub fn monday_offset(weekday: Weekday) -> (offset: i8)
    ensures
        offset == weekday.offset(),
        0 <= offset <= 6,
        weekday == Weekday::at_offset(offset as int),
{
    match weekday {
        Weekday::Monday => 0,
        Weekday::Tuesday => 1,
        Weekday::Wednesday => 2,
        Weekday::Thursday => 3,
        Weekday::Friday => 4,
        Weekday::Saturday => 5,
        Weekday::Sunday => 6,
    }
}

/// The three-letter English name of a weekday.
pub open spec fn short_weekday_name(weekday: Weekday) -> Seq<char> {
    match weekday {
        Weekday::Monday => "Mon"@,
        Weekday::Tuesday => "Tue"@,
        Weekday::Wednesday => "Wed"@,
        Weekday::Thursday => "Thu"@,
        Weekday::Friday => "Fri"@,
        Weekday::Saturday => "Sat"@,
        Weekday::Sunday => "Sun"@,
    }
}

/// The three-letter English name of a weekday.
pub fn short_weekday(weekday: Weekday) -> (name: &'static str)
    ensures
        name@ == short_weekday_name(weekday),
{
    match weekday {
        Weekday::Monday => "Mon",
        Weekday::Tuesday => "Tue",
        Weekday::Wednesday => "Wed",
        Weekday::Thursday => "Thu",
        Weekday::Friday => "Fri",
        Weekday::Saturday => "Sat",
        Weekday::Sunday => "Sun",
    }
}

} // verus!
