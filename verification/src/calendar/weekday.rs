//! The days of the week.

#![allow(non_upper_case_globals)]

use vstd::prelude::*;
use crate::calendar::text::eq_ignore_ascii_case;
use crate::calendar::text::same_ignoring_case;

verus! {

/// The days of the week, from Monday, of index 0, to Sunday, of index 6.
#[derive(Clone, Copy, Debug, PartialEq, Eq, Structural)]
pub enum Weekday {
    Monday,
    Tuesday,
    Wednesday,
    Thursday,
    Friday,
    Saturday,
    Sunday,
}

/// The abbreviations of three letters, as names of the weekdays.
impl Weekday {
    pub const Mon: Weekday = Weekday::Monday;

    pub const Tue: Weekday = Weekday::Tuesday;

    pub const Wed: Weekday = Weekday::Wednesday;

    pub const Thu: Weekday = Weekday::Thursday;

    pub const Fri: Weekday = Weekday::Friday;

    pub const Sat: Weekday = Weekday::Saturday;

    pub const Sun: Weekday = Weekday::Sunday;
}

/// The abbreviations of two letters, as names of the weekdays.
impl Weekday {
    pub const MO: Weekday = Weekday::Monday;

    pub const TU: Weekday = Weekday::Tuesday;

    pub const WE: Weekday = Weekday::Wednesday;

    pub const TH: Weekday = Weekday::Thursday;

    pub const FR: Weekday = Weekday::Friday;

    pub const SA: Weekday = Weekday::Saturday;

    pub const SU: Weekday = Weekday::Sunday;
}

/// The abbreviations of one letter, as names of the weekdays.
impl Weekday {
    pub const M: Weekday = Weekday::Monday;

    pub const T: Weekday = Weekday::Tuesday;

    pub const W: Weekday = Weekday::Wednesday;

    pub const H: Weekday = Weekday::Thursday;

    pub const F: Weekday = Weekday::Friday;

    pub const S: Weekday = Weekday::Saturday;

    pub const U: Weekday = Weekday::Sunday;
}

impl Weekday {
    /// The weekday's index, Monday being 0.
    pub open spec fn spec_index(self) -> int {
        match self {
            Weekday::Monday => 0,
            Weekday::Tuesday => 1,
            Weekday::Wednesday => 2,
            Weekday::Thursday => 3,
            Weekday::Friday => 4,
            Weekday::Saturday => 5,
            Weekday::Sunday => 6,
        }
    }

    /// The weekday of index `index`, taken modulo 7, Monday being 0.
    pub open spec fn of_index(index: int) -> Weekday {
        let i = index % 7;
        if i == 0 {
            Weekday::Monday
        } else if i == 1 {
            Weekday::Tuesday
        } else if i == 2 {
            Weekday::Wednesday
        } else if i == 3 {
            Weekday::Thursday
        } else if i == 4 {
            Weekday::Friday
        } else if i == 5 {
            Weekday::Saturday
        } else {
            Weekday::Sunday
        }
    }

    /// The day after; Monday after Sunday.
    pub open spec fn spec_next(self) -> Weekday {
        Weekday::of_index(self.spec_index() + 1)
    }

    /// The day before; Sunday before Monday.
    pub open spec fn spec_previous(self) -> Weekday {
        Weekday::of_index(self.spec_index() + 6)
    }

    /// The weekday's full English name.
    pub open spec fn spec_name(self) -> Seq<char> {
        match self {
            Weekday::Monday => "Monday"@,
            Weekday::Tuesday => "Tuesday"@,
            Weekday::Wednesday => "Wednesday"@,
            Weekday::Thursday => "Thursday"@,
            Weekday::Friday => "Friday"@,
            Weekday::Saturday => "Saturday"@,
            Weekday::Sunday => "Sunday"@,
        }
    }

    /// The weekday's abbreviation of three letters.
    pub open spec fn spec_abbr3(self) -> Seq<char> {
        match self {
            Weekday::Monday => "Mon"@,
            Weekday::Tuesday => "Tue"@,
            Weekday::Wednesday => "Wed"@,
            Weekday::Thursday => "Thu"@,
            Weekday::Friday => "Fri"@,
            Weekday::Saturday => "Sat"@,
            Weekday::Sunday => "Sun"@,
        }
    }

    /// The weekday's abbreviation of two letters.
    pub open spec fn spec_abbr2(self) -> Seq<char> {
        match self {
            Weekday::Monday => "MO"@,
            Weekday::Tuesday => "TU"@,
            Weekday::Wednesday => "WE"@,
            Weekday::Thursday => "TH"@,
            Weekday::Friday => "FR"@,
            Weekday::Saturday => "SA"@,
            Weekday::Sunday => "SU"@,
        }
    }

    /// The weekday's abbreviation of one letter.
    pub open spec fn spec_abbr1(self) -> Seq<char> {
        match self {
            Weekday::Monday => "M"@,
            Weekday::Tuesday => "T"@,
            Weekday::Wednesday => "W"@,
            Weekday::Thursday => "H"@,
            Weekday::Friday => "F"@,
            Weekday::Saturday => "S"@,
            Weekday::Sunday => "U"@,
        }
    }

    /// Whether `text` names the weekday: it is the full name or one of the
    /// three abbreviations, the case of ASCII letters left aside.
    pub open spec fn is_named(self, text: Seq<char>) -> bool {
        ||| same_ignoring_case(text, self.spec_name())
        ||| same_ignoring_case(text, self.spec_abbr3())
        ||| same_ignoring_case(text, self.spec_abbr2())
        ||| same_ignoring_case(text, self.spec_abbr1())
    }

    /// The day before; Sunday before Monday.
    pub fn previous(&self) -> (day: Weekday)
        ensures
            day == self.spec_previous(),
            day.spec_index() == (self.spec_index() + 6) % 7,
    {
        match self {
            Weekday::Monday => Weekday::Sunday,
            Weekday::Tuesday => Weekday::Monday,
            Weekday::Wednesday => Weekday::Tuesday,
            Weekday::Thursday => Weekday::Wednesday,
            Weekday::Friday => Weekday::Thursday,
            Weekday::Saturday => Weekday::Friday,
            Weekday::Sunday => Weekday::Saturday,
        }
    }

    /// The day after; Monday after Sunday.
    pub fn next(self) -> (day: Weekday)
        ensures
            day == self.spec_next(),
            day.spec_index() == (self.spec_index() + 1) % 7,
    {
        match self {
            Weekday::Monday => Weekday::Tuesday,
            Weekday::Tuesday => Weekday::Wednesday,
            Weekday::Wednesday => Weekday::Thursday,
            Weekday::Thursday => Weekday::Friday,
            Weekday::Friday => Weekday::Saturday,
            Weekday::Saturday => Weekday::Sunday,
            Weekday::Sunday => Weekday::Monday,
        }
    }

    /// The weekday's number, Monday being 1.
    pub fn number_from_monday(self) -> (number: u8)
        ensures
            number == self.spec_index() + 1,
    {
        match self {
            Weekday::Monday => 1,
            Weekday::Tuesday => 2,
            Weekday::Wednesday => 3,
            Weekday::Thursday => 4,
            Weekday::Friday => 5,
            Weekday::Saturday => 6,
            Weekday::Sunday => 7,
        }
    }

    /// The weekday's number, Sunday being 1.
    pub fn number_from_sunday(self) -> (number: u8)
        ensures
            number == (self.spec_index() + 1) % 7 + 1,
    {
        match self {
            Weekday::Monday => 2,
            Weekday::Tuesday => 3,
            Weekday::Wednesday => 4,
            Weekday::Thursday => 5,
            Weekday::Friday => 6,
            Weekday::Saturday => 7,
            Weekday::Sunday => 1,
        }
    }

    /// The weekday's index, Monday being 0.
    pub fn index_from_monday(self) -> (index: usize)
        ensures
            index == self.spec_index(),
    {
        match self {
            Weekday::Monday => 0,
            Weekday::Tuesday => 1,
            Weekday::Wednesday => 2,
            Weekday::Thursday => 3,
            Weekday::Friday => 4,
            Weekday::Saturday => 5,
            Weekday::Sunday => 6,
        }
    }

    /// The weekday's index, Sunday being 0.
    pub fn index_from_sunday(self) -> (index: usize)
        ensures
            index == (self.spec_index() + 1) % 7,
    {
        match self {
            Weekday::Monday => 1,
            Weekday::Tuesday => 2,
            Weekday::Wednesday => 3,
            Weekday::Thursday => 4,
            Weekday::Friday => 5,
            Weekday::Saturday => 6,
            Weekday::Sunday => 0,
        }
    }

    /// The weekday's full English name.
    pub fn name(&self) -> (name: &'static str)
        ensures
            name@ == self.spec_name(),
    {
        match self {
            Weekday::Monday => "Monday",
            Weekday::Tuesday => "Tuesday",
            Weekday::Wednesday => "Wednesday",
            Weekday::Thursday => "Thursday",
            Weekday::Friday => "Friday",
            Weekday::Saturday => "Saturday",
            Weekday::Sunday => "Sunday",
        }
    }

    /// The abbreviation of three letters: the first three of the name.
    pub fn abbr3(&self) -> (abbr: &'static str)
        ensures
            abbr@ == self.spec_abbr3(),
    {
        match self {
            Weekday::Monday => "Mon",
            Weekday::Tuesday => "Tue",
            Weekday::Wednesday => "Wed",
            Weekday::Thursday => "Thu",
            Weekday::Friday => "Fri",
            Weekday::Saturday => "Sat",
            Weekday::Sunday => "Sun",
        }
    }

    /// The abbreviation of two capital letters.
    pub fn abbr2(&self) -> (abbr: &'static str)
        ensures
            abbr@ == self.spec_abbr2(),
    {
        match self {
            Weekday::Monday => "MO",
            Weekday::Tuesday => "TU",
            Weekday::Wednesday => "WE",
            Weekday::Thursday => "TH",
            Weekday::Friday => "FR",
            Weekday::Saturday => "SA",
            Weekday::Sunday => "SU",
        }
    }

    /// The abbreviation of one capital letter.
    pub fn abbr1(&self) -> (abbr: &'static str)
        ensures
            abbr@ == self.spec_abbr1(),
    {
        match self {
            Weekday::Monday => "M",
            Weekday::Tuesday => "T",
            Weekday::Wednesday => "W",
            Weekday::Thursday => "H",
            Weekday::Friday => "F",
            Weekday::Saturday => "S",
            Weekday::Sunday => "U",
        }
    }

    /// The weekday of index `n`, Monday being 0, if `n` is below 7.
    fn from_index(n: u8) -> (r: Option<Weekday>)
        ensures
            r is Some <==> n < 7,
            r matches Some(day) ==> day.spec_index() == n,
    {
        match n {
            0 => Some(Weekday::Monday),
            1 => Some(Weekday::Tuesday),
            2 => Some(Weekday::Wednesday),
            3 => Some(Weekday::Thursday),
            4 => Some(Weekday::Friday),
            5 => Some(Weekday::Saturday),
            6 => Some(Weekday::Sunday),
            _ => None,
        }
    }

    /// Whether `text` names this weekday.
    fn answers_to(self, text: &str) -> (named: bool)
        ensures
            named == self.is_named(text@),
    {
        eq_ignore_ascii_case(text, self.name()) || eq_ignore_ascii_case(text, self.abbr3())
            || eq_ignore_ascii_case(text, self.abbr2()) || eq_ignore_ascii_case(
            text,
            self.abbr1(),
        )
    }

    /// The weekday that `text` names: by its full name or by an
    /// abbreviation of three, two or one letters, in any case.
    pub fn from_name(text: &str) -> (r: Result<Weekday, &'static str>)
        ensures
            r is Err <==> forall|day: Weekday| !day.is_named(text@),
            r matches Ok(day) ==> day.is_named(text@) && forall|earlier: Weekday|
                earlier.spec_index() < day.spec_index() ==> !earlier.is_named(text@),
            r matches Err(message) ==> message@ == "Invalid weekday name."@,
    {
        let mut i: u8 = 0;
        while i < 7
            invariant
                i <= 7,
                forall|earlier: Weekday| earlier.spec_index() < i ==> !earlier.is_named(text@),
            decreases 7 - i,
        {
            match Weekday::from_index(i) {
                Some(day) => {
                    if day.answers_to(text) {
                        return Ok(day);
                    }
                },
                None => {},
            }
            proof {
                law_index_tells_weekday();
            }
            i = i + 1;
        }
        Err("Invalid weekday name.")
    }
}

impl core::str::FromStr for Weekday {
    type Err = &'static str;

    /// The weekday that `s` names: see [`Weekday::from_name`].
    fn from_str(s: &str) -> (r: Result<Weekday, &'static str>)
        ensures
            r is Err <==> forall|day: Weekday| !day.is_named(s@),
            r matches Ok(day) ==> day.is_named(s@) && forall|earlier: Weekday|
                earlier.spec_index() < day.spec_index() ==> !earlier.is_named(s@),
            r matches Err(message) ==> message@ == "Invalid weekday name."@,
    {
        Weekday::from_name(s)
    }
}

/// A weekday is told by its index: two weekdays of one index are one
/// weekday, and every index lies between 0 and 6.
pub proof fn law_index_tells_weekday()
    ensures
        forall|a: Weekday, b: Weekday| a.spec_index() == b.spec_index() ==> a == b,
        forall|a: Weekday| 0 <= #[trigger] a.spec_index() <= 6,
{
}

/// Going on a day and going back a day undo each other, and seven steps
/// forward come round to the day they began with.
pub proof fn law_next_and_previous_undo(day: Weekday)
    ensures
        day.spec_next().spec_previous() == day,
        day.spec_previous().spec_next() == day,
        Weekday::of_index(day.spec_index() + 7) == day,
{
}

} // verus!
