//! The months of the year.

#![allow(non_upper_case_globals)]

use vstd::prelude::*;
use vstd::std_specs::convert::FromSpecImpl;
use crate::calendar::text::eq_ignore_ascii_case;
use crate::calendar::text::same_ignoring_case;

verus! {

/// The months, from January, of index 0, to December, of index 11.
#[derive(Clone, Copy, Debug, PartialEq, Eq, Structural, PartialOrd, Ord)]
pub enum Month {
    January,
    February,
    March,
    April,
    May,
    June,
    July,
    August,
    September,
    October,
    November,
    December,
}

/// The abbreviations of three letters, as names of the months.
impl Month {
    pub const Jan: Month = Month::January;

    pub const Feb: Month = Month::February;

    pub const Mar: Month = Month::March;

    pub const Apr: Month = Month::April;

    pub const Jun: Month = Month::June;

    pub const Jul: Month = Month::July;

    pub const Aug: Month = Month::August;

    pub const Sep: Month = Month::September;

    pub const Oct: Month = Month::October;

    pub const Nov: Month = Month::November;

    pub const Dec: Month = Month::December;
}

/// The abbreviations of two letters, as names of the months.
impl Month {
    pub const JA: Month = Month::January;

    pub const FE: Month = Month::February;

    pub const MR: Month = Month::March;

    pub const AP: Month = Month::April;

    pub const MY: Month = Month::May;

    pub const JN: Month = Month::June;

    pub const JL: Month = Month::July;

    pub const AU: Month = Month::August;

    pub const SE: Month = Month::September;

    pub const OC: Month = Month::October;

    pub const NV: Month = Month::November;

    pub const DE: Month = Month::December;
}

impl Month {
    /// The month's index, January being 0.
    pub open spec fn spec_index(self) -> int {
        match self {
            Month::January => 0,
            Month::February => 1,
            Month::March => 2,
            Month::April => 3,
            Month::May => 4,
            Month::June => 5,
            Month::July => 6,
            Month::August => 7,
            Month::September => 8,
            Month::October => 9,
            Month::November => 10,
            Month::December => 11,
        }
    }

    /// The month of index `index`, taken modulo 12.
    pub open spec fn of_index(index: int) -> Month {
        let i = index % 12;
        if i == 0 {
            Month::January
        } else if i == 1 {
            Month::February
        } else if i == 2 {
            Month::March
        } else if i == 3 {
            Month::April
        } else if i == 4 {
            Month::May
        } else if i == 5 {
            Month::June
        } else if i == 6 {
            Month::July
        } else if i == 7 {
            Month::August
        } else if i == 8 {
            Month::September
        } else if i == 9 {
            Month::October
        } else if i == 10 {
            Month::November
        } else {
            Month::December
        }
    }

    /// The month after; January after December.
    pub open spec fn spec_next(self) -> Month {
        Month::of_index(self.spec_index() + 1)
    }

    /// The month before; December before January.
    pub open spec fn spec_previous(self) -> Month {
        Month::of_index(self.spec_index() + 11)
    }

    /// The month's days in a year that is not a leap year.
    pub open spec fn spec_days(self) -> int {
        match self {
            Month::February => 28,
            Month::April | Month::June | Month::September | Month::November => 30,
            _ => 31,
        }
    }

    /// The month's days in a leap year, if `leap`, or in another year.
    pub open spec fn spec_len(self, leap: bool) -> int {
        if leap && self == Month::February {
            29
        } else {
            self.spec_days()
        }
    }

    /// The month's full English name.
    pub open spec fn spec_name(self) -> Seq<char> {
        match self {
            Month::January => "January"@,
            Month::February => "February"@,
            Month::March => "March"@,
            Month::April => "April"@,
            Month::May => "May"@,
            Month::June => "June"@,
            Month::July => "July"@,
            Month::August => "August"@,
            Month::September => "September"@,
            Month::October => "October"@,
            Month::November => "November"@,
            Month::December => "December"@,
        }
    }

    /// The month's abbreviation of three letters.
    pub open spec fn spec_abbr3(self) -> Seq<char> {
        match self {
            Month::January => "Jan"@,
            Month::February => "Feb"@,
            Month::March => "Mar"@,
            Month::April => "Apr"@,
            Month::May => "May"@,
            Month::June => "Jun"@,
            Month::July => "Jul"@,
            Month::August => "Aug"@,
            Month::September => "Sep"@,
            Month::October => "Oct"@,
            Month::November => "Nov"@,
            Month::December => "Dec"@,
        }
    }

    /// The month's abbreviation of two letters.
    pub open spec fn spec_abbr2(self) -> Seq<char> {
        match self {
            Month::January => "JA"@,
            Month::February => "FE"@,
            Month::March => "MR"@,
            Month::April => "AP"@,
            Month::May => "MY"@,
            Month::June => "JN"@,
            Month::July => "JL"@,
            Month::August => "AU"@,
            Month::September => "SE"@,
            Month::October => "OC"@,
            Month::November => "NV"@,
            Month::December => "DE"@,
        }
    }

    /// The month's abbreviation of one letter. June and November share
    /// theirs.
    pub open spec fn spec_abbr1(self) -> Seq<char> {
        match self {
            Month::January => "J"@,
            Month::February => "F"@,
            Month::March => "M"@,
            Month::April => "P"@,
            Month::May => "Y"@,
            Month::June => "N"@,
            Month::July => "L"@,
            Month::August => "U"@,
            Month::September => "S"@,
            Month::October => "O"@,
            Month::November => "N"@,
            Month::December => "D"@,
        }
    }

    /// Whether `text` names the month: it is the full name or one of the
    /// three abbreviations, the case of ASCII letters left aside.
    pub open spec fn is_named(self, text: Seq<char>) -> bool {
        ||| same_ignoring_case(text, self.spec_name())
        ||| same_ignoring_case(text, self.spec_abbr3())
        ||| same_ignoring_case(text, self.spec_abbr2())
        ||| same_ignoring_case(text, self.spec_abbr1())
    }

    /// The number of days of the month in a year that is not a leap year.
    pub fn days(&self) -> (days: u8)
        ensures
            days == self.spec_days(),
    {
        match self {
            Month::January => 31,
            Month::February => 28,
            Month::March => 31,
            Month::April => 30,
            Month::May => 31,
            Month::June => 30,
            Month::July => 31,
            Month::August => 31,
            Month::September => 30,
            Month::October => 31,
            Month::November => 30,
            Month::December => 31,
        }
    }

    /// The number of days of the month in a leap year, if `leap`, or in
    /// another year.
    pub fn len(&self, leap: bool) -> (days: u8)
        ensures
            days == self.spec_len(leap),
    {
        match self {
            Month::February => if leap {
                29
            } else {
                28
            },
            _ => self.days(),
        }
    }

    /// The month before; December before January.
    pub fn previous(self) -> (month: Month)
        ensures
            month == self.spec_previous(),
            month.spec_index() == (self.spec_index() + 11) % 12,
    {
        match self {
            Month::January => Month::December,
            Month::February => Month::January,
            Month::March => Month::February,
            Month::April => Month::March,
            Month::May => Month::April,
            Month::June => Month::May,
            Month::July => Month::June,
            Month::August => Month::July,
            Month::September => Month::August,
            Month::October => Month::September,
            Month::November => Month::October,
            Month::December => Month::November,
        }
    }

    /// The month after; January after December.
    pub fn next(self) -> (month: Month)
        ensures
            month == self.spec_next(),
            month.spec_index() == (self.spec_index() + 1) % 12,
    {
        match self {
            Month::January => Month::February,
            Month::February => Month::March,
            Month::March => Month::April,
            Month::April => Month::May,
            Month::May => Month::June,
            Month::June => Month::July,
            Month::July => Month::August,
            Month::August => Month::September,
            Month::September => Month::October,
            Month::October => Month::November,
            Month::November => Month::December,
            Month::December => Month::January,
        }
    }

    /// The month's number, January being 1.
    pub fn number(self) -> (number: u8)
        ensures
            number == self.spec_index() + 1,
    {
        self.index() + 1
    }

    /// The month's index, January being 0.
    pub fn index(self) -> (index: u8)
        ensures
            index == self.spec_index(),
    {
        match self {
            Month::January => 0,
            Month::February => 1,
            Month::March => 2,
            Month::April => 3,
            Month::May => 4,
            Month::June => 5,
            Month::July => 6,
            Month::August => 7,
            Month::September => 8,
            Month::October => 9,
            Month::November => 10,
            Month::December => 11,
        }
    }

    /// The month of number `n`, which must lie between 1 and 12.
    pub fn from_number(n: u8) -> (r: Result<Month, &'static str>)
        ensures
            r is Ok <==> 1 <= n <= 12,
            r matches Ok(month) ==> month.spec_index() + 1 == n,
            r matches Err(message) ==> message@ == "The month number must be between 1 and 12."@,
    {
        match n {
            1 => Ok(Month::January),
            2 => Ok(Month::February),
            3 => Ok(Month::March),
            4 => Ok(Month::April),
            5 => Ok(Month::May),
            6 => Ok(Month::June),
            7 => Ok(Month::July),
            8 => Ok(Month::August),
            9 => Ok(Month::September),
            10 => Ok(Month::October),
            11 => Ok(Month::November),
            12 => Ok(Month::December),
            _ => Err("The month number must be between 1 and 12."),
        }
    }

    /// The month of index `n`, which must lie between 0 and 11.
    pub fn from_index(n: u8) -> (r: Result<Month, &'static str>)
        ensures
            r is Ok <==> n <= 11,
            r matches Ok(month) ==> month.spec_index() == n,
            r matches Err(message) ==> message@ == "The month index must be between 0 and 11."@,
    {
        match n {
            0 => Ok(Month::January),
            1 => Ok(Month::February),
            2 => Ok(Month::March),
            3 => Ok(Month::April),
            4 => Ok(Month::May),
            5 => Ok(Month::June),
            6 => Ok(Month::July),
            7 => Ok(Month::August),
            8 => Ok(Month::September),
            9 => Ok(Month::October),
            10 => Ok(Month::November),
            11 => Ok(Month::December),
            _ => Err("The month index must be between 0 and 11."),
        }
    }

    /// The month's full English name.
    pub fn name(&self) -> (name: &'static str)
        ensures
            name@ == self.spec_name(),
    {
        match self {
            Month::January => "January",
            Month::February => "February",
            Month::March => "March",
            Month::April => "April",
            Month::May => "May",
            Month::June => "June",
            Month::July => "July",
            Month::August => "August",
            Month::September => "September",
            Month::October => "October",
            Month::November => "November",
            Month::December => "December",
        }
    }

    /// The abbreviation of three letters: the first three of the name.
    pub fn abbr3(&self) -> (abbr: &'static str)
        ensures
            abbr@ == self.spec_abbr3(),
    {
        match self {
            Month::January => "Jan",
            Month::February => "Feb",
            Month::March => "Mar",
            Month::April => "Apr",
            Month::May => "May",
            Month::June => "Jun",
            Month::July => "Jul",
            Month::August => "Aug",
            Month::September => "Sep",
            Month::October => "Oct",
            Month::November => "Nov",
            Month::December => "Dec",
        }
    }

    /// The abbreviation of two capital letters.
    pub fn abbr2(&self) -> (abbr: &'static str)
        ensures
            abbr@ == self.spec_abbr2(),
    {
        match self {
            Month::January => "JA",
            Month::February => "FE",
            Month::March => "MR",
            Month::April => "AP",
            Month::May => "MY",
            Month::June => "JN",
            Month::July => "JL",
            Month::August => "AU",
            Month::September => "SE",
            Month::October => "OC",
            Month::November => "NV",
            Month::December => "DE",
        }
    }

    /// The abbreviation of one capital letter.
    pub fn abbr1(&self) -> (abbr: &'static str)
        ensures
            abbr@ == self.spec_abbr1(),
    {
        match self {
            Month::January => "J",
            Month::February => "F",
            Month::March => "M",
            Month::April => "P",
            Month::May => "Y",
            Month::June => "N",
            Month::July => "L",
            Month::August => "U",
            Month::September => "S",
            Month::October => "O",
            Month::November => "N",
            Month::December => "D",
        }
    }

    /// Whether `text` names this month.
    fn answers_to(self, text: &str) -> (named: bool)
        ensures
            named == self.is_named(text@),
    {
        eq_ignore_ascii_case(text, self.name()) || eq_ignore_ascii_case(text, self.abbr3())
            || eq_ignore_ascii_case(text, self.abbr2()) || eq_ignore_ascii_case(
            text,
            self.abbr1(),
        )
    }

    /// The month that `text` names: by its full name or by an abbreviation
    /// of three, two or one letters, in any case. Of the months that share
    /// an abbreviation the earlier one is meant.
    pub fn from_name(text: &str) -> (r: Result<Month, &'static str>)
        ensures
            r is Err <==> forall|month: Month| !month.is_named(text@),
            r matches Ok(month) ==> month.is_named(text@) && forall|earlier: Month|
                earlier.spec_index() < month.spec_index() ==> !earlier.is_named(text@),
            r matches Err(message) ==> message@ == "Invalid month name."@,
    {
        let mut i: u8 = 0;
        while i < 12
            invariant
                i <= 12,
                forall|earlier: Month| earlier.spec_index() < i ==> !earlier.is_named(text@),
            decreases 12 - i,
        {
            match Month::from_index(i) {
                Ok(month) => {
                    if month.answers_to(text) {
                        return Ok(month);
                    }
                },
                Err(_) => {},
            }
            proof {
                law_index_tells_month();
            }
            i = i + 1;
        }
        Err("Invalid month name.")
    }
}

impl From<Month> for u8 {
    /// The month's index, January being 0.
    fn from(month: Month) -> (index: u8) {
        month.index()
    }
}

impl FromSpecImpl<Month> for u8 {
    open spec fn obeys_from_spec() -> bool {
        true
    }

    open spec fn from_spec(month: Month) -> u8 {
        month.spec_index() as u8
    }
}

impl core::str::FromStr for Month {
    type Err = &'static str;

    /// The month that `s` names: see [`Month::from_name`].
    fn from_str(s: &str) -> (r: Result<Month, &'static str>)
        ensures
            r is Err <==> forall|month: Month| !month.is_named(s@),
            r matches Ok(month) ==> month.is_named(s@) && forall|earlier: Month|
                earlier.spec_index() < month.spec_index() ==> !earlier.is_named(s@),
            r matches Err(message) ==> message@ == "Invalid month name."@,
    {
        Month::from_name(s)
    }
}

/// A month is told by its index: two months of one index are one month, and
/// every index lies between 0 and 11.
pub proof fn law_index_tells_month()
    ensures
        forall|a: Month, b: Month| a.spec_index() == b.spec_index() ==> a == b,
        forall|a: Month| 0 <= #[trigger] a.spec_index() <= 11,
{
}

/// Going on a month and going back a month undo each other, and twelve
/// steps forward come round to the month they began with.
pub proof fn law_next_and_previous_undo(month: Month)
    ensures
        month.spec_next().spec_previous() == month,
        month.spec_previous().spec_next() == month,
        Month::of_index(month.spec_index() + 12) == month,
{
}

/// The months of a year that is not a leap year have 365 days between them.
pub proof fn law_year_has_365_days()
    ensures
        Month::January.spec_days() + Month::February.spec_days() + Month::March.spec_days()
            + Month::April.spec_days() + Month::May.spec_days() + Month::June.spec_days()
            + Month::July.spec_days() + Month::August.spec_days() + Month::September.spec_days()
            + Month::October.spec_days() + Month::November.spec_days()
            + Month::December.spec_days() == 365,
{
}

} // verus!
