//! Months, weekdays and the rules of the Gregorian calendar.

use vstd::prelude::*;

pub mod month;
pub mod text;
pub mod weekday;

pub use month::Month;
pub use weekday::Weekday;

verus! {

/// Whether `year` is a leap year of the Gregorian calendar, carried back
/// before its introduction: every fourth year, but of the years that end a
/// century only every fourth.
pub open spec fn is_leap(year: int) -> bool {
    year % 4 == 0 && (year % 100 != 0 || year % 400 == 0)
}

/// Whether `year` is a leap year.
pub fn is_leap_year(year: i32) -> (leap: bool)
    ensures
        leap == is_leap(year as int),
{
    (year % 4 == 0 && year % 100 != 0) || year % 400 == 0
}

} // verus!
