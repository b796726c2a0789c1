//! Unix time: seconds counted from 1970-01-01 00:00:00 UTC.

use vstd::prelude::*;
use vstd::std_specs::convert::FromSpecImpl;
use vstd::string::StringExecFns;
use crate::calendar::is_leap;
use crate::calendar::month::Month;
use crate::fmt::decimal;
use crate::fmt::push_decimal;
use crate::fmt::push_zero_padded;
use crate::fmt::zero_padded;

verus! {

/// The reading of a system clock: `std::time::SystemTime`, carried as it
/// is.
#[verifier::external_type_specification]
#[verifier::external_body]
pub struct ExSystemTime(std::time::SystemTime);

/// The seconds of a day.
pub const SECONDS_PER_DAY: i64 = 86_400;

/// The first second of the first year that an `i32` can number.
pub const MIN_DATED_SECONDS: i64 = -67_768_100_567_971_200;

/// The last second of the last year that an `i32` can number.
pub const MAX_DATED_SECONDS: i64 = 67_767_976_233_532_799;

/// The leap years among the years from 1 up to, and without, `year`; for a
/// year before that, the leap years from it up to year 0, taken negative.
pub open spec fn leap_years_before(year: int) -> int {
    (year - 1) / 4 - (year - 1) / 100 + (year - 1) / 400
}

/// The days from the first day of 1970 to the first day of `year`; negative
/// for a year before 1970.
pub open spec fn days_before_year(year: int) -> int {
    365 * (year - 1970) + leap_years_before(year) - leap_years_before(1970)
}

/// The days of a year before the month of index `index` begins: the lengths
/// of the months before it, taken together.
pub open spec fn days_before_month(index: int, leap: bool) -> int
    decreases index,
{
    if index <= 0 {
        0
    } else {
        days_before_month(index - 1, leap) + Month::of_index(index - 1).spec_len(leap)
    }
}

/// A date of the Gregorian calendar with a time of day.
pub struct CivilTime {
    /// The year; 0 is the year before year 1.
    pub year: int,
    /// The month's number, from 1.
    pub month: int,
    /// The day of the month, from 1.
    pub day: int,
    /// The hour of the day, from 0.
    pub hour: int,
    /// The minute of the hour, from 0.
    pub minute: int,
    /// The second of the minute, from 0.
    pub second: int,
}

impl CivilTime {
    /// Whether there is such a date and time: the month is one of the
    /// twelve, the day one of that month in that year, and the time one of
    /// the day.
    pub open spec fn is_valid(self) -> bool {
        &&& 1 <= self.month <= 12
        &&& 1 <= self.day <= Month::of_index(self.month - 1).spec_len(is_leap(self.year))
        &&& 0 <= self.hour < 24
        &&& 0 <= self.minute < 60
        &&& 0 <= self.second < 60
    }

    /// The days from the first day of 1970 to the date.
    pub open spec fn days(self) -> int {
        days_before_year(self.year) + days_before_month(self.month - 1, is_leap(self.year))
            + (self.day - 1)
    }

    /// The seconds from the first second of 1970 to the date and time.
    pub open spec fn seconds(self) -> int {
        self.days() * SECONDS_PER_DAY + self.hour * 3600 + self.minute * 60 + self.second
    }
}

/// The date and time of the second that lies `seconds` seconds from the
/// first second of 1970. There is one, and one only, for every second.
pub open spec fn civil_time_at(seconds: int) -> CivilTime {
    choose|time: CivilTime| time.is_valid() && time.seconds() == seconds
}

/// The date and time that six numbers stand for, the year first.
pub open spec fn civil(y: int, m: int, d: int, h: int, min: int, s: int) -> CivilTime {
    CivilTime { year: y, month: m, day: d, hour: h, minute: min, second: s }
}

/// `n` in decimal digits, with zeros in front up to `width` digits.
pub open spec fn at_least_digits(n: nat, width: nat) -> Seq<char> {
    if decimal(n).len() < width {
        zero_padded(n, width)
    } else {
        decimal(n)
    }
}

/// The year as it is written in a date: four digits at the least, a year
/// before year 0 with a minus sign in place of the first.
pub open spec fn year_text(year: int) -> Seq<char> {
    if year < 0 {
        seq!['-'] + at_least_digits((-year) as nat, 3)
    } else {
        at_least_digits(year as nat, 4)
    }
}

/// The date and time written as `2038-01-19_03:14:07`.
pub open spec fn date_text(time: CivilTime) -> Seq<char> {
    year_text(time.year) + seq!['-'] + zero_padded(time.month as nat, 2) + seq!['-']
        + zero_padded(time.day as nat, 2) + seq!['_'] + zero_padded(time.hour as nat, 2)
        + seq![':'] + zero_padded(time.minute as nat, 2) + seq![':'] + zero_padded(
        time.second as nat,
        2,
    )
}

/// A reading of the system's clock, by `std::time::SystemTime::now`.
/// Nothing is claimed of the reading.
#[verifier::external_body]
fn read_system_clock() -> std::time::SystemTime {
    std::time::SystemTime::now()
}

/// The whole seconds from the first second of 1970 to `reading`, negative
/// where the reading lies before, by
/// `time::ext::SystemTimeExt::signed_duration_since`, which saturates and
/// does not fail, and `time::Duration::whole_seconds`. Nothing is claimed of
/// the number.
#[verifier::external_body]
fn seconds_since_epoch(reading: &std::time::SystemTime) -> i64 {
    time::ext::SystemTimeExt::signed_duration_since(reading, std::time::UNIX_EPOCH).whole_seconds()
}

/// Every year has 365 days, and a leap year one more.
pub proof fn law_year_length(year: int)
    ensures
        days_before_year(year + 1) - days_before_year(year) == if is_leap(year) {
            366int
        } else {
            365int
        },
{
}

/// The days before each month of a year, and the days of the whole year.
proof fn lemma_days_before_months(leap: bool)
    ensures
        days_before_month(0, leap) == 0,
        days_before_month(1, leap) == 31,
        days_before_month(2, leap) == 59 + if leap { 1int } else { 0int },
        days_before_month(3, leap) == 90 + if leap { 1int } else { 0int },
        days_before_month(4, leap) == 120 + if leap { 1int } else { 0int },
        days_before_month(5, leap) == 151 + if leap { 1int } else { 0int },
        days_before_month(6, leap) == 181 + if leap { 1int } else { 0int },
        days_before_month(7, leap) == 212 + if leap { 1int } else { 0int },
        days_before_month(8, leap) == 243 + if leap { 1int } else { 0int },
        days_before_month(9, leap) == 273 + if leap { 1int } else { 0int },
        days_before_month(10, leap) == 304 + if leap { 1int } else { 0int },
        days_before_month(11, leap) == 334 + if leap { 1int } else { 0int },
        days_before_month(12, leap) == 365 + if leap { 1int } else { 0int },
{
    reveal_with_fuel(days_before_month, 13);
}

/// Years come in order: a later year begins later, by 365 days a year at
/// the least.
proof fn lemma_years_in_order(earlier: int, later: int)
    ensures
        earlier <= later ==> days_before_year(later) - days_before_year(earlier) >= 365 * (later
            - earlier),
    decreases later - earlier,
{
    if earlier < later {
        lemma_years_in_order(earlier, later - 1);
        law_year_length(later - 1);
    }
}

/// The day of a valid date lies in its year.
proof fn lemma_date_lies_in_its_year(time: CivilTime)
    requires
        time.is_valid(),
    ensures
        days_before_year(time.year) <= time.days() < days_before_year(time.year + 1),
        0 <= time.hour * 3600 + time.minute * 60 + time.second < SECONDS_PER_DAY,
{
    lemma_days_before_months(is_leap(time.year));
    law_year_length(time.year);
}

/// Within a year, a day falls in one month, on one day of it.
proof fn lemma_one_month_per_day(leap: bool, month: int, day: int, other_month: int, other_day: int)
    requires
        1 <= month <= 12,
        1 <= other_month <= 12,
        1 <= day <= Month::of_index(month - 1).spec_len(leap),
        1 <= other_day <= Month::of_index(other_month - 1).spec_len(leap),
        days_before_month(month - 1, leap) + day == days_before_month(other_month - 1, leap)
            + other_day,
    ensures
        month == other_month,
        day == other_day,
{
    lemma_days_before_months(leap);
}

/// A second has one date and time: two valid dates with times that lie the
/// same number of seconds from the first second of 1970 are the same.
pub proof fn law_one_time_per_second(a: CivilTime, b: CivilTime)
    requires
        a.is_valid(),
        b.is_valid(),
        a.seconds() == b.seconds(),
    ensures
        a == b,
{
    lemma_date_lies_in_its_year(a);
    lemma_date_lies_in_its_year(b);
    let time_a = a.hour * 3600 + a.minute * 60 + a.second;
    let time_b = b.hour * 3600 + b.minute * 60 + b.second;
    assert(a.days() == b.days() && time_a == time_b) by {
        assert(a.days() * 86_400 + time_a == b.days() * 86_400 + time_b);
    }
    assert(a.year == b.year) by {
        lemma_years_in_order(a.year + 1, b.year);
        lemma_years_in_order(b.year + 1, a.year);
    }
    lemma_one_month_per_day(is_leap(a.year), a.month, a.day, b.month, b.day);
}

/// The days from the first day of 1970 to the first day of `year`.
fn days_up_to(year: i128) -> (days: i128)
    requires
        -1_000_000_000_000 <= year <= 1_000_000_000_000,
    ensures
        days == days_before_year(year as int),
{
    // moved by a multiple of 400 years, the year is positive
    let moved: i128 = year - 1 + 400_000_000_000_000;
    let fourth: i128 = moved / 4 - 100_000_000_000_000;
    let hundredth: i128 = moved / 100 - 4_000_000_000_000;
    let four_hundredth: i128 = moved / 400 - 1_000_000_000_000;
    365 * (year - 1970) + fourth - hundredth + four_hundredth - 477
}

/// The year in which the day `days` after the first of 1970 falls.
fn year_of(days: i128) -> (year: i128)
    requires
        -800_000_000_000 <= days <= 800_000_000_000,
    ensures
        days_before_year(year as int) <= days < days_before_year(year + 1),
        -3_000_000_000 <= year <= 3_000_000_000,
{
    // a first guess from the mean length of a year, set right below
    let moved: i128 = days * 400 + 146_097 * 4_000_000_000_000;
    let mut year: i128 = 1970 + (moved / 146_097 - 4_000_000_000_000);
    while days < days_up_to(year)
        invariant
            -800_000_000_000 <= days <= 800_000_000_000,
            -3_000_000_000 <= year <= 3_000_000_000,
        decreases year + 3_000_000_000,
    {
        proof {
            law_year_length(year - 1);
        }
        year = year - 1;
    }
    while days >= days_up_to(year + 1)
        invariant
            -800_000_000_000 <= days <= 800_000_000_000,
            -3_000_000_000 <= year <= 3_000_000_000,
            days_before_year(year as int) <= days,
        decreases 3_000_000_000 - year,
    {
        proof {
            law_year_length(year as int);
        }
        year = year + 1;
    }
    year
}

/// The month, and the day of it, on which day number `day_of_year` of a
/// year falls, the first day of the year being number 0.
fn month_of(day_of_year: i128, leap: bool) -> (r: (Month, u8))
    requires
        0 <= day_of_year < days_before_month(12, leap),
    ensures
        days_before_month(r.0.spec_index(), leap) + (r.1 - 1) == day_of_year,
        1 <= r.1 <= r.0.spec_len(leap),
{
    let mut month = Month::January;
    let mut rest: i128 = day_of_year;
    proof {
        lemma_days_before_months(leap);
    }
    while rest >= month.len(leap) as i128
        invariant
            0 <= rest,
            days_before_month(month.spec_index(), leap) + rest == day_of_year,
            day_of_year < days_before_month(12, leap),
        decreases rest,
    {
        proof {
            lemma_days_before_months(leap);
        }
        rest = rest - month.len(leap) as i128;
        month = month.next();
    }
    (month, (rest + 1) as u8)
}

/// The day on which a second falls, counted from the first of 1970, and the
/// second of that day.
fn day_of(seconds: i64) -> (r: (i128, i128))
    ensures
        r.0 * SECONDS_PER_DAY + r.1 == seconds,
        0 <= r.1 < SECONDS_PER_DAY,
{
    // moved by a whole number of days, the count is positive
    let moved: i128 = seconds as i128 + 86_400 * 1_000_000_000_000_000;
    (moved / 86_400 - 1_000_000_000_000_000, moved % 86_400)
}

/// The hour, minute and second of the second `second_of_day` of a day.
fn time_of(second_of_day: i128) -> (r: (u8, u8, u8))
    requires
        0 <= second_of_day < SECONDS_PER_DAY,
    ensures
        r.0 * 3600 + r.1 * 60 + r.2 == second_of_day,
        r.0 < 24,
        r.1 < 60,
        r.2 < 60,
{
    (
        (second_of_day / 3600) as u8,
        ((second_of_day % 3600) / 60) as u8,
        (second_of_day % 60) as u8,
    )
}

/// A day between the first of the first year and the last of the last year
/// that an `i32` can number falls in a year that an `i32` can number.
proof fn lemma_year_is_numbered(days: int, year: int)
    requires
        days_before_year(year) <= days < days_before_year(year + 1),
        days_before_year(i32::MIN as int) <= days < days_before_year(i32::MAX + 1),
    ensures
        i32::MIN <= year <= i32::MAX,
{
    lemma_years_in_order(i32::MAX + 1, year);
    lemma_years_in_order(year + 1, i32::MIN as int);
}

/// The days of the seconds that can be dated lie between the first day of
/// the first year and the last day of the last year that an `i32` can
/// number.
proof fn lemma_dated_days(seconds: int, days: int, second_of_day: int)
    requires
        MIN_DATED_SECONDS <= seconds <= MAX_DATED_SECONDS,
        days * SECONDS_PER_DAY + second_of_day == seconds,
        0 <= second_of_day < SECONDS_PER_DAY,
    ensures
        days_before_year(i32::MIN as int) <= days < days_before_year(i32::MAX + 1),
        -800_000_000_000 <= days <= 800_000_000_000,
{
    assert(days_before_year(i32::MIN as int) == -784_353_015_833);
    assert(days_before_year(i32::MAX + 1) == 784_351_576_777);
}

/// A day of a year, a month and a day of that month that make up the day,
/// and an hour, minute and second that make up the second of the day, are
/// the valid date and time of the second.
proof fn lemma_parts_make_the_time(
    seconds: int,
    days: int,
    second_of_day: int,
    time: CivilTime,
)
    requires
        days * SECONDS_PER_DAY + second_of_day == seconds,
        days_before_year(time.year) <= days < days_before_year(time.year + 1),
        1 <= time.month <= 12,
        days_before_month(time.month - 1, is_leap(time.year)) + (time.day - 1) == days
            - days_before_year(time.year),
        1 <= time.day <= Month::of_index(time.month - 1).spec_len(is_leap(time.year)),
        time.hour * 3600 + time.minute * 60 + time.second == second_of_day,
        0 <= time.hour < 24,
        0 <= time.minute < 60,
        0 <= time.second < 60,
    ensures
        time.is_valid(),
        time.seconds() == seconds,
{
}

/// A day that falls in a year is one of the days of that year.
proof fn lemma_day_of_the_year(days: int, year: int)
    requires
        days_before_year(year) <= days < days_before_year(year + 1),
    ensures
        0 <= days - days_before_year(year) < days_before_month(12, is_leap(year)),
{
    law_year_length(year);
    lemma_days_before_months(is_leap(year));
}

/// Whether `year` is a leap year.
fn leap_of(year: i128) -> (leap: bool)
    ensures
        leap == is_leap(year as int),
{
    (year % 4 == 0 && year % 100 != 0) || year % 400 == 0
}

/// The date and time of the second `seconds` after the first of 1970.
fn civil_time(seconds: i64) -> (r: (i128, Month, u8, u8, u8, u8))
    requires
        MIN_DATED_SECONDS <= seconds <= MAX_DATED_SECONDS,
    ensures
        i32::MIN <= r.0 <= i32::MAX,
        civil(
            r.0 as int,
            r.1.spec_index() + 1,
            r.2 as int,
            r.3 as int,
            r.4 as int,
            r.5 as int,
        ).is_valid(),
        civil(
            r.0 as int,
            r.1.spec_index() + 1,
            r.2 as int,
            r.3 as int,
            r.4 as int,
            r.5 as int,
        ).seconds() == seconds,
{
    let (days, second_of_day) = day_of(seconds);
    proof {
        lemma_dated_days(seconds as int, days as int, second_of_day as int);
    }
    let year = year_of(days);
    let leap = leap_of(year);
    let first = days_up_to(year);
    proof {
        lemma_day_of_the_year(days as int, year as int);
        lemma_year_is_numbered(days as int, year as int);
    }
    let (month, day) = month_of(days - first, leap);
    let (hour, minute, second) = time_of(second_of_day);
    proof {
        assert(Month::of_index(month.spec_index()) == month);
        lemma_parts_make_the_time(
            seconds as int,
            days as int,
            second_of_day as int,
            civil(
                year as int,
                month.spec_index() + 1,
                day as int,
                hour as int,
                minute as int,
                second as int,
            ),
        );
    }
    (year, month, day, hour, minute, second)
}

/// A valid date and time at a second that 32 bits can count lies between
/// 1970 and 2106.
proof fn lemma_years_of_32_bits(time: CivilTime)
    requires
        time.is_valid(),
        0 <= time.seconds() <= u32::MAX,
    ensures
        1970 <= time.year <= 2106,
{
    lemma_date_lies_in_its_year(time);
    lemma_years_in_order(time.year + 1, 1970);
    lemma_years_in_order(2107, time.year);
}

/// A valid date and time is the date and time of its second.
proof fn lemma_found_is_the_time(found: CivilTime)
    requires
        found.is_valid(),
    ensures
        civil_time_at(found.seconds()) == found,
{
    law_one_time_per_second(found, civil_time_at(found.seconds()));
}

/// The number of decimal digits of `n`.
fn count_digits(n: u64) -> (count: usize)
    ensures
        count == decimal(n as nat).len(),
    decreases n,
{
    if n < 10 {
        1
    } else {
        proof {
            lemma_decimal_is_short((n / 10) as nat);
        }
        count_digits(n / 10) + 1
    }
}

/// A number below 2^64 has at most twenty digits.
proof fn lemma_decimal_is_short(n: nat)
    requires
        n <= u64::MAX,
    ensures
        decimal(n).len() <= 20,
{
    reveal_with_fuel(decimal, 21);
}

/// Appends `n` in decimal to `out`, with zeros in front up to `width`
/// digits.
fn push_at_least(out: &mut String, n: u64, width: u8)
    ensures
        final(out)@ == old(out)@ + at_least_digits(n as nat, width as nat),
{
    if count_digits(n) < width as usize {
        push_zero_padded(out, n, width);
    } else {
        push_decimal(out, n);
    }
}

/// The date and time written as `2038-01-19_03:14:07`.
fn write_date(year: i64, month: u8, day: u8, hour: u8, minute: u8, second: u8) -> (text: String)
    requires
        i32::MIN <= year <= i32::MAX,
    ensures
        text@ == date_text(
            civil(
                year as int,
                month as int,
                day as int,
                hour as int,
                minute as int,
                second as int,
            ),
        ),
{
    proof {
        reveal_strlit("-");
        reveal_strlit("_");
        reveal_strlit(":");
    }
    let mut text = String::new();
    if year < 0 {
        text.append("-");
        push_at_least(&mut text, (-year) as u64, 3);
    } else {
        push_at_least(&mut text, year as u64, 4);
    }
    text.append("-");
    push_zero_padded(&mut text, month as u64, 2);
    text.append("-");
    push_zero_padded(&mut text, day as u64, 2);
    text.append("_");
    push_zero_padded(&mut text, hour as u64, 2);
    text.append(":");
    push_zero_padded(&mut text, minute as u64, 2);
    text.append(":");
    push_zero_padded(&mut text, second as u64, 2);
    text
}

/// 64-bit Unix time: the seconds since, or if negative before, the first
/// second of 1970, UTC.
#[derive(Clone, Copy, Debug, Default, PartialEq, Eq, Structural, PartialOrd, Ord)]
pub struct UnixTime {
    pub seconds: i64,
}

/// 32-bit Unix time: the seconds since the first second of 1970, UTC. It
/// reaches from `1970-01-01 00:00:00` to `2106-02-07 06:28:15`.
#[derive(Clone, Copy, Debug, Default, PartialEq, Eq, Structural, PartialOrd, Ord)]
pub struct UnixTime32 {
    pub seconds: u32,
}

impl UnixTime {
    /// The Unix time of `seconds` seconds.
    pub fn new(seconds: i64) -> (time: UnixTime)
        ensures
            time.seconds == seconds,
    {
        UnixTime { seconds }
    }

    /// The Unix time of the present second, as the system's clock has it:
    /// [`UnixTime::new`] of the seconds that the clock counts from the
    /// first second of 1970, whatever they are.
    pub fn now() -> UnixTime {
        let reading = read_system_clock();
        UnixTime::new(seconds_since_epoch(&reading))
    }

    /// The date and time written as `2038-01-19_03:14:07`. The year must be
    /// one that an `i32` can number.
    pub fn to_string(&self) -> (text: String)
        requires
            MIN_DATED_SECONDS <= self.seconds <= MAX_DATED_SECONDS,
        ensures
            text@ == date_text(civil_time_at(self.seconds as int)),
    {
        let (year, month, day, hour, minute, second) = self.to_ymdhms();
        write_date(year as i64, month, day, hour, minute, second)
    }

    /// The date and time as year, month, day, hour, minute and second. The
    /// year must be one that an `i32` can number.
    pub fn to_ymdhms(&self) -> (r: (i32, u8, u8, u8, u8, u8))
        requires
            MIN_DATED_SECONDS <= self.seconds <= MAX_DATED_SECONDS,
        ensures
            civil(r.0 as int, r.1 as int, r.2 as int, r.3 as int, r.4 as int, r.5 as int)
                == civil_time_at(self.seconds as int),
            civil_time_at(self.seconds as int).is_valid(),
            civil_time_at(self.seconds as int).seconds() == self.seconds,
    {
        let (year, month, day, hour, minute, second) = civil_time(self.seconds);
        proof {
            lemma_found_is_the_time(
                civil(
                    year as int,
                    month.spec_index() + 1,
                    day as int,
                    hour as int,
                    minute as int,
                    second as int,
                ),
            );
        }
        (year as i32, month.number(), day, hour, minute, second)
    }
}

impl UnixTime32 {
    /// The Unix time of `seconds` seconds.
    pub fn new(seconds: u32) -> (time: UnixTime32)
        ensures
            time.seconds == seconds,
    {
        UnixTime32 { seconds }
    }

    /// The Unix time of the present second, as the system's clock has it:
    /// [`UnixTime32::saturating_new`] of the seconds that the clock counts
    /// from the first second of 1970, whatever they are.
    pub fn now() -> UnixTime32 {
        let reading = read_system_clock();
        UnixTime32::saturating_new(seconds_since_epoch(&reading))
    }

    /// The Unix time of `seconds` seconds where 32 bits can count them:
    /// zero for a second before 1970, and the last second there is for one
    /// beyond it.
    pub fn saturating_new(seconds: i64) -> (time: UnixTime32)
        ensures
            time.seconds == (if seconds < 0 {
                0
            } else if seconds > u32::MAX {
                u32::MAX as int
            } else {
                seconds as int
            }),
    {
        if seconds < 0 {
            UnixTime32 { seconds: 0 }
        } else if seconds > u32::MAX as i64 {
            UnixTime32 { seconds: u32::MAX }
        } else {
            UnixTime32 { seconds: seconds as u32 }
        }
    }

    /// The date and time written as `2038-01-19_03:14:07`.
    pub fn to_string(&self) -> (text: String)
        ensures
            text@ == date_text(civil_time_at(self.seconds as int)),
    {
        let (year, month, day, hour, minute, second) = self.to_ymdhms();
        write_date(year as i64, month, day, hour, minute, second)
    }

    /// The date and time as year, month, day, hour, minute and second.
    pub fn to_ymdhms(&self) -> (r: (u16, u8, u8, u8, u8, u8))
        ensures
            civil(r.0 as int, r.1 as int, r.2 as int, r.3 as int, r.4 as int, r.5 as int)
                == civil_time_at(self.seconds as int),
            civil_time_at(self.seconds as int).is_valid(),
            civil_time_at(self.seconds as int).seconds() == self.seconds,
            1970 <= r.0 <= 2106,
    {
        let (year, month, day, hour, minute, second) = civil_time(self.seconds as i64);
        proof {
            lemma_years_of_32_bits(
                civil(
                    year as int,
                    month.spec_index() + 1,
                    day as int,
                    hour as int,
                    minute as int,
                    second as int,
                ),
            );
            lemma_found_is_the_time(
                civil(
                    year as int,
                    month.spec_index() + 1,
                    day as int,
                    hour as int,
                    minute as int,
                    second as int,
                ),
            );
        }
        (year as u16, month.number(), day, hour, minute, second)
    }
}

impl From<UnixTime32> for UnixTime {
    fn from(time: UnixTime32) -> (wide: UnixTime) {
        UnixTime { seconds: time.seconds as i64 }
    }
}

impl FromSpecImpl<UnixTime32> for UnixTime {
    open spec fn obeys_from_spec() -> bool {
        true
    }

    open spec fn from_spec(time: UnixTime32) -> UnixTime {
        UnixTime { seconds: time.seconds as i64 }
    }
}

} // verus!
