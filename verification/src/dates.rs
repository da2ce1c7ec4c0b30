//! Plain calendar dates and times of day, with the proleptic Gregorian
//! calendar arithmetic the grammar needs: month lengths, leap years, date
//! validity and the successor of a date.

use vstd::prelude::*;

verus! {

/// A calendar date, held as plain numbers.
#[derive(Clone, Copy, Debug, PartialEq, Eq, Structural)]
pub struct PlainDate {
    pub year: i32,
    pub month: u32,
    pub day: u32,
}

/// A time of day, held as plain numbers.
#[derive(Clone, Copy, Debug, PartialEq, Eq, Structural)]
pub struct PlainTime {
    pub hour: u32,
    pub minute: u32,
    pub second: u32,
}

/// A calendar date together with a time of day.
#[derive(Clone, Copy, Debug, PartialEq, Eq, Structural)]
pub struct PlainDateTime {
    pub date: PlainDate,
    pub time: PlainTime,
}

/// Mathematical model of a date.
pub ghost struct DateSpec {
    pub year: int,
    pub month: int,
    pub day: int,
}

/// Mathematical model of a time of day.
pub ghost struct TimeSpec {
    pub hour: int,
    pub minute: int,
    pub second: int,
}

/// Mathematical model of a date with a time of day.
pub ghost struct DateTimeSpec {
    pub date: DateSpec,
    pub time: TimeSpec,
}

impl View for PlainDate {
    type V = DateSpec;

    open spec fn view(&self) -> DateSpec {
        DateSpec { year: self.year as int, month: self.month as int, day: self.day as int }
    }
}

impl View for PlainTime {
    type V = TimeSpec;

    open spec fn view(&self) -> TimeSpec {
        TimeSpec { hour: self.hour as int, minute: self.minute as int, second: self.second as int }
    }
}

impl View for PlainDateTime {
    type V = DateTimeSpec;

    open spec fn view(&self) -> DateTimeSpec {
        DateTimeSpec { date: self.date@, time: self.time@ }
    }
}

/// A year is a leap year when it is divisible by 4, except century years,
/// which are leap years only when divisible by 400.
pub open spec fn leap_year(y: int) -> bool {
    y % 4 == 0 && (y % 100 != 0 || y % 400 == 0)
}

/// Number of days in the given month of the given year.
pub open spec fn days_in_month(y: int, m: int) -> int {
    if m == 2 {
        if leap_year(y) {
            29
        } else {
            28
        }
    } else if m == 4 || m == 6 || m == 9 || m == 11 {
        30
    } else {
        31
    }
}

/// A date is valid when its month exists and its day exists in that month.
pub open spec fn valid_date(d: DateSpec) -> bool {
    &&& 1 <= d.month <= 12
    &&& 1 <= d.day <= days_in_month(d.year, d.month)
}

/// The next calendar date.
pub open spec fn next_date(d: DateSpec) -> DateSpec {
    if d.day < days_in_month(d.year, d.month) {
        DateSpec { year: d.year, month: d.month, day: d.day + 1 }
    } else if d.month < 12 {
        DateSpec { year: d.year, month: d.month + 1, day: 1 }
    } else {
        DateSpec { year: d.year + 1, month: 1, day: 1 }
    }
}

/// The date `n` days after `d`.
pub open spec fn date_plus_days(d: DateSpec, n: nat) -> DateSpec
    decreases n,
{
    if n == 0 {
        d
    } else {
        next_date(date_plus_days(d, (n - 1) as nat))
    }
}

/// Years far enough from the `i32` limits that a few days of calendar
/// arithmetic cannot overflow.
pub open spec fn year_in_range(y: int) -> bool {
    -1_000_000_000 <= y <= 1_000_000_000
}

/// Whether `y` is a leap year.
pub fn is_leap_year(y: i32) -> (b: bool)
    requires
        year_in_range(y as int),
    ensures
        b == leap_year(y as int),
{
    // Shift into the non-negative range by a multiple of 400 so that the
    // remainder operator agrees with the mathematical modulus.
    let shifted: u64 = ((y as i64) + 2_000_000_000) as u64;
    proof {
        vstd::arithmetic::div_mod::lemma_mod_multiples_vanish(500_000_000, y as int, 4);
        vstd::arithmetic::div_mod::lemma_mod_multiples_vanish(20_000_000, y as int, 100);
        vstd::arithmetic::div_mod::lemma_mod_multiples_vanish(5_000_000, y as int, 400);
    }
    shifted % 4 == 0 && (shifted % 100 != 0 || shifted % 400 == 0)
}

/// Number of days in the given month.
pub fn month_length(y: i32, m: u32) -> (n: u32)
    requires
        year_in_range(y as int),
    ensures
        n as int == days_in_month(y as int, m as int),
{
    if m == 2 {
        if is_leap_year(y) {
            29
        } else {
            28
        }
    } else if m == 4 || m == 6 || m == 9 || m == 11 {
        30
    } else {
        31
    }
}

/// Whether the given numbers form a valid calendar date.
pub fn date_is_valid(year: i32, month: u32, day: u32) -> (b: bool)
    requires
        year_in_range(year as int),
    ensures
        b == valid_date(DateSpec { year: year as int, month: month as int, day: day as int }),
{
    1 <= month && month <= 12 && 1 <= day && day <= month_length(year, month)
}

/// The next calendar date.
pub fn next_day(d: PlainDate) -> (r: PlainDate)
    requires
        valid_date(d@),
        year_in_range(d@.year),
    ensures
        r@ == next_date(d@),
        valid_date(r@),
        d@.year <= r@.year <= d@.year + 1,
{
    if d.day < month_length(d.year, d.month) {
        PlainDate { year: d.year, month: d.month, day: d.day + 1 }
    } else if d.month < 12 {
        PlainDate { year: d.year, month: d.month + 1, day: 1 }
    } else {
        PlainDate { year: d.year + 1, month: 1, day: 1 }
    }
}

/// The date `n` days after `d`, for a small `n`.
pub fn add_days(d: PlainDate, n: u32) -> (r: PlainDate)
    requires
        valid_date(d@),
        -1_000_000_000 <= d@.year <= 999_999_000,
        n <= 7,
    ensures
        r@ == date_plus_days(d@, n as nat),
        valid_date(r@),
        d@.year <= r@.year <= d@.year + n,
{
    let mut i: u32 = 0;
    let mut cur = d;
    while i < n
        invariant
            i <= n <= 7,
            cur@ == date_plus_days(d@, i as nat),
            valid_date(cur@),
            valid_date(d@),
            -1_000_000_000 <= d@.year <= 999_999_000,
            d@.year <= cur@.year <= d@.year + i,
        decreases n - i,
    {
        cur = next_day(cur);
        i = i + 1;
    }
    cur
}

/// `dt` with its date replaced by `date`; the time of day is kept.
pub fn with_date(input: PlainDateTime, date: PlainDate) -> (r: PlainDateTime)
    ensures
        r@.date == date@,
        r@.time == input@.time,
{
    PlainDateTime { date, time: input.time }
}

/// `dt` with its time of day replaced by `time`; the date is kept.
pub fn with_time(input: PlainDateTime, time: PlainTime) -> (r: PlainDateTime)
    ensures
        r@.time == time@,
        r@.date == input@.date,
{
    PlainDateTime { date: input.date, time }
}

} // verus!
