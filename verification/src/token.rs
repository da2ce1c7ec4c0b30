//! Classification of a single command token as a date/time element.
//!
//! A token can be, in priority order: the literal "today" or "tomorrow", a
//! weekday name (full name or three-letter abbreviation), a clock time such
//! as "10am", "8p" or "10:30pm", a numeric date such as "9-12" or
//! "10/12/2019", or a month-name date such as "jan12". Classification is
//! case-insensitive; a token matching no form is no date/time element.

use vstd::prelude::*;

use crate::dates::DateSpec;
use crate::dates::PlainDate;
use crate::dates::PlainTime;
use crate::dates::TimeSpec;
use crate::dates::valid_date;
use crate::dates::year_in_range;
use crate::dates::date_is_valid;
use crate::chars::chars_match;

verus! {

/// A classified date/time element.
#[derive(Clone, Copy, Debug, PartialEq, Eq, Structural)]
pub enum DateTimeElt {
    /// A time of day, to be merged into the time portion.
    RelativeTime(PlainTime),
    /// A calendar date, to be merged into the date portion.
    RelativeDate(PlainDate),
    /// The current day.
    Today,
    /// The day after the current day.
    Tomorrow,
    /// A weekday, resolved to its next occurrence (counting the current day),
    /// as days from Monday (0 = Monday .. 6 = Sunday).
    RelativeWeekday(u32),
}

/// Mathematical model of a date/time element.
pub ghost enum EltSpec {
    Time(TimeSpec),
    Date(DateSpec),
    Today,
    Tomorrow,
    Weekday(int),
}

impl View for DateTimeElt {
    type V = EltSpec;

    open spec fn view(&self) -> EltSpec {
        match *self {
            DateTimeElt::RelativeTime(t) => EltSpec::Time(t@),
            DateTimeElt::RelativeDate(d) => EltSpec::Date(d@),
            DateTimeElt::Today => EltSpec::Today,
            DateTimeElt::Tomorrow => EltSpec::Tomorrow,
            DateTimeElt::RelativeWeekday(w) => EltSpec::Weekday(w as int),
        }
    }
}

/// ASCII lower-casing of one character.
pub open spec fn lower_char(c: char) -> char {
    if 'A' <= c && c <= 'Z' {
        ((c as u32) + 32) as char
    } else {
        c
    }
}

/// ASCII lower-casing of a character sequence.
pub open spec fn lower_seq(s: Seq<char>) -> Seq<char> {
    Seq::new(s.len(), |i: int| lower_char(s[i]))
}

/// An ASCII decimal digit.
pub open spec fn is_digit(c: char) -> bool {
    '0' <= c && c <= '9'
}

/// The value of an ASCII decimal digit.
pub open spec fn digit_val(c: char) -> int {
    c as int - '0' as int
}

/// Every character of `s` is an ASCII decimal digit.
pub open spec fn all_digits(s: Seq<char>) -> bool {
    forall|i: int| 0 <= i < s.len() ==> is_digit(s[i])
}

/// Every character of `s` is an ASCII lowercase letter.
pub open spec fn all_lower_alpha(s: Seq<char>) -> bool {
    forall|i: int| 0 <= i < s.len() ==> ('a' <= s[i] && s[i] <= 'z')
}

/// The number written by a sequence of decimal digits, most significant
/// first.
pub open spec fn digits_val(s: Seq<char>) -> int
    decreases s.len(),
{
    if s.len() == 0 {
        0
    } else {
        digits_val(s.drop_last()) * 10 + digit_val(s.last())
    }
}

/// Ten to the power `n`.
pub open spec fn pow10(n: nat) -> int
    decreases n,
{
    if n == 0 {
        1
    } else {
        10 * pow10((n - 1) as nat)
    }
}

/// A date separator: `-` or `/`.
pub open spec fn is_sep(c: char) -> bool {
    c == '-' || c == '/'
}

/// The weekday written by `s` (already lower-cased), as days from Monday:
/// either the full English name or its three-letter abbreviation.
pub open spec fn weekday_num(s: Seq<char>) -> Option<int> {
    if s == "mon"@ || s == "monday"@ {
        Some(0)
    } else if s == "tue"@ || s == "tuesday"@ {
        Some(1)
    } else if s == "wed"@ || s == "wednesday"@ {
        Some(2)
    } else if s == "thu"@ || s == "thursday"@ {
        Some(3)
    } else if s == "fri"@ || s == "friday"@ {
        Some(4)
    } else if s == "sat"@ || s == "saturday"@ {
        Some(5)
    } else if s == "sun"@ || s == "sunday"@ {
        Some(6)
    } else {
        None
    }
}

/// The month whose English name starts `s` (already lower-cased): the first
/// three characters of `s` must be a month abbreviation.
pub open spec fn month_prefix_num(s: Seq<char>) -> Option<int> {
    if s.len() < 3 {
        None
    } else {
        let p = s.subrange(0, 3);
        if p == "jan"@ {
            Some(1)
        } else if p == "feb"@ {
            Some(2)
        } else if p == "mar"@ {
            Some(3)
        } else if p == "apr"@ {
            Some(4)
        } else if p == "may"@ {
            Some(5)
        } else if p == "jun"@ {
            Some(6)
        } else if p == "jul"@ {
            Some(7)
        } else if p == "aug"@ {
            Some(8)
        } else if p == "sep"@ {
            Some(9)
        } else if p == "oct"@ {
            Some(10)
        } else if p == "nov"@ {
            Some(11)
        } else if p == "dec"@ {
            Some(12)
        } else {
            None
        }
    }
}

/// Splits a clock token into its core and its meridiem: a trailing "am" or
/// "a" marks morning, a trailing "pm" or "p" marks afternoon.
pub open spec fn strip_meridiem(s: Seq<char>) -> Option<(Seq<char>, bool)> {
    let n = s.len() as int;
    if s.len() >= 2 && s[n - 2] == 'a' && s[n - 1] == 'm' {
        Some((s.take(n - 2), false))
    } else if s.len() >= 2 && s[n - 2] == 'p' && s[n - 1] == 'm' {
        Some((s.take(n - 2), true))
    } else if s.len() >= 1 && s[n - 1] == 'a' {
        Some((s.take(n - 1), false))
    } else if s.len() >= 1 && s[n - 1] == 'p' {
        Some((s.take(n - 1), true))
    } else {
        None
    }
}

/// The hour and minute written by a clock core: one or two hour digits,
/// optionally followed by a colon and exactly two minute digits.
pub open spec fn clock_core(s: Seq<char>) -> Option<(int, int)> {
    if s.len() == 1 && is_digit(s[0]) {
        Some((digit_val(s[0]), 0))
    } else if s.len() == 2 && is_digit(s[0]) && is_digit(s[1]) {
        Some((10 * digit_val(s[0]) + digit_val(s[1]), 0))
    } else if s.len() == 4 && is_digit(s[0]) && s[1] == ':' && is_digit(s[2]) && is_digit(s[3]) {
        Some((digit_val(s[0]), 10 * digit_val(s[2]) + digit_val(s[3])))
    } else if s.len() == 5 && is_digit(s[0]) && is_digit(s[1]) && s[2] == ':' && is_digit(s[3])
        && is_digit(s[4]) {
        Some((10 * digit_val(s[0]) + digit_val(s[1]), 10 * digit_val(s[3]) + digit_val(s[4])))
    } else {
        None
    }
}

/// The time of day written by a clock token (already lower-cased): the hour
/// must lie in 1..=12 and the minute, when given, at most 60; an afternoon
/// hour is shifted by 12.
pub open spec fn classify_clock(s: Seq<char>) -> Option<TimeSpec> {
    match strip_meridiem(s) {
        Some((core, pm)) => match clock_core(core) {
            Some((h, m)) => if 1 <= h <= 12 && m <= 60 {
                Some(TimeSpec { hour: if pm { h + 12 } else { h }, minute: m, second: 0 })
            } else {
                None
            },
            None => None,
        },
        None => None,
    }
}

/// Splits a numeric date token into month, day and optional year: one or two
/// month digits, a separator, one or two day digits, and optionally a
/// separator and exactly four year digits.
pub open spec fn split_mdy(s: Seq<char>) -> Option<(int, int, Option<int>)> {
    if s.len() < 3 || !is_digit(s[0]) {
        None
    } else {
        let i: int = if is_digit(s[1]) {
            2
        } else {
            1
        };
        if s.len() <= i || !is_sep(s[i]) {
            None
        } else {
            let month = digits_val(s.subrange(0, i));
            let rest = s.subrange(i + 1, s.len() as int);
            if rest.len() == 0 || !is_digit(rest[0]) {
                None
            } else {
                let j: int = if rest.len() >= 2 && is_digit(rest[1]) {
                    2
                } else {
                    1
                };
                let day = digits_val(rest.subrange(0, j));
                if rest.len() == j {
                    Some((month, day, None))
                } else if rest.len() == j + 5 && is_sep(rest[j]) && all_digits(
                    rest.subrange(j + 1, rest.len() as int),
                ) {
                    Some((month, day, Some(digits_val(rest.subrange(j + 1, rest.len() as int)))))
                } else {
                    None
                }
            }
        }
    }
}

/// The date written by a numeric date token (already lower-cased); without an
/// explicit year the current year is taken. The date must be a valid calendar
/// date.
pub open spec fn classify_numeric_date(s: Seq<char>, current_year: int) -> Option<DateSpec> {
    match split_mdy(s) {
        Some((m, d, oy)) => {
            let y = match oy {
                Some(y) => y,
                None => current_year,
            };
            let date = DateSpec { year: y, month: m, day: d };
            if valid_date(date) {
                Some(date)
            } else {
                None
            }
        },
        None => None,
    }
}

/// The date written by a month-name date token (already lower-cased): one or
/// more lowercase letters starting with a month abbreviation, followed by one
/// or two day digits; the year is the current year. The date must be a valid
/// calendar date.
pub open spec fn classify_named_date(s: Seq<char>, current_year: int) -> Option<DateSpec> {
    let n = s.len() as int;
    if s.len() < 2 || !is_digit(s[n - 1]) {
        None
    } else {
        let k: int = if s.len() >= 3 && is_digit(s[n - 2]) {
            n - 2
        } else {
            n - 1
        };
        if !all_lower_alpha(s.subrange(0, k)) {
            None
        } else {
            match month_prefix_num(s.subrange(0, k)) {
                Some(m) => {
                    let d = digits_val(s.subrange(k, n));
                    let date = DateSpec { year: current_year, month: m, day: d };
                    if valid_date(date) {
                        Some(date)
                    } else {
                        None
                    }
                },
                None => None,
            }
        }
    }
}

/// Classification of one token, in priority order: the literals "today" and
/// "tomorrow", a weekday name, a clock time, a numeric date, a month-name
/// date. The token is lower-cased first, so every form is case-insensitive.
pub open spec fn classify_spec(s: Seq<char>, current_year: int) -> Option<EltSpec> {
    let low = lower_seq(s);
    if low == "today"@ {
        Some(EltSpec::Today)
    } else if low == "tomorrow"@ {
        Some(EltSpec::Tomorrow)
    } else {
        match weekday_num(low) {
            Some(w) => Some(EltSpec::Weekday(w)),
            None => match classify_clock(low) {
                Some(t) => Some(EltSpec::Time(t)),
                None => match classify_numeric_date(low, current_year) {
                    Some(d) => Some(EltSpec::Date(d)),
                    None => match classify_named_date(low, current_year) {
                        Some(d) => Some(EltSpec::Date(d)),
                        None => None,
                    },
                },
            },
        }
    }
}

/// ASCII lower-casing of one character.
pub fn to_lower_char(c: char) -> (r: char)
    ensures
        r == lower_char(c),
{
    if 'A' <= c && c <= 'Z' {
        (c as u8 + 32) as char
    } else {
        c
    }
}

/// ASCII lower-casing of a character vector.
pub fn to_lower_vec(v: &Vec<char>) -> (low: Vec<char>)
    ensures
        low@ == lower_seq(v@),
{
    let mut low: Vec<char> = Vec::new();
    let mut i: usize = 0;
    while i < v.len()
        invariant
            i <= v.len(),
            low@.len() == i,
            forall|k: int| 0 <= k < i ==> low@[k] == lower_char(v@[k]),
        decreases v.len() - i,
    {
        low.push(to_lower_char(v[i]));
        i = i + 1;
    }
    proof {
        assert(low@ =~= lower_seq(v@));
    }
    low
}

/// Whether `c` is an ASCII decimal digit.
pub fn is_digit_char(c: char) -> (b: bool)
    ensures
        b == is_digit(c),
{
    '0' <= c && c <= '9'
}

/// Whether `c` is a date separator.
pub fn is_sep_char(c: char) -> (b: bool)
    ensures
        b == is_sep(c),
{
    c == '-' || c == '/'
}

/// The value of an ASCII decimal digit.
fn digit_value(c: char) -> (d: u32)
    requires
        is_digit(c),
    ensures
        d as int == digit_val(c),
        d <= 9,
{
    c as u32 - '0' as u32
}

/// Whether the characters `v[from..to]` are all ASCII decimal digits.
fn all_digits_range(v: &Vec<char>, from: usize, to: usize) -> (b: bool)
    requires
        from <= to <= v.len(),
    ensures
        b == all_digits(v@.subrange(from as int, to as int)),
{
    let mut i: usize = from;
    while i < to
        invariant
            from <= i <= to <= v.len(),
            forall|k: int| from <= k < i ==> is_digit(v@[k]),
        decreases to - i,
    {
        if !is_digit_char(v[i]) {
            proof {
                assert(v@.subrange(from as int, to as int)[i - from] == v@[i as int]);
            }
            return false;
        }
        i = i + 1;
    }
    proof {
        assert forall|k: int| 0 <= k < to - from implies is_digit(
            v@.subrange(from as int, to as int)[k],
        ) by {
            assert(v@.subrange(from as int, to as int)[k] == v@[from + k]);
        }
    }
    true
}

/// The number written by the digits `v[from..to]`, for at most four digits.
fn digits_value(v: &Vec<char>, from: usize, to: usize) -> (r: u32)
    requires
        from <= to <= v.len(),
        to - from <= 4,
        all_digits(v@.subrange(from as int, to as int)),
    ensures
        r as int == digits_val(v@.subrange(from as int, to as int)),
        r <= 9999,
{
    let mut r: u32 = 0;
    let mut i: usize = from;
    while i < to
        invariant
            from <= i <= to <= v.len(),
            to - from <= 4,
            all_digits(v@.subrange(from as int, to as int)),
            r as int == digits_val(v@.subrange(from as int, i as int)),
            (r as int) < pow10((i - from) as nat),
        decreases to - i,
    {
        proof {
            assert(v@.subrange(from as int, to as int)[i - from] == v@[i as int]);
            assert(v@.subrange(from as int, i + 1).drop_last() =~= v@.subrange(
                from as int,
                i as int,
            ));
            assert(v@.subrange(from as int, i + 1).last() == v@[i as int]);
            let k = (i - from) as nat;
            assert(pow10(0) == 1 && pow10(1) == 10 && pow10(2) == 100 && pow10(3) == 1000);
            assert(k == 0 || k == 1 || k == 2 || k == 3);
            assert(pow10(k) <= 1000);
            assert(pow10((k + 1) as nat) == 10 * pow10(k));
        }
        r = r * 10 + digit_value(v[i]);
        i = i + 1;
    }
    proof {
        assert(pow10((to - from) as nat) <= 10000) by {
            assert(pow10(0) == 1);
            assert(pow10(1) == 10);
            assert(pow10(2) == 100);
            assert(pow10(3) == 1000);
            assert(pow10(4) == 10000);
        }
    }
    r
}

/// Classification is case-insensitive: a token and its lower-cased form
/// classify alike. In particular the weekday names and the literals "today"
/// and "tomorrow" are recognized in any casing.
pub proof fn lemma_classify_case_insensitive(s: Seq<char>, current_year: int)
    ensures
        classify_spec(lower_seq(s), current_year) == classify_spec(s, current_year),
{
    assert forall|i: int| 0 <= i < s.len() implies #[trigger] lower_char(lower_char(s[i]))
        == lower_char(s[i]) by {}
    assert(lower_seq(lower_seq(s)) =~= lower_seq(s));
}

/// Whether the characters `v[from..to]` are all ASCII lowercase letters.
fn all_lower_range(v: &Vec<char>, from: usize, to: usize) -> (b: bool)
    requires
        from <= to <= v.len(),
    ensures
        b == all_lower_alpha(v@.subrange(from as int, to as int)),
{
    let mut i: usize = from;
    while i < to
        invariant
            from <= i <= to <= v.len(),
            forall|k: int| from <= k < i ==> ('a' <= v@[k] && v@[k] <= 'z'),
        decreases to - i,
    {
        if !('a' <= v[i] && v[i] <= 'z') {
            proof {
                assert(v@.subrange(from as int, to as int)[i - from] == v@[i as int]);
            }
            return false;
        }
        i = i + 1;
    }
    proof {
        assert forall|k: int| 0 <= k < to - from implies 'a' <= v@.subrange(
            from as int,
            to as int,
        )[k] && v@.subrange(from as int, to as int)[k] <= 'z' by {
            assert(v@.subrange(from as int, to as int)[k] == v@[from + k]);
        }
    }
    true
}

/// The weekday written by `low`, as days from Monday.
pub fn weekday_of(low: &Vec<char>) -> (r: Option<u32>)
    ensures
        (match r {
            Some(w) => Some(w as int),
            None => None::<int>,
        }) == weekday_num(low@),
{
    let n = low.len();
    proof {
        assert(low@.subrange(0, low@.len() as int) =~= low@);
    }
    if chars_match(low, 0, n, "mon") || chars_match(low, 0, n, "monday") {
        Some(0)
    } else if chars_match(low, 0, n, "tue") || chars_match(low, 0, n, "tuesday") {
        Some(1)
    } else if chars_match(low, 0, n, "wed") || chars_match(low, 0, n, "wednesday") {
        Some(2)
    } else if chars_match(low, 0, n, "thu") || chars_match(low, 0, n, "thursday") {
        Some(3)
    } else if chars_match(low, 0, n, "fri") || chars_match(low, 0, n, "friday") {
        Some(4)
    } else if chars_match(low, 0, n, "sat") || chars_match(low, 0, n, "saturday") {
        Some(5)
    } else if chars_match(low, 0, n, "sun") || chars_match(low, 0, n, "sunday") {
        Some(6)
    } else {
        None
    }
}

/// The time of day written by `low`, when it is a clock token.
fn classify_clock_exec(low: &Vec<char>) -> (r: Option<PlainTime>)
    ensures
        (match r {
            Some(t) => Some(t@),
            None => None::<TimeSpec>,
        }) == classify_clock(low@),
{
    let n = low.len();
    let core_end: usize;
    let pm: bool;
    if n >= 2 && low[n - 2] == 'a' && low[n - 1] == 'm' {
        core_end = n - 2;
        pm = false;
    } else if n >= 2 && low[n - 2] == 'p' && low[n - 1] == 'm' {
        core_end = n - 2;
        pm = true;
    } else if n >= 1 && low[n - 1] == 'a' {
        core_end = n - 1;
        pm = false;
    } else if n >= 1 && low[n - 1] == 'p' {
        core_end = n - 1;
        pm = true;
    } else {
        return None;
    }
    let ghost core = low@.take(core_end as int);
    proof {
        assert(strip_meridiem(low@) == Some((core, pm)));
    }
    let h: u32;
    let m: u32;
    if core_end == 1 && is_digit_char(low[0]) {
        h = digit_value(low[0]);
        m = 0;
    } else if core_end == 2 && is_digit_char(low[0]) && is_digit_char(low[1]) {
        h = 10 * digit_value(low[0]) + digit_value(low[1]);
        m = 0;
    } else if core_end == 4 && is_digit_char(low[0]) && low[1] == ':' && is_digit_char(low[2])
        && is_digit_char(low[3]) {
        h = digit_value(low[0]);
        m = 10 * digit_value(low[2]) + digit_value(low[3]);
    } else if core_end == 5 && is_digit_char(low[0]) && is_digit_char(low[1]) && low[2] == ':'
        && is_digit_char(low[3]) && is_digit_char(low[4]) {
        h = 10 * digit_value(low[0]) + digit_value(low[1]);
        m = 10 * digit_value(low[3]) + digit_value(low[4]);
    } else {
        proof {
            assert(clock_core(core) is None);
        }
        return None;
    }
    if 1 <= h && h <= 12 && m <= 60 {
        Some(PlainTime { hour: if pm { h + 12 } else { h }, minute: m, second: 0 })
    } else {
        None
    }
}

/// The date written by `low`, when it is a numeric date token.
fn classify_numeric_exec(low: &Vec<char>, current_year: i32) -> (r: Option<PlainDate>)
    requires
        year_in_range(current_year as int),
    ensures
        (match r {
            Some(d) => Some(d@),
            None => None::<DateSpec>,
        }) == classify_numeric_date(low@, current_year as int),
{
    let n = low.len();
    if n < 3 || !is_digit_char(low[0]) {
        return None;
    }
    let i: usize = if is_digit_char(low[1]) {
        2
    } else {
        1
    };
    if n <= i || !is_sep_char(low[i]) {
        return None;
    }
    proof {
        assert forall|k: int| 0 <= k < i implies is_digit(low@.subrange(0, i as int)[k]) by {
            assert(low@.subrange(0, i as int)[k] == low@[k]);
        }
    }
    let month = digits_value(low, 0, i);
    let rs = i + 1;
    let ghost rest = low@.subrange(rs as int, n as int);
    if n == rs || !is_digit_char(low[rs]) {
        return None;
    }
    let j: usize = if n - rs >= 2 && is_digit_char(low[rs + 1]) {
        2
    } else {
        1
    };
    proof {
        assert(rest.subrange(0, j as int) =~= low@.subrange(rs as int, (rs + j) as int));
        assert forall|k: int| 0 <= k < j implies is_digit(
            #[trigger] low@.subrange(rs as int, (rs + j) as int)[k],
        ) by {
            assert(low@.subrange(rs as int, (rs + j) as int)[k] == low@[rs + k]);
        }
    }
    let day = digits_value(low, rs, rs + j);
    proof {
        if n - rs == j + 5 {
            assert(rest.subrange(j + 1, rest.len() as int) =~= low@.subrange(
                (rs + j + 1) as int,
                n as int,
            ));
        }
    }
    let y: i32;
    if n - rs == j {
        y = current_year;
    } else if n - rs == j + 5 && is_sep_char(low[rs + j]) && all_digits_range(low, rs + j + 1, n) {
        let year_num = digits_value(low, rs + j + 1, n);
        y = year_num as i32;
    } else {
        return None;
    }
    if date_is_valid(y, month, day) {
        Some(PlainDate { year: y, month, day })
    } else {
        None
    }
}

/// The date written by `low`, when it is a month-name date token.
fn classify_named_exec(low: &Vec<char>, current_year: i32) -> (r: Option<PlainDate>)
    requires
        year_in_range(current_year as int),
    ensures
        (match r {
            Some(d) => Some(d@),
            None => None::<DateSpec>,
        }) == classify_named_date(low@, current_year as int),
{
    let n = low.len();
    if n < 2 || !is_digit_char(low[n - 1]) {
        return None;
    }
    let k: usize = if n >= 3 && is_digit_char(low[n - 2]) {
        n - 2
    } else {
        n - 1
    };
    if !all_lower_range(low, 0, k) {
        return None;
    }
    if k < 3 {
        return None;
    }
    proof {
        assert(low@.subrange(0, k as int).subrange(0, 3) =~= low@.subrange(0, 3));
    }
    let m: u32;
    if chars_match(low, 0, 3, "jan") {
        m = 1;
    } else if chars_match(low, 0, 3, "feb") {
        m = 2;
    } else if chars_match(low, 0, 3, "mar") {
        m = 3;
    } else if chars_match(low, 0, 3, "apr") {
        m = 4;
    } else if chars_match(low, 0, 3, "may") {
        m = 5;
    } else if chars_match(low, 0, 3, "jun") {
        m = 6;
    } else if chars_match(low, 0, 3, "jul") {
        m = 7;
    } else if chars_match(low, 0, 3, "aug") {
        m = 8;
    } else if chars_match(low, 0, 3, "sep") {
        m = 9;
    } else if chars_match(low, 0, 3, "oct") {
        m = 10;
    } else if chars_match(low, 0, 3, "nov") {
        m = 11;
    } else if chars_match(low, 0, 3, "dec") {
        m = 12;
    } else {
        return None;
    }
    proof {
        assert forall|t: int| 0 <= t < n - k implies is_digit(
            low@.subrange(k as int, n as int)[t],
        ) by {
            assert(low@.subrange(k as int, n as int)[t] == low@[k + t]);
        }
    }
    let day = digits_value(low, k, n);
    if date_is_valid(current_year, m, day) {
        Some(PlainDate { year: current_year, month: m, day })
    } else {
        None
    }
}

/// The month whose English name starts the token, by its first three
/// characters: "jan" gives 1 through "dec" giving 12.
pub fn parse_month(token: &str) -> (r: Option<u32>)
    ensures
        (match r {
            Some(m) => Some(m as int),
            None => None::<int>,
        }) == month_prefix_num(token@),
{
    let v = crate::chars::str_to_chars(token);
    if v.len() < 3 {
        return None;
    }
    if chars_match(&v, 0, 3, "jan") {
        Some(1)
    } else if chars_match(&v, 0, 3, "feb") {
        Some(2)
    } else if chars_match(&v, 0, 3, "mar") {
        Some(3)
    } else if chars_match(&v, 0, 3, "apr") {
        Some(4)
    } else if chars_match(&v, 0, 3, "may") {
        Some(5)
    } else if chars_match(&v, 0, 3, "jun") {
        Some(6)
    } else if chars_match(&v, 0, 3, "jul") {
        Some(7)
    } else if chars_match(&v, 0, 3, "aug") {
        Some(8)
    } else if chars_match(&v, 0, 3, "sep") {
        Some(9)
    } else if chars_match(&v, 0, 3, "oct") {
        Some(10)
    } else if chars_match(&v, 0, 3, "nov") {
        Some(11)
    } else if chars_match(&v, 0, 3, "dec") {
        Some(12)
    } else {
        None
    }
}

/// Classifies one token as a date/time element, or rejects it. The current
/// year fills in dates written without a year.
pub fn parse_as_time(token: &Vec<char>, current_year: i32) -> (r: Option<DateTimeElt>)
    requires
        year_in_range(current_year as int),
    ensures
        (match r {
            Some(e) => Some(e@),
            None => None::<EltSpec>,
        }) == classify_spec(token@, current_year as int),
{
    let low = to_lower_vec(token);
    let n = low.len();
    proof {
        assert(low@.subrange(0, low@.len() as int) =~= low@);
    }
    if chars_match(&low, 0, n, "today") {
        return Some(DateTimeElt::Today);
    }
    if chars_match(&low, 0, n, "tomorrow") {
        return Some(DateTimeElt::Tomorrow);
    }
    if let Some(w) = weekday_of(&low) {
        return Some(DateTimeElt::RelativeWeekday(w));
    }
    if let Some(t) = classify_clock_exec(&low) {
        return Some(DateTimeElt::RelativeTime(t));
    }
    if let Some(d) = classify_numeric_exec(&low, current_year) {
        return Some(DateTimeElt::RelativeDate(d));
    }
    if let Some(d) = classify_named_exec(&low, current_year) {
        return Some(DateTimeElt::RelativeDate(d));
    }
    None
}

} // verus!
