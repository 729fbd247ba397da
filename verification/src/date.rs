//! Parsing of the optional time-range bounds: a calendar date written as
//! `YYYY-MM-DD` (zero-padded), turned into seconds since the Unix epoch at
//! the start of that day.

use vstd::prelude::*;
use vstd::string::StrSliceExecFns;

verus! {

pub open spec fn is_digit(c: char) -> bool {
    48 <= c as int && c as int <= 57
}

/// The numeric value of a digit character.
pub open spec fn digit_val(c: char) -> int {
    c as int - 48
}

/// The shape of a date string: ten characters, `YYYY-MM-DD`, all digits
/// except the two separating dashes.
pub open spec fn date_grammar(s: Seq<char>) -> bool {
    &&& s.len() == 10
    &&& is_digit(s[0])
    &&& is_digit(s[1])
    &&& is_digit(s[2])
    &&& is_digit(s[3])
    &&& s[4] == '-'
    &&& is_digit(s[5])
    &&& is_digit(s[6])
    &&& s[7] == '-'
    &&& is_digit(s[8])
    &&& is_digit(s[9])
}

pub open spec fn year_of(s: Seq<char>) -> int {
    1000 * digit_val(s[0]) + 100 * digit_val(s[1]) + 10 * digit_val(s[2]) + digit_val(s[3])
}

pub open spec fn month_of(s: Seq<char>) -> int {
    10 * digit_val(s[5]) + digit_val(s[6])
}

pub open spec fn day_of(s: Seq<char>) -> int {
    10 * digit_val(s[8]) + digit_val(s[9])
}

pub open spec fn is_leap_year(y: int) -> bool {
    y % 4 == 0 && (y % 100 != 0 || y % 400 == 0)
}

pub open spec fn days_in_year(y: int) -> int {
    if is_leap_year(y) {
        366
    } else {
        365
    }
}

pub open spec fn days_in_month(y: int, m: int) -> int {
    if m == 2 {
        if is_leap_year(y) {
            29
        } else {
            28
        }
    } else if m == 4 || m == 6 || m == 9 || m == 11 {
        30
    } else {
        31
    }
}

/// Days from 1970-01-01 to the first day of year `y` (negative before 1970).
pub open spec fn days_to_year(y: int) -> int
    decreases
            (if y >= 1970 {
                y - 1970
            } else {
                1970 - y
            }),
{
    if y > 1970 {
        days_to_year(y - 1) + days_in_year(y - 1)
    } else if y < 1970 {
        days_to_year(y + 1) - days_in_year(y)
    } else {
        0
    }
}

/// Days from the first day of year `y` to the first day of its month `m`.
pub open spec fn days_before_month(y: int, m: int) -> int
    decreases m,
{
    if m <= 1 {
        0
    } else {
        days_before_month(y, m - 1) + days_in_month(y, m - 1)
    }
}

/// Days from 1970-01-01 to the civil date `y`-`m`-`d`.
pub open spec fn civil_days(y: int, m: int, d: int) -> int {
    days_to_year(y) + days_before_month(y, m) + d - 1
}

/// Seconds since the Unix epoch at the start of the civil date.
pub open spec fn date_seconds(y: int, m: int, d: int) -> int {
    86400 * civil_days(y, m, d)
}

/// A date string is valid when it has the `YYYY-MM-DD` shape and names a
/// real calendar date.
pub open spec fn valid_date_str(s: Seq<char>) -> bool {
    &&& date_grammar(s)
    &&& 1 <= month_of(s) <= 12
    &&& 1 <= day_of(s) <= days_in_month(year_of(s), month_of(s))
}

/// The epoch-second bound that a valid date string stands for.
pub open spec fn parsed_seconds(s: Seq<char>) -> int {
    date_seconds(year_of(s), month_of(s), day_of(s))
}

fn is_digit_exec(c: char) -> (b: bool)
    ensures
        b == is_digit(c),
{
    let u = c as u32;
    48 <= u && u <= 57
}

fn is_leap_year_exec(y: i64) -> (b: bool)
    requires
        0 <= y,
    ensures
        b == is_leap_year(y as int),
{
    y % 4 == 0 && (y % 100 != 0 || y % 400 == 0)
}

fn days_in_month_exec(y: i64, m: i64) -> (r: i64)
    requires
        0 <= y,
    ensures
        r == days_in_month(y as int, m as int),
{
    if m == 2 {
        if is_leap_year_exec(y) {
            29
        } else {
            28
        }
    } else if m == 4 || m == 6 || m == 9 || m == 11 {
        30
    } else {
        31
    }
}

fn days_in_year_exec(y: i64) -> (r: i64)
    requires
        0 <= y,
    ensures
        r == days_in_year(y as int),
{
    if is_leap_year_exec(y) {
        366
    } else {
        365
    }
}

fn days_to_year_exec(y: i64) -> (r: i64)
    requires
        0 <= y <= 9999,
    ensures
        r == days_to_year(y as int),
        -721020 <= r <= 2938614,
{
    if y >= 1970 {
        let mut i: i64 = 1970;
        let mut acc: i64 = 0;
        while i < y
            invariant
                1970 <= i <= y <= 9999,
                acc == days_to_year(i as int),
                0 <= acc <= 366 * (i - 1970),
            decreases y - i,
        {
            acc = acc + days_in_year_exec(i);
            i = i + 1;
        }
        acc
    } else {
        let mut i: i64 = 1970;
        let mut acc: i64 = 0;
        while i > y
            invariant
                0 <= y <= i <= 1970,
                acc == days_to_year(i as int),
                -366 * (1970 - i) <= acc <= 0,
            decreases i - y,
        {
            i = i - 1;
            acc = acc - days_in_year_exec(i);
        }
        acc
    }
}

fn days_before_month_exec(y: i64, m: i64) -> (r: i64)
    requires
        0 <= y,
        1 <= m <= 12,
    ensures
        r == days_before_month(y as int, m as int),
        0 <= r <= 366,
{
    let mut i: i64 = 1;
    let mut acc: i64 = 0;
    while i < m
        invariant
            0 <= y,
            1 <= i <= m <= 12,
            acc == days_before_month(y as int, i as int),
            0 <= acc <= 31 * (i - 1),
        decreases m - i,
    {
        acc = acc + days_in_month_exec(y, i);
        i = i + 1;
    }
    acc
}

/// Parses a `YYYY-MM-DD` date string. Returns the epoch-second bound exactly
/// when the string is a well-formed, real calendar date; `None` otherwise.
pub fn parse_date(s: &str) -> (r: Option<i64>)
    ensures
        r is Some <==> valid_date_str(s@),
        r matches Some(t) ==> t == parsed_seconds(s@),
        r matches Some(t) ==> i64::MIN < t,
{
    let len = s.unicode_len();
    if len != 10 {
        return None;
    }
    let c0 = s.get_char(0);
    let c1 = s.get_char(1);
    let c2 = s.get_char(2);
    let c3 = s.get_char(3);
    let c4 = s.get_char(4);
    let c5 = s.get_char(5);
    let c6 = s.get_char(6);
    let c7 = s.get_char(7);
    let c8 = s.get_char(8);
    let c9 = s.get_char(9);
    if !(is_digit_exec(c0) && is_digit_exec(c1) && is_digit_exec(c2) && is_digit_exec(c3)
        && c4 == '-' && is_digit_exec(c5) && is_digit_exec(c6) && c7 == '-' && is_digit_exec(c8)
        && is_digit_exec(c9)) {
        return None;
    }
    let y: i64 = 1000 * (c0 as i64 - 48) + 100 * (c1 as i64 - 48) + 10 * (c2 as i64 - 48) + (
    c3 as i64 - 48);
    let m: i64 = 10 * (c5 as i64 - 48) + (c6 as i64 - 48);
    let d: i64 = 10 * (c8 as i64 - 48) + (c9 as i64 - 48);
    if m < 1 || m > 12 {
        return None;
    }
    if d < 1 || d > days_in_month_exec(y, m) {
        return None;
    }
    let days = days_to_year_exec(y) + days_before_month_exec(y, m) + d - 1;
    Some(86400 * days)
}

} // verus!
