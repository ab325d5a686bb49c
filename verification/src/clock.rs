//! Minute-precision instants and the listing-date format.
//!
//! Listings are scheduled at minute granularity: a stored date has the
//! shape `YYYY-MM-DD HH:MM`. The parser here validates that shape fully
//! (field ranges, month lengths, leap years) and yields a [`MinuteStamp`],
//! the plain-value instant the watcher compares against the wall clock.

use vstd::prelude::*;
use crate::numfmt::is_dec_digit_char;

verus! {

/// A wall-clock instant truncated to minute precision.
#[derive(Clone, Copy, Debug, PartialEq, Eq, Structural)]
pub struct MinuteStamp {
    pub year: i32,
    pub month: u8,
    pub day: u8,
    pub hour: u8,
    pub minute: u8,
}

/// Whether a year is a leap year in the Gregorian calendar.
pub open spec fn is_leap_year(y: int) -> bool {
    (y % 4 == 0 && y % 100 != 0) || y % 400 == 0
}

/// The number of days in a month of a given year.
pub open spec fn days_in_month(y: int, m: int) -> int {
    if m == 2 {
        if is_leap_year(y) {
            29
        } else {
            28
        }
    } else if m == 4 || m == 6 || m == 9 || m == 11 {
        30
    } else {
        31
    }
}

/// The numeric value of a decimal digit character (meaningful only when
/// [`is_dec_digit_char`] holds).
pub open spec fn digit_val(c: char) -> nat {
    if c == '0' {
        0
    } else if c == '1' {
        1
    } else if c == '2' {
        2
    } else if c == '3' {
        3
    } else if c == '4' {
        4
    } else if c == '5' {
        5
    } else if c == '6' {
        6
    } else if c == '7' {
        7
    } else if c == '8' {
        8
    } else {
        9
    }
}

/// The value of the two-digit field starting at position `i`.
pub open spec fn two_digit_val(s: Seq<char>, i: int) -> nat {
    10 * digit_val(s[i]) + digit_val(s[i + 1])
}

/// The value of the four-digit field starting at position `i`.
pub open spec fn four_digit_val(s: Seq<char>, i: int) -> nat {
    1000 * digit_val(s[i]) + 100 * digit_val(s[i + 1]) + 10 * digit_val(s[i + 2]) + digit_val(
        s[i + 3],
    )
}

/// Whether a character sequence is a well-formed listing date
/// `YYYY-MM-DD HH:MM`: the right punctuation, digits everywhere else, and
/// every field within its calendar range.
pub open spec fn listing_date_wf(s: Seq<char>) -> bool {
    &&& s.len() == 16
    &&& is_dec_digit_char(s[0])
    &&& is_dec_digit_char(s[1])
    &&& is_dec_digit_char(s[2])
    &&& is_dec_digit_char(s[3])
    &&& s[4] == '-'
    &&& is_dec_digit_char(s[5])
    &&& is_dec_digit_char(s[6])
    &&& s[7] == '-'
    &&& is_dec_digit_char(s[8])
    &&& is_dec_digit_char(s[9])
    &&& s[10] == ' '
    &&& is_dec_digit_char(s[11])
    &&& is_dec_digit_char(s[12])
    &&& s[13] == ':'
    &&& is_dec_digit_char(s[14])
    &&& is_dec_digit_char(s[15])
    &&& 1 <= two_digit_val(s, 5) <= 12
    &&& 1 <= two_digit_val(s, 8) <= days_in_month(
        four_digit_val(s, 0) as int,
        two_digit_val(s, 5) as int,
    )
    &&& two_digit_val(s, 11) <= 23
    &&& two_digit_val(s, 14) <= 59
}

/// The instant denoted by a well-formed listing date; `None` on any other
/// input.
pub open spec fn parse_listing_date(s: Seq<char>) -> Option<MinuteStamp> {
    if listing_date_wf(s) {
        Some(
            MinuteStamp {
                year: four_digit_val(s, 0) as i32,
                month: two_digit_val(s, 5) as u8,
                day: two_digit_val(s, 8) as u8,
                hour: two_digit_val(s, 11) as u8,
                minute: two_digit_val(s, 14) as u8,
            },
        )
    } else {
        None
    }
}

/// Relies on chrono's `Utc::now` and `timestamp_millis`: the current UTC
/// time as milliseconds since the epoch. Reads the system clock, so
/// nothing is promised of the value.
#[verifier::external_body]
pub(crate) fn now_millis() -> i64 {
    chrono::Utc::now().timestamp_millis()
}

fn digit_of(c: char) -> (r: Option<u8>)
    ensures
        r is Some <==> is_dec_digit_char(c),
        r is Some ==> r->0 == digit_val(c),
{
    match c {
        '0' => Some(0),
        '1' => Some(1),
        '2' => Some(2),
        '3' => Some(3),
        '4' => Some(4),
        '5' => Some(5),
        '6' => Some(6),
        '7' => Some(7),
        '8' => Some(8),
        '9' => Some(9),
        _ => None,
    }
}

/// Whether a year is a leap year; executable counterpart of
/// [`is_leap_year`].
pub fn leap_year(y: i32) -> (r: bool)
    requires
        y >= 0,
    ensures
        r == is_leap_year(y as int),
{
    (y % 4 == 0 && y % 100 != 0) || y % 400 == 0
}

/// The number of days in a month; executable counterpart of
/// [`days_in_month`].
pub fn month_length(y: i32, m: u8) -> (r: u8)
    requires
        y >= 0,
    ensures
        r as int == days_in_month(y as int, m as int),
{
    if m == 2 {
        if leap_year(y) {
            29
        } else {
            28
        }
    } else if m == 4 || m == 6 || m == 9 || m == 11 {
        30
    } else {
        31
    }
}

/// Parses a listing date of the shape `YYYY-MM-DD HH:MM`, validating
/// punctuation, digits and calendar ranges; returns `None` for any input
/// that is not a well-formed date.
pub fn parse_listing_minute(s: &str) -> (r: Option<MinuteStamp>)
    ensures
        r == parse_listing_date(s@),
{
    if s.unicode_len() != 16 {
        return None;
    }
    let d0 = digit_of(s.get_char(0));
    let d1 = digit_of(s.get_char(1));
    let d2 = digit_of(s.get_char(2));
    let d3 = digit_of(s.get_char(3));
    let d5 = digit_of(s.get_char(5));
    let d6 = digit_of(s.get_char(6));
    let d8 = digit_of(s.get_char(8));
    let d9 = digit_of(s.get_char(9));
    let d11 = digit_of(s.get_char(11));
    let d12 = digit_of(s.get_char(12));
    let d14 = digit_of(s.get_char(14));
    let d15 = digit_of(s.get_char(15));
    if s.get_char(4) != '-' || s.get_char(7) != '-' || s.get_char(10) != ' ' || s.get_char(13)
        != ':' {
        return None;
    }
    match (d0, d1, d2, d3, d5, d6, d8, d9, d11, d12, d14, d15) {
        (
            Some(y0),
            Some(y1),
            Some(y2),
            Some(y3),
            Some(mo0),
            Some(mo1),
            Some(da0),
            Some(da1),
            Some(h0),
            Some(h1),
            Some(mi0),
            Some(mi1),
        ) => {
            let year: i32 = 1000 * (y0 as i32) + 100 * (y1 as i32) + 10 * (y2 as i32) + (y3 as i32);
            let month: u8 = 10 * mo0 + mo1;
            let day: u8 = 10 * da0 + da1;
            let hour: u8 = 10 * h0 + h1;
            let minute: u8 = 10 * mi0 + mi1;
            if month < 1 || month > 12 {
                return None;
            }
            if day < 1 || day > month_length(year, month) {
                return None;
            }
            if hour > 23 {
                return None;
            }
            if minute > 59 {
                return None;
            }
            Some(MinuteStamp { year, month, day, hour, minute })
        },
        _ => None,
    }
}

} // verus!
