//! Plain-value models of clock times and calendar dates.
//!
//! A clock time is a minute of the day; a date is a year, month and day of
//! the Gregorian calendar. Parsing and formatting use the strict shapes
//! "HH:MM" and "YYYY-MM-DD". The current instant is never read here: callers
//! supply `now` or `today` explicitly.

use vstd::prelude::*;
use crate::text::{digit_char, spec_two_digits, two_digits, spec_digits};

verus! {

/// Minutes in a day; a minute-of-day value is below this.
pub const MINUTES_PER_DAY: u16 = 1440;

/// Whether `c` is a decimal digit.
pub open spec fn is_digit(c: char) -> bool {
    '0' <= c && c <= '9'
}

/// The numeric value of a decimal digit character.
pub open spec fn digit_val(c: char) -> nat
    recommends
        is_digit(c),
{
    ((c as nat) - ('0' as nat)) as nat
}

/// Whether `s` has the exact shape "HH:MM" with a valid hour and minute.
pub open spec fn valid_hhmm(s: Seq<char>) -> bool {
    &&& s.len() == 5
    &&& is_digit(s[0]) && is_digit(s[1]) && s[2] == ':' && is_digit(s[3]) && is_digit(s[4])
    &&& digit_val(s[0]) * 10 + digit_val(s[1]) < 24
    &&& digit_val(s[3]) * 10 + digit_val(s[4]) < 60
}

/// The minute of the day denoted by a valid "HH:MM" string.
pub open spec fn hhmm_value(s: Seq<char>) -> nat
    recommends
        valid_hhmm(s),
{
    (digit_val(s[0]) * 10 + digit_val(s[1])) * 60 + digit_val(s[3]) * 10 + digit_val(s[4])
}

/// The "HH:MM" rendering of a minute of the day.
pub open spec fn spec_format_hhmm(m: nat) -> Seq<char>
    recommends
        m < 1440,
{
    spec_two_digits(m / 60) + seq![':'] + spec_two_digits(m % 60)
}

fn digit_of(c: char) -> (r: Option<u16>)
    ensures
        r is Some <==> is_digit(c),
        r is Some ==> r->Some_0 == digit_val(c) && r->Some_0 < 10,
{
    let v = c as u32;
    if v >= 48 && v <= 57 {
        Some((v - 48) as u16)
    } else {
        None
    }
}

/// Parses a strict "HH:MM" time string into a minute of the day.
/// Returns `Some` exactly on well-formed inputs.
pub fn parse_hhmm(s: &str) -> (r: Option<u16>)
    ensures
        r is Some <==> valid_hhmm(s@),
        r is Some ==> r->Some_0 == hhmm_value(s@) && r->Some_0 < MINUTES_PER_DAY,
{
    if s.unicode_len() != 5 {
        return None;
    }
    let c0 = digit_of(s.get_char(0));
    let c1 = digit_of(s.get_char(1));
    let sep = s.get_char(2);
    let c3 = digit_of(s.get_char(3));
    let c4 = digit_of(s.get_char(4));
    if sep != ':' {
        return None;
    }
    match (c0, c1, c3, c4) {
        (Some(h1), Some(h2), Some(m1), Some(m2)) => {
            let h = h1 * 10 + h2;
            let m = m1 * 10 + m2;
            if h < 24 && m < 60 {
                Some(h * 60 + m)
            } else {
                None
            }
        },
        _ => None,
    }
}

/// Renders a minute of the day as "HH:MM".
pub fn format_hhmm(m: u16) -> (r: String)
    requires
        m < MINUTES_PER_DAY,
    ensures
        r@ == spec_format_hhmm(m as nat),
{
    let mut r = two_digits((m / 60) as u64);
    let sep = ":";
    r.append(sep);
    let mins = two_digits((m % 60) as u64);
    r.append(mins.as_str());
    proof {
        reveal_strlit(":");
        assert(r@ =~= spec_format_hhmm(m as nat));
    }
    r
}

/// A Gregorian calendar date held as plain values.
#[derive(Debug, Clone, Copy, PartialEq, Eq, Structural)]
pub struct Date {
    pub year: u16,
    pub month: u8,
    pub day: u8,
}

/// Whether `y` is a leap year.
pub open spec fn spec_is_leap(y: nat) -> bool {
    (y % 4 == 0 && y % 100 != 0) || y % 400 == 0
}

/// The number of days in a month of a year.
pub open spec fn spec_days_in_month(y: nat, m: nat) -> nat
    recommends
        1 <= m <= 12,
{
    if m == 2 {
        if spec_is_leap(y) {
            29
        } else {
            28
        }
    } else if m == 4 || m == 6 || m == 9 || m == 11 {
        30
    } else {
        31
    }
}

impl Date {
    /// A well-formed date: a real day of a year between 1 and 9999.
    pub open spec fn valid(self) -> bool {
        &&& 1 <= self.year <= 9999
        &&& 1 <= self.month <= 12
        &&& 1 <= self.day <= spec_days_in_month(self.year as nat, self.month as nat)
    }
}

/// Days before the first of `m` within a non-leap year.
pub open spec fn spec_days_before_month(m: nat) -> nat
    recommends
        1 <= m <= 12,
{
    if m == 1 { 0 } else if m == 2 { 31 } else if m == 3 { 59 } else if m == 4 { 90 }
    else if m == 5 { 120 } else if m == 6 { 151 } else if m == 7 { 181 }
    else if m == 8 { 212 } else if m == 9 { 243 } else if m == 10 { 273 }
    else if m == 11 { 304 } else { 334 }
}

/// Leap years strictly before year `y` (counting from year 1).
pub open spec fn spec_leaps_before(y: nat) -> int
    recommends
        y >= 1,
{
    let p = y - 1;
    p / 4 - p / 100 + p / 400
}

/// The ordinal of a valid date, counting 0001-01-01 as day 0.
pub open spec fn spec_day_number(d: Date) -> int
    recommends
        d.valid(),
{
    let y = d.year as nat;
    let m = d.month as nat;
    (y - 1) * 365 + spec_leaps_before(y) + spec_days_before_month(m) + (
        if m > 2 && spec_is_leap(y) {
            1int
        } else {
            0int
        }
    ) + (d.day as int - 1)
}

impl Date {
    fn days_in_month(&self) -> (r: u8)
        requires
            1 <= self.month <= 12,
        ensures
            r == spec_days_in_month(self.year as nat, self.month as nat),
    {
        let y = self.year;
        if self.month == 2 {
            if (y % 4 == 0 && y % 100 != 0) || y % 400 == 0 {
                29
            } else {
                28
            }
        } else if self.month == 4 || self.month == 6 || self.month == 9 || self.month == 11 {
            30
        } else {
            31
        }
    }

    /// Whether this date is a real day of a year between 1 and 9999.
    pub fn is_valid(&self) -> (r: bool)
        ensures
            r == self.valid(),
    {
        1 <= self.year && self.year <= 9999 && 1 <= self.month && self.month <= 12 && 1 <= self.day
            && self.day <= self.days_in_month()
    }

    fn days_before_month(&self) -> (r: u16)
        requires
            1 <= self.month <= 12,
        ensures
            r == spec_days_before_month(self.month as nat),
    {
        match self.month {
            1 => 0,
            2 => 31,
            3 => 59,
            4 => 90,
            5 => 120,
            6 => 151,
            7 => 181,
            8 => 212,
            9 => 243,
            10 => 273,
            11 => 304,
            _ => 334,
        }
    }

    /// The ordinal of this date, counting 0001-01-01 as day 0.
    pub fn day_number(&self) -> (r: i64)
        requires
            self.valid(),
        ensures
            r == spec_day_number(*self),
    {
        let y = self.year as i64;
        let p = y - 1;
        let leaps = p / 4 - p / 100 + p / 400;
        let leap_day: i64 = if self.month > 2 && ((self.year % 4 == 0 && self.year % 100 != 0)
            || self.year % 400 == 0) {
            1
        } else {
            0
        };
        p * 365 + leaps + self.days_before_month() as i64 + leap_day + self.day as i64 - 1
    }
}

/// Days from `from` to `to`; negative when `to` is earlier.
pub fn days_between(from: &Date, to: &Date) -> (r: i64)
    requires
        from.valid(),
        to.valid(),
    ensures
        r == spec_day_number(*to) - spec_day_number(*from),
{
    to.day_number() - from.day_number()
}

/// Whether `s` has the exact shape "YYYY-MM-DD" with all digits in place.
pub open spec fn shaped_date(s: Seq<char>) -> bool {
    &&& s.len() == 10
    &&& is_digit(s[0]) && is_digit(s[1]) && is_digit(s[2]) && is_digit(s[3])
    &&& s[4] == '-'
    &&& is_digit(s[5]) && is_digit(s[6])
    &&& s[7] == '-'
    &&& is_digit(s[8]) && is_digit(s[9])
}

/// The date denoted by a well-shaped "YYYY-MM-DD" string.
pub open spec fn date_of(s: Seq<char>) -> Date
    recommends
        shaped_date(s),
{
    Date {
        year: (digit_val(s[0]) * 1000 + digit_val(s[1]) * 100 + digit_val(s[2]) * 10 + digit_val(
            s[3],
        )) as u16,
        month: (digit_val(s[5]) * 10 + digit_val(s[6])) as u8,
        day: (digit_val(s[8]) * 10 + digit_val(s[9])) as u8,
    }
}

/// Whether `s` denotes a valid date in the shape "YYYY-MM-DD".
pub open spec fn valid_date_str(s: Seq<char>) -> bool {
    shaped_date(s) && date_of(s).valid()
}

/// Parses a strict "YYYY-MM-DD" date string into a valid date.
/// Returns `Some` exactly on well-shaped strings denoting real days.
pub fn parse_date(s: &str) -> (r: Option<Date>)
    ensures
        r is Some <==> valid_date_str(s@),
        r is Some ==> r->Some_0 == date_of(s@) && r->Some_0.valid(),
{
    if s.unicode_len() != 10 {
        return None;
    }
    let y0 = digit_of(s.get_char(0));
    let y1 = digit_of(s.get_char(1));
    let y2 = digit_of(s.get_char(2));
    let y3 = digit_of(s.get_char(3));
    let d1 = s.get_char(4);
    let m0 = digit_of(s.get_char(5));
    let m1 = digit_of(s.get_char(6));
    let d2 = s.get_char(7);
    let dd0 = digit_of(s.get_char(8));
    let dd1 = digit_of(s.get_char(9));
    if d1 != '-' || d2 != '-' {
        return None;
    }
    match (y0, y1, y2, y3, m0, m1, dd0, dd1) {
        (Some(a), Some(b), Some(c), Some(d), Some(e), Some(f), Some(g), Some(h)) => {
            let date = Date {
                year: a * 1000 + b * 100 + c * 10 + d,
                month: (e * 10 + f) as u8,
                day: (g * 10 + h) as u8,
            };
            if date.is_valid() {
                Some(date)
            } else {
                None
            }
        },
        _ => None,
    }
}

/// The "YYYY-MM-DD" rendering of a valid date.
pub open spec fn spec_format_date(d: Date) -> Seq<char>
    recommends
        d.valid(),
{
    let y = d.year as nat;
    seq![
        digit_char(y / 1000),
        digit_char(y / 100 % 10),
        digit_char(y / 10 % 10),
        digit_char(y % 10),
    ] + seq!['-'] + spec_two_digits(d.month as nat) + seq!['-'] + spec_two_digits(d.day as nat)
}

/// Renders a valid date as "YYYY-MM-DD".
pub fn format_date(d: &Date) -> (r: String)
    requires
        d.valid(),
    ensures
        r@ == spec_format_date(*d),
{
    let y = d.year as u64;
    let mut r = crate::text::two_digits(y / 100);
    let low = crate::text::two_digits(y % 100);
    r.append(low.as_str());
    r.append("-");
    let m = crate::text::two_digits(d.month as u64);
    r.append(m.as_str());
    r.append("-");
    let dd = crate::text::two_digits(d.day as u64);
    r.append(dd.as_str());
    proof {
        reveal_strlit("-");
        assert(r@ =~= spec_format_date(*d));
    }
    r
}

/// Each digit character is a digit denoting its own value.
pub proof fn lemma_digit_char(d: nat)
    requires
        d < 10,
    ensures
        is_digit(digit_char(d)),
        digit_val(digit_char(d)) == d,
{
    reveal_strlit("0123456789");
}

/// Formatting a minute of the day and parsing it back is the identity.
pub proof fn law_hhmm_round_trip(m: nat)
    requires
        m < 1440,
    ensures
        valid_hhmm(spec_format_hhmm(m)),
        hhmm_value(spec_format_hhmm(m)) == m,
{
    let s = spec_format_hhmm(m);
    let h = m / 60;
    let mi = m % 60;
    lemma_digit_char(h / 10);
    lemma_digit_char(h % 10);
    lemma_digit_char(mi / 10);
    lemma_digit_char(mi % 10);
    assert(s[0] == digit_char(h / 10) && s[1] == digit_char(h % 10) && s[2] == ':' && s[3]
        == digit_char(mi / 10) && s[4] == digit_char(mi % 10));
    assert((h / 10) * 10 + h % 10 == h && (mi / 10) * 10 + mi % 10 == mi && h * 60 + mi == m && h
        < 24 && mi < 60);
}

/// A year below 10000 is exactly its four decimal digits.
proof fn lemma_year_digits(yy: u16)
    requires
        yy <= 9999,
    ensures
        (yy / 1000) * 1000 + (yy / 100 % 10) * 100 + (yy / 10 % 10) * 10 + yy % 10 == yy,
        yy / 1000 < 10 && yy / 100 % 10 < 10 && yy / 10 % 10 < 10 && yy % 10 < 10,
{
    assert((yy / 1000) * 1000 + (yy / 100 % 10) * 100 + (yy / 10 % 10) * 10 + yy % 10 == yy
        && yy / 1000 < 10 && yy / 100 % 10 < 10 && yy / 10 % 10 < 10 && yy % 10 < 10)
        by (bit_vector)
        requires
            yy <= 9999,
    ;
}

/// Formatting a valid date and parsing it back is the identity.
pub proof fn law_date_round_trip(d: Date)
    requires
        d.valid(),
    ensures
        valid_date_str(spec_format_date(d)),
        date_of(spec_format_date(d)) == d,
{
    let s = spec_format_date(d);
    let y = d.year as nat;
    let mo = d.month as nat;
    let da = d.day as nat;
    lemma_year_digits(d.year);
    let c = seq![
        digit_char(y / 1000),
        digit_char(y / 100 % 10),
        digit_char(y / 10 % 10),
        digit_char(y % 10),
        '-',
        digit_char(mo / 10),
        digit_char(mo % 10),
        '-',
        digit_char(da / 10),
        digit_char(da % 10),
    ];
    assert(s =~= c);
    lemma_digit_char(y / 1000);
    lemma_digit_char(y / 100 % 10);
    lemma_digit_char(y / 10 % 10);
    lemma_digit_char(y % 10);
    lemma_digit_char(mo / 10);
    lemma_digit_char(mo % 10);
    lemma_digit_char(da / 10);
    lemma_digit_char(da % 10);
    assert(shaped_date(s));
    assert((y / 1000) * 1000 + (y / 100 % 10) * 100 + (y / 10 % 10) * 10 + y % 10 == y);
    assert((mo / 10) * 10 + mo % 10 == mo && (da / 10) * 10 + da % 10 == da);
    assert(date_of(s) == d);
}

} // verus!
