//! The API's date and datetime text formats.
//!
//! A datetime is written `YYYY-MM-DDTHH:MM:SS±HH:MM`: a local time with its
//! fixed UTC offset, seconds precision, every field zero-padded to its width.
//! A date is written `YYYY-MM-DD`. A date is read by appending the fixed
//! midnight time `T00:00:00-04:00`, reading the result as a datetime and
//! keeping its date.

use vstd::prelude::*;

use crate::json::{FromJson, JsonValue};
use crate::text::{digit_char, digit_str, digit_value, is_digit};

pub mod mbta_date_format;
pub mod mbta_datetime_format;
pub mod optional_mbta_date_format;
pub mod optional_mbta_datetime_format;
pub mod vec_mbta_date_format;

verus! {

/// A calendar date.
#[derive(Debug, PartialEq, Eq, Clone, Copy, Structural)]
pub struct Date {
    /// Year, `0..=9999`.
    pub year: u16,
    /// Month, `1..=12`.
    pub month: u8,
    /// Day of the month, `1..` the length of the month.
    pub day: u8,
}

/// A local date and time with a fixed UTC offset.
#[derive(Debug, PartialEq, Eq, Clone, Copy, Structural)]
pub struct DateTime {
    /// The local date.
    pub date: Date,
    /// Hour, `0..=23`.
    pub hour: u8,
    /// Minute, `0..=59`.
    pub minute: u8,
    /// Second, `0..=59`.
    pub second: u8,
    /// Offset from UTC in minutes, east positive, less than a day either way.
    pub offset_minutes: i16,
}

/// Whether `year` is a leap year of the Gregorian calendar.
pub open spec fn is_leap_year(year: int) -> bool {
    (year % 4 == 0 && year % 100 != 0) || year % 400 == 0
}

/// The number of days of a month.
pub open spec fn days_in_month(year: int, month: int) -> int {
    if month == 2 {
        if is_leap_year(year) {
            29
        } else {
            28
        }
    } else if month == 4 || month == 6 || month == 9 || month == 11 {
        30
    } else {
        31
    }
}

/// The offset that the date format assumes for its midnight, in minutes.
pub open spec fn midnight_offset() -> int {
    -240
}

/// The fixed time of day appended to a date before it is read.
pub open spec fn midnight_suffix() -> Seq<char> {
    seq!['T', '0', '0', ':', '0', '0', ':', '0', '0', '-', '0', '4', ':', '0', '0']
}

impl Date {
    /// Whether the date exists and its year has four digits.
    pub open spec fn wf(self) -> bool {
        &&& self.year <= 9999
        &&& 1 <= self.month <= 12
        &&& 1 <= self.day <= days_in_month(self.year as int, self.month as int)
    }
}

impl DateTime {
    /// Whether the date exists and every field is in range.
    pub open spec fn wf(self) -> bool {
        &&& self.date.wf()
        &&& self.hour < 24
        &&& self.minute < 60
        &&& self.second < 60
        &&& -1440 < self.offset_minutes < 1440
    }
}

/// Two decimal digits of `n`, zero-padded.
pub open spec fn two_digits(n: int) -> Seq<char> {
    seq![digit_char(n / 10), digit_char(n % 10)]
}

/// Four decimal digits of `n`, zero-padded.
pub open spec fn four_digits(n: int) -> Seq<char> {
    seq![digit_char(n / 1000), digit_char((n / 100) % 10), digit_char((n / 10) % 10), digit_char(n % 10)]
}

/// The text of a date: `YYYY-MM-DD`.
pub open spec fn date_text(d: Date) -> Seq<char> {
    four_digits(d.year as int) + seq!['-'] + two_digits(d.month as int) + seq!['-'] + two_digits(
        d.day as int,
    )
}

/// The magnitude of an offset.
pub open spec fn abs(x: int) -> int {
    if x < 0 {
        -x
    } else {
        x
    }
}

/// The text of an offset: `±HH:MM`, with `+` for zero.
pub open spec fn offset_text(o: int) -> Seq<char> {
    seq![if o < 0 { '-' } else { '+' }] + two_digits(abs(o) / 60) + seq![':'] + two_digits(abs(o) % 60)
}

/// The text of a datetime: `YYYY-MM-DDTHH:MM:SS±HH:MM`.
pub open spec fn datetime_text(v: DateTime) -> Seq<char> {
    date_text(v.date) + seq!['T'] + two_digits(v.hour as int) + seq![':'] + two_digits(v.minute as int)
        + seq![':'] + two_digits(v.second as int) + offset_text(v.offset_minutes as int)
}

/// Whether `s` holds decimal digits at positions `i .. i + n`.
pub open spec fn digits_at(s: Seq<char>, i: int, n: int) -> bool {
    forall|k: int| i <= k < i + n ==> is_digit(#[trigger] s[k])
}

/// The number written by the two digits at `i`.
pub open spec fn num2(s: Seq<char>, i: int) -> int {
    digit_value(s[i]) * 10 + digit_value(s[i + 1])
}

/// The number written by the four digits at `i`.
pub open spec fn num4(s: Seq<char>, i: int) -> int {
    num2(s, i) * 100 + num2(s, i + 2)
}

/// Whether the first ten characters of `s` have the shape `DDDD-DD-DD`.
pub open spec fn date_shape(s: Seq<char>) -> bool {
    &&& digits_at(s, 0, 4)
    &&& s[4] == '-'
    &&& digits_at(s, 5, 2)
    &&& s[7] == '-'
    &&& digits_at(s, 8, 2)
}

/// The date written in the first ten characters of `s`, shape aside.
pub open spec fn date_fields(s: Seq<char>) -> Date {
    Date { year: num4(s, 0) as u16, month: num2(s, 5) as u8, day: num2(s, 8) as u8 }
}

/// Whether `s` has the shape `DDDD-DD-DDTDD:DD:DD±DD:DD`.
pub open spec fn datetime_shape(s: Seq<char>) -> bool {
    &&& s.len() == 25
    &&& date_shape(s)
    &&& s[10] == 'T'
    &&& digits_at(s, 11, 2)
    &&& s[13] == ':'
    &&& digits_at(s, 14, 2)
    &&& s[16] == ':'
    &&& digits_at(s, 17, 2)
    &&& (s[19] == '+' || s[19] == '-')
    &&& digits_at(s, 20, 2)
    &&& s[22] == ':'
    &&& digits_at(s, 23, 2)
}

/// The offset written at the end of a datetime text, in minutes.
pub open spec fn offset_field(s: Seq<char>) -> int {
    let m = num2(s, 20) * 60 + num2(s, 23);
    if s[19] == '-' {
        -m
    } else {
        m
    }
}

/// The datetime that `s` writes, when it has the datetime shape and its
/// fields are in range (offset hours below 24, offset minutes below 60).
pub open spec fn datetime_of_text(s: Seq<char>) -> Option<DateTime> {
    if datetime_shape(s) && num2(s, 20) < 24 && num2(s, 23) < 60 {
        let v = DateTime {
            date: date_fields(s),
            hour: num2(s, 11) as u8,
            minute: num2(s, 14) as u8,
            second: num2(s, 17) as u8,
            offset_minutes: offset_field(s) as i16,
        };
        if v.wf() {
            Some(v)
        } else {
            None
        }
    } else {
        None
    }
}

/// The date that `s` writes: `s` followed by the fixed midnight, read as a
/// datetime, keeping its date.
pub open spec fn date_of_text(s: Seq<char>) -> Option<Date> {
    match datetime_of_text(s + midnight_suffix()) {
        Some(v) => Some(v.date),
        None => None,
    }
}

/// A decimal digit reads back as itself.
proof fn lemma_digit(d: int)
    requires
        0 <= d < 10,
    ensures
        is_digit(digit_char(d)),
        digit_value(digit_char(d)) == d,
{
}

/// Two zero-padded digits read back as the number.
proof fn lemma_two_digits(s: Seq<char>, i: int, n: int)
    requires
        0 <= n < 100,
        0 <= i,
        i + 2 <= s.len(),
        s[i] == two_digits(n)[0],
        s[i + 1] == two_digits(n)[1],
    ensures
        digits_at(s, i, 2),
        num2(s, i) == n,
{
    lemma_digit(n / 10);
    lemma_digit(n % 10);
    assert forall|k: int| i <= k < i + 2 implies is_digit(#[trigger] s[k]) by {
        if k == i {
        } else {
        }
    }
}

/// Four zero-padded digits read back as the number.
proof fn lemma_four_digits(s: Seq<char>, i: int, n: int)
    requires
        0 <= n < 10000,
        0 <= i,
        i + 4 <= s.len(),
        s[i] == four_digits(n)[0],
        s[i + 1] == four_digits(n)[1],
        s[i + 2] == four_digits(n)[2],
        s[i + 3] == four_digits(n)[3],
    ensures
        digits_at(s, i, 4),
        num4(s, i) == n,
{
    lemma_digit(n / 1000);
    lemma_digit((n / 100) % 10);
    lemma_digit((n / 10) % 10);
    lemma_digit(n % 10);
    assert forall|k: int| i <= k < i + 4 implies is_digit(#[trigger] s[k]) by {
        if k == i {
        } else if k == i + 1 {
        } else if k == i + 2 {
        } else {
        }
    }
    assert(num2(s, i) == n / 100);
    assert(num2(s, i + 2) == n % 100);
}

/// Reading the text of a well-formed datetime gives it back.
pub proof fn lemma_datetime_round_trip(v: DateTime)
    requires
        v.wf(),
    ensures
        datetime_of_text(datetime_text(v)) == Some(v),
{
    let t = datetime_text(v);
    let o = v.offset_minutes as int;
    let y = v.date.year as int;
    assert(t.len() == 25);
    assert(t[4] == '-' && t[7] == '-' && t[10] == 'T' && t[13] == ':' && t[16] == ':');
    assert(t[19] == (if o < 0 { '-' } else { '+' }) && t[22] == ':');
    lemma_four_digits(t, 0, y);
    lemma_two_digits(t, 5, v.date.month as int);
    lemma_two_digits(t, 8, v.date.day as int);
    lemma_two_digits(t, 11, v.hour as int);
    lemma_two_digits(t, 14, v.minute as int);
    lemma_two_digits(t, 17, v.second as int);
    lemma_two_digits(t, 20, abs(o) / 60);
    lemma_two_digits(t, 23, abs(o) % 60);
    assert(offset_field(t) == o);
    assert(date_fields(t) == v.date);
}

/// Reading the text of a well-formed date gives it back.
pub proof fn lemma_date_round_trip(d: Date)
    requires
        d.wf(),
    ensures
        date_of_text(date_text(d)) == Some(d),
{
    let v = DateTime { date: d, hour: 0, minute: 0, second: 0, offset_minutes: midnight_offset() as i16 };
    lemma_datetime_round_trip(v);
    assert(datetime_text(v) =~= date_text(d) + midnight_suffix()) by {
        lemma_digit(0);
        lemma_digit(4);
    }
}

/// Whether `year` is a leap year.
pub fn leap_year(year: u16) -> (r: bool)
    ensures
        r == is_leap_year(year as int),
{
    (year % 4 == 0 && year % 100 != 0) || year % 400 == 0
}

/// The number of days of a month of `1..=12`.
pub fn month_length(year: u16, month: u8) -> (r: u8)
    ensures
        r == days_in_month(year as int, month as int),
{
    if month == 2 {
        if leap_year(year) {
            29
        } else {
            28
        }
    } else if month == 4 || month == 6 || month == 9 || month == 11 {
        30
    } else {
        31
    }
}

/// Appends two zero-padded digits of `n`.
fn push_two_digits(out: &mut String, n: u8)
    requires
        n < 100,
    ensures
        final(out)@ == old(out)@ + two_digits(n as int),
{
    out.append(digit_str(n / 10));
    out.append(digit_str(n % 10));
}

/// Appends four zero-padded digits of `n`.
fn push_four_digits(out: &mut String, n: u16)
    requires
        n < 10000,
    ensures
        final(out)@ == old(out)@ + four_digits(n as int),
{
    out.append(digit_str((n / 1000) as u8));
    out.append(digit_str(((n / 100) % 10) as u8));
    out.append(digit_str(((n / 10) % 10) as u8));
    out.append(digit_str((n % 10) as u8));
}

/// Appends one separator character.
fn push_char(out: &mut String, c: char)
    requires
        c == '-' || c == 'T' || c == ':' || c == '+',
    ensures
        final(out)@ == old(out)@.push(c),
{
    if c == '-' {
        proof {
            reveal_strlit("-");
        }
        out.append("-");
    } else if c == 'T' {
        proof {
            reveal_strlit("T");
        }
        out.append("T");
    } else if c == ':' {
        proof {
            reveal_strlit(":");
        }
        out.append(":");
    } else {
        proof {
            reveal_strlit("+");
        }
        out.append("+");
    }
}

/// The decimal digit at position `i`, if it is one.
fn digit_at(s: &str, i: usize) -> (r: Option<u8>)
    requires
        i < s@.len(),
    ensures
        match r {
            Some(d) => is_digit(s@[i as int]) && d == digit_value(s@[i as int]),
            None => !is_digit(s@[i as int]),
        },
{
    let c = s.get_char(i);
    if '0' <= c && c <= '9' {
        Some((c as u32 - 48) as u8)
    } else {
        None
    }
}

/// The number written by the two digits at `i`, if both are digits.
fn read2(s: &str, i: usize) -> (r: Option<u8>)
    requires
        i + 2 <= s@.len(),
        i < 32,
    ensures
        match r {
            Some(n) => digits_at(s@, i as int, 2) && n == num2(s@, i as int),
            None => !digits_at(s@, i as int, 2),
        },
{
    let hi = digit_at(s, i);
    let lo = digit_at(s, i + 1);
    match (hi, lo) {
        (Some(hi), Some(lo)) => {
            assert forall|k: int| i <= k < i + 2 implies is_digit(#[trigger] s@[k]) by {
                if k == i {
                } else {
                }
            }
            Some(hi * 10 + lo)
        },
        _ => None,
    }
}

/// The number written by the four digits at `i`, if all are digits.
fn read4(s: &str, i: usize) -> (r: Option<u16>)
    requires
        i + 4 <= s@.len(),
        i < 24,
    ensures
        match r {
            Some(n) => digits_at(s@, i as int, 4) && n == num4(s@, i as int),
            None => !digits_at(s@, i as int, 4),
        },
{
    match (read2(s, i), read2(s, i + 2)) {
        (Some(hi), Some(lo)) => {
            assert forall|k: int| i <= k < i + 4 implies is_digit(#[trigger] s@[k]) by {
                if k < i + 2 {
                    assert(digits_at(s@, i as int, 2));
                } else {
                    assert(digits_at(s@, i + 2, 2));
                }
            }
            Some(hi as u16 * 100 + lo as u16)
        },
        (None, _) => {
            assert(!digits_at(s@, i as int, 4));
            None
        },
        (_, None) => {
            assert(!digits_at(s@, i as int, 4));
            None
        },
    }
}

impl Date {
    /// Whether the date exists and its year has four digits.
    pub fn is_valid(&self) -> (r: bool)
        ensures
            r == self.wf(),
    {
        self.year <= 9999 && 1 <= self.month && self.month <= 12 && 1 <= self.day && self.day
            <= month_length(self.year, self.month)
    }

    /// The text `YYYY-MM-DD` of the date.
    pub fn to_text(&self) -> (r: String)
        requires
            self.wf(),
        ensures
            r@ == date_text(*self),
    {
        let mut out = String::new();
        push_four_digits(&mut out, self.year);
        push_char(&mut out, '-');
        push_two_digits(&mut out, self.month);
        push_char(&mut out, '-');
        push_two_digits(&mut out, self.day);
        assert(out@ =~= date_text(*self));
        out
    }

    /// Reads a date: `s` followed by `T00:00:00-04:00`, read as a datetime,
    /// keeping its date. Any text of another shape gives `None`.
    pub fn parse(s: &str) -> (r: Option<Date>)
        ensures
            r == date_of_text(s@),
    {
        let mut text = String::from_str(s);
        proof {
            reveal_strlit("T00:00:00-04:00");
        }
        text.append("T00:00:00-04:00");
        assert(text@ =~= s@ + midnight_suffix());
        match DateTime::parse(text.as_str()) {
            Some(v) => Some(v.date),
            None => None,
        }
    }
}

impl DateTime {
    /// Whether the date exists and every field is in range.
    pub fn is_valid(&self) -> (r: bool)
        ensures
            r == self.wf(),
    {
        self.date.is_valid() && self.hour < 24 && self.minute < 60 && self.second < 60 && -1440
            < self.offset_minutes && self.offset_minutes < 1440
    }

    /// The text `YYYY-MM-DDTHH:MM:SS±HH:MM` of the datetime.
    pub fn to_text(&self) -> (r: String)
        requires
            self.wf(),
        ensures
            r@ == datetime_text(*self),
    {
        let mut out = self.date.to_text();
        push_char(&mut out, 'T');
        push_two_digits(&mut out, self.hour);
        push_char(&mut out, ':');
        push_two_digits(&mut out, self.minute);
        push_char(&mut out, ':');
        push_two_digits(&mut out, self.second);
        let magnitude: i16 = if self.offset_minutes < 0 {
            push_char(&mut out, '-');
            -self.offset_minutes
        } else {
            push_char(&mut out, '+');
            self.offset_minutes
        };
        push_two_digits(&mut out, (magnitude / 60) as u8);
        push_char(&mut out, ':');
        push_two_digits(&mut out, (magnitude % 60) as u8);
        assert(out@ =~= datetime_text(*self));
        out
    }

    /// Reads a datetime written `YYYY-MM-DDTHH:MM:SS±HH:MM`. Any text of
    /// another shape, or with a field out of range, gives `None`.
    pub fn parse(s: &str) -> (r: Option<DateTime>)
        ensures
            r == datetime_of_text(s@),
    {
        if s.unicode_len() != 25 {
            return None;
        }
        let year = read4(s, 0);
        let month = read2(s, 5);
        let day = read2(s, 8);
        let hour = read2(s, 11);
        let minute = read2(s, 14);
        let second = read2(s, 17);
        let off_hours = read2(s, 20);
        let off_minutes = read2(s, 23);
        let sign = s.get_char(19);
        let separators = s.get_char(4) == '-' && s.get_char(7) == '-' && s.get_char(10) == 'T'
            && s.get_char(13) == ':' && s.get_char(16) == ':' && s.get_char(22) == ':' && (sign
            == '+' || sign == '-');
        if !separators {
            return None;
        }
        match (year, month, day, hour, minute, second, off_hours, off_minutes) {
            (
                Some(year),
                Some(month),
                Some(day),
                Some(hour),
                Some(minute),
                Some(second),
                Some(oh),
                Some(om),
            ) => {
                if oh >= 24 || om >= 60 {
                    return None;
                }
                let m: i16 = oh as i16 * 60 + om as i16;
                let offset_minutes: i16 = if sign == '-' {
                    -m
                } else {
                    m
                };
                let v = DateTime { date: Date { year, month, day }, hour, minute, second, offset_minutes };
                if v.is_valid() {
                    Some(v)
                } else {
                    None
                }
            },
            _ => None,
        }
    }
}

/// A datetime decodes from a JSON string in the datetime format.
impl FromJson for DateTime {
    open spec fn decodes_to(j: JsonValue, v: Self) -> bool {
        match j {
            JsonValue::Str(s) => datetime_of_text(s@) == Some(v),
            _ => false,
        }
    }

    open spec fn decodable(j: JsonValue) -> bool {
        match j {
            JsonValue::Str(s) => datetime_of_text(s@) is Some,
            _ => false,
        }
    }

    fn from_json(j: JsonValue) -> (r: Option<Self>) {
        match j {
            JsonValue::Str(s) => DateTime::parse(s.as_str()),
            _ => None,
        }
    }
}

/// A date decodes from a JSON string in the date format.
impl FromJson for Date {
    open spec fn decodes_to(j: JsonValue, v: Self) -> bool {
        match j {
            JsonValue::Str(s) => date_of_text(s@) == Some(v),
            _ => false,
        }
    }

    open spec fn decodable(j: JsonValue) -> bool {
        match j {
            JsonValue::Str(s) => date_of_text(s@) is Some,
            _ => false,
        }
    }

    fn from_json(j: JsonValue) -> (r: Option<Self>) {
        match j {
            JsonValue::Str(s) => Date::parse(s.as_str()),
            _ => None,
        }
    }
}

/// Whether `j` is the JSON string of the datetime `v`.
pub open spec fn datetime_json(v: DateTime, j: JsonValue) -> bool {
    match j {
        JsonValue::Str(s) => s@ == datetime_text(v),
        _ => false,
    }
}

/// Whether `j` is the JSON string of the date `d`.
pub open spec fn date_json(d: Date, j: JsonValue) -> bool {
    match j {
        JsonValue::Str(s) => s@ == date_text(d),
        _ => false,
    }
}

} // verus!
