//! Calendar dates written as `YYYY-MM-DD`.

use vstd::prelude::*;
use crate::text::{
    chars_of, digit, digit_char, digit_value, is_digit, lemma_digit_char, lemma_digit_value,
    push_char,
};

verus! {

/// A day of the proleptic Gregorian calendar, as three numbers.
pub ghost struct Date {
    pub year: int,
    pub month: int,
    pub day: int,
}

/// A year with a twenty-ninth of February.
pub open spec fn is_leap_year(year: int) -> bool {
    year % 4 == 0 && (year % 100 != 0 || year % 400 == 0)
}

/// The number of days of a month of a year.
pub open spec fn days_in_month(year: int, month: int) -> int {
    if month == 2 {
        if is_leap_year(year) { 29 } else { 28 }
    } else if month == 4 || month == 6 || month == 9 || month == 11 {
        30
    } else {
        31
    }
}

/// The dates that four digits of year can name: a month from 1 to 12 and a
/// day that this month has in this year.
pub open spec fn is_calendar_date(d: Date) -> bool {
    &&& 0 <= d.year <= 9999
    &&& 1 <= d.month <= 12
    &&& 1 <= d.day <= days_in_month(d.year, d.month)
}

/// Ten characters: four digits, a hyphen, two digits, a hyphen, two digits.
pub open spec fn has_date_shape(s: Seq<char>) -> bool {
    &&& s.len() == 10
    &&& s[4] == '-'
    &&& s[7] == '-'
    &&& forall|i: int| 0 <= i < 10 && i != 4 && i != 7 ==> is_digit(#[trigger] s[i])
}

/// The number that two digits write.
pub open spec fn two_digits(tens: char, units: char) -> int {
    10 * digit_value(tens) + digit_value(units)
}

/// The three numbers that a text of that shape writes down.
pub open spec fn shaped_date(s: Seq<char>) -> Date {
    Date {
        year: 100 * two_digits(s[0], s[1]) + two_digits(s[2], s[3]),
        month: two_digits(s[5], s[6]),
        day: two_digits(s[8], s[9]),
    }
}

/// What a text means as a date: it has the shape and names a day that exists.
pub open spec fn parse_date(s: Seq<char>) -> Option<Date> {
    if has_date_shape(s) && is_calendar_date(shaped_date(s)) {
        Some(shaped_date(s))
    } else {
        None
    }
}

/// A date written as `YYYY-MM-DD`, each number padded with zeros.
pub open spec fn date_text(d: Date) -> Seq<char> {
    seq![
        digit_char(d.year / 100 / 10),
        digit_char(d.year / 100 % 10),
        digit_char(d.year % 100 / 10),
        digit_char(d.year % 100 % 10),
        '-',
        digit_char(d.month / 10),
        digit_char(d.month % 10),
        '-',
        digit_char(d.day / 10),
        digit_char(d.day % 10),
    ]
}

/// The two digits of a number below a hundred write that number.
proof fn lemma_two_digits_of(n: int)
    requires
        0 <= n <= 99,
    ensures
        is_digit(digit_char(n / 10)),
        is_digit(digit_char(n % 10)),
        two_digits(digit_char(n / 10), digit_char(n % 10)) == n,
{
    lemma_digit_char(n / 10);
    lemma_digit_char(n % 10);
}

/// The number that two digits write has those digits.
proof fn lemma_digits_of_two(tens: char, units: char)
    requires
        is_digit(tens),
        is_digit(units),
    ensures
        0 <= two_digits(tens, units) <= 99,
        digit_char(two_digits(tens, units) / 10) == tens,
        digit_char(two_digits(tens, units) % 10) == units,
{
    lemma_digit_value(tens);
    lemma_digit_value(units);
    let n = two_digits(tens, units);
    assert(n / 10 == digit_value(tens) && n % 10 == digit_value(units));
}

/// Writing a date and reading the text back gives the date.
pub proof fn lemma_date_text_parses(d: Date)
    requires
        is_calendar_date(d),
    ensures
        parse_date(date_text(d)) == Some(d),
{
    let s = date_text(d);
    let (high, low) = (d.year / 100, d.year % 100);
    assert(0 <= high <= 99 && 0 <= low <= 99 && d.year == 100 * high + low);
    lemma_two_digits_of(high);
    lemma_two_digits_of(low);
    lemma_two_digits_of(d.month);
    lemma_two_digits_of(d.day);
    assert(s.len() == 10);
    assert(s[0] == digit_char(high / 10) && s[1] == digit_char(high % 10));
    assert(s[2] == digit_char(low / 10) && s[3] == digit_char(low % 10));
    assert(s[5] == digit_char(d.month / 10) && s[6] == digit_char(d.month % 10));
    assert(s[8] == digit_char(d.day / 10) && s[9] == digit_char(d.day % 10));
    assert(s[4] == '-' && s[7] == '-');
    assert(has_date_shape(s)) by {
        assert forall|i: int| 0 <= i < 10 && i != 4 && i != 7 implies is_digit(#[trigger] s[i]) by {
            assert(i == 0 || i == 1 || i == 2 || i == 3 || i == 5 || i == 6 || i == 8 || i == 9);
        }
    }
    assert(shaped_date(s).year == d.year);
    assert(shaped_date(s).month == d.month);
    assert(shaped_date(s).day == d.day);
}

/// A text that reads as a date is the very text that this date is written as.
pub proof fn lemma_parsed_date_text(s: Seq<char>)
    requires
        parse_date(s) is Some,
    ensures
        date_text(parse_date(s)->0) == s,
{
    let d = shaped_date(s);
    let t = date_text(d);
    assert(is_digit(s[0]) && is_digit(s[1]) && is_digit(s[2]) && is_digit(s[3]));
    assert(is_digit(s[5]) && is_digit(s[6]) && is_digit(s[8]) && is_digit(s[9]));
    lemma_digits_of_two(s[0], s[1]);
    lemma_digits_of_two(s[2], s[3]);
    lemma_digits_of_two(s[5], s[6]);
    lemma_digits_of_two(s[8], s[9]);
    let (high, low) = (two_digits(s[0], s[1]), two_digits(s[2], s[3]));
    assert(d.year / 100 == high && d.year % 100 == low);
    assert(t.len() == 10);
    assert(t[0] == s[0] && t[1] == s[1] && t[2] == s[2] && t[3] == s[3] && t[4] == s[4]);
    assert(t[5] == s[5] && t[6] == s[6] && t[7] == s[7] && t[8] == s[8] && t[9] == s[9]);
    assert(t =~= s);
}

/// A date of birth: a day that exists, in a year from 0 to 9999.
#[derive(Clone, Copy, Debug, PartialEq, Eq, Structural)]
pub struct BirthDate {
    year: u16,
    month: u8,
    day: u8,
}

impl View for BirthDate {
    type V = Date;

    closed spec fn view(&self) -> Date {
        Date { year: self.year as int, month: self.month as int, day: self.day as int }
    }
}

/// The number of days of a month.
fn month_length(year: u16, month: u8) -> (n: u8)
    ensures
        n == days_in_month(year as int, month as int),
{
    if month == 2 {
        if year % 4 == 0 && (year % 100 != 0 || year % 400 == 0) { 29 } else { 28 }
    } else if month == 4 || month == 6 || month == 9 || month == 11 {
        30
    } else {
        31
    }
}

/// The value of a decimal digit, if `c` is one.
fn digit_of(c: char) -> (r: Option<u8>)
    ensures
        r is Some <==> is_digit(c),
        r is Some ==> r->0 == digit_value(c),
{
    if '0' <= c && c <= '9' {
        Some(((c as u32) - 48) as u8)
    } else {
        None
    }
}

impl BirthDate {
    #[verifier::type_invariant]
    spec fn exists_in_calendar(self) -> bool {
        is_calendar_date(self@)
    }

    /// The date with these numbers, where there is one.
    pub fn new(year: u16, month: u8, day: u8) -> (r: Option<BirthDate>)
        ensures
            r is Some <==> is_calendar_date(Date { year: year as int, month: month as int, day: day as int }),
            r is Some ==> r->0@ == (Date { year: year as int, month: month as int, day: day as int }),
    {
        if year <= 9999 && 1 <= month && month <= 12 && 1 <= day && day <= month_length(year, month) {
            Some(BirthDate { year, month, day })
        } else {
            None
        }
    }

    /// Reads a date written as `YYYY-MM-DD`.
    pub fn parse(text: &str) -> (r: Option<BirthDate>)
        ensures
            r is Some <==> parse_date(text@) is Some,
            r is Some ==> Some(r->0@) == parse_date(text@),
    {
        let s = chars_of(text);
        if s.len() != 10 || s[4] != '-' || s[7] != '-' {
            return None;
        }
        let digits = (
            digit_of(s[0]), digit_of(s[1]), digit_of(s[2]), digit_of(s[3]),
            digit_of(s[5]), digit_of(s[6]), digit_of(s[8]), digit_of(s[9]),
        );
        match digits {
            (Some(y3), Some(y2), Some(y1), Some(y0), Some(m1), Some(m0), Some(d1), Some(d0)) => {
                let year: u16 = 100 * (10 * (y3 as u16) + (y2 as u16)) + 10 * (y1 as u16) + (
                y0 as u16);
                let month: u8 = 10 * m1 + m0;
                let day: u8 = 10 * d1 + d0;
                BirthDate::new(year, month, day)
            },
            _ => None,
        }
    }

    /// The year, from 0 to 9999.
    pub fn year(&self) -> (y: u16)
        ensures
            y == self@.year,
    {
        self.year
    }

    /// The month, from 1 to 12.
    pub fn month(&self) -> (m: u8)
        ensures
            m == self@.month,
    {
        self.month
    }

    /// The day of the month, from 1.
    pub fn day(&self) -> (d: u8)
        ensures
            d == self@.day,
    {
        self.day
    }

    /// Writes the date as `YYYY-MM-DD`.
    pub fn to_text(&self) -> (s: String)
        ensures
            s@ == date_text(self@),
            is_calendar_date(self@),
    {
        proof {
            use_type_invariant(self);
        }
        let mut s = String::new();
        push_char(&mut s, digit((self.year / 100 / 10) as u8));
        push_char(&mut s, digit((self.year / 100 % 10) as u8));
        push_char(&mut s, digit((self.year % 100 / 10) as u8));
        push_char(&mut s, digit((self.year % 100 % 10) as u8));
        push_char(&mut s, '-');
        push_char(&mut s, digit(self.month / 10));
        push_char(&mut s, digit(self.month % 10));
        push_char(&mut s, '-');
        push_char(&mut s, digit(self.day / 10));
        push_char(&mut s, digit(self.day % 10));
        assert(s@ =~= date_text(self@));
        s
    }
}

} // verus!
