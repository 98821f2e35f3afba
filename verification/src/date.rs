//! The Date column: a calendar day written as `YYYY-MM-DD`.

use vstd::prelude::*;
use crate::text::to_chars;

verus! {

/// A day of the Gregorian calendar.
#[derive(Clone, Copy, Debug, PartialEq, Eq, Structural)]
pub struct Date {
    pub year: u32,
    pub month: u32,
    pub day: u32,
}

/// Why a text is not a date.
#[derive(Clone, Copy, Debug, PartialEq, Eq, Structural)]
pub enum DateFailure {
    /// The text is not four digits, a hyphen, two digits, a hyphen and two digits.
    Malformed,
    /// The text has the form of a date, but the calendar has no such day.
    NoSuchDay,
}

/// Whether `c` is an ASCII digit.
pub open spec fn is_digit(c: char) -> bool {
    '0' <= c && c <= '9'
}

/// The value of the ASCII digit `c`.
pub open spec fn digit_value(c: char) -> nat {
    (c as int - '0' as int) as nat
}

/// Whether `s` is four digits, a hyphen, two digits, a hyphen and two digits.
pub open spec fn has_date_shape(s: Seq<char>) -> bool {
    &&& s.len() == 10
    &&& is_digit(s[0])
    &&& is_digit(s[1])
    &&& is_digit(s[2])
    &&& is_digit(s[3])
    &&& s[4] == '-'
    &&& is_digit(s[5])
    &&& is_digit(s[6])
    &&& s[7] == '-'
    &&& is_digit(s[8])
    &&& is_digit(s[9])
}

/// The year that a text of the form of a date spells.
pub open spec fn spelled_year(s: Seq<char>) -> nat {
    1000 * digit_value(s[0]) + 100 * digit_value(s[1]) + 10 * digit_value(s[2]) + digit_value(
        s[3],
    )
}

/// The month that a text of the form of a date spells.
pub open spec fn spelled_month(s: Seq<char>) -> nat {
    10 * digit_value(s[5]) + digit_value(s[6])
}

/// The day that a text of the form of a date spells.
pub open spec fn spelled_day(s: Seq<char>) -> nat {
    10 * digit_value(s[8]) + digit_value(s[9])
}

/// Whether `year` is a leap year of the Gregorian calendar.
pub open spec fn is_leap_year(year: nat) -> bool {
    year % 4 == 0 && (year % 100 != 0 || year % 400 == 0)
}

/// The number of days of a month; zero where there is no such month.
pub open spec fn days_in_month(year: nat, month: nat) -> nat {
    if month == 2 {
        if is_leap_year(year) {
            29
        } else {
            28
        }
    } else if month == 4 || month == 6 || month == 9 || month == 11 {
        30
    } else if 1 <= month <= 12 {
        31
    } else {
        0
    }
}

/// Whether the calendar has the given day.
pub open spec fn is_calendar_day(year: nat, month: nat, day: nat) -> bool {
    1 <= month <= 12 && 1 <= day <= days_in_month(year, month)
}

impl Date {
    /// Whether this value is a day of the calendar with a year of four digits.
    pub open spec fn wf(self) -> bool {
        self.year <= 9999 && is_calendar_day(self.year as nat, self.month as nat, self.day as nat)
    }

    /// The date that a text spells, or why it spells none.
    pub open spec fn parse(s: Seq<char>) -> Result<Date, DateFailure> {
        if !has_date_shape(s) {
            Err(DateFailure::Malformed)
        } else if !is_calendar_day(spelled_year(s), spelled_month(s), spelled_day(s)) {
            Err(DateFailure::NoSuchDay)
        } else {
            Ok(
                Date {
                    year: spelled_year(s) as u32,
                    month: spelled_month(s) as u32,
                    day: spelled_day(s) as u32,
                },
            )
        }
    }

    /// Every date that a text spells is well-formed.
    pub proof fn lemma_parsed_is_wf(s: Seq<char>)
        ensures
            Date::parse(s) matches Ok(date) ==> date.wf(),
    {
    }

    /// Parses a date written as `YYYY-MM-DD`.
    pub fn from_str(s: &str) -> (parsed: Result<Date, DateFailure>)
        ensures
            parsed == Date::parse(s@),
    {
        let chars = to_chars(s);
        if chars.len() != 10 {
            return Err(DateFailure::Malformed);
        }
        if chars[4] != '-' || chars[7] != '-' {
            return Err(DateFailure::Malformed);
        }
        let year = match number(&chars, 0, 4) {
            Some(n) => n,
            None => {
                return Err(DateFailure::Malformed);
            },
        };
        let month = match number(&chars, 5, 7) {
            Some(n) => n,
            None => {
                return Err(DateFailure::Malformed);
            },
        };
        let day = match number(&chars, 8, 10) {
            Some(n) => n,
            None => {
                return Err(DateFailure::Malformed);
            },
        };
        proof {
            reveal_with_fuel(digits_value, 5);
        }
        if month < 1 || month > 12 || day < 1 || day > month_length(year, month) {
            return Err(DateFailure::NoSuchDay);
        }
        Ok(Date { year, month, day })
    }
}

/// The decimal value of the digits `s[from..to]`.
pub open spec fn digits_value(s: Seq<char>, from: int, to: int) -> nat
    decreases to - from,
{
    if to <= from {
        0
    } else {
        10 * digits_value(s, from, to - 1) + digit_value(s[to - 1])
    }
}

/// The value of the digits `chars[from..to]`, or `None` where one of these
/// characters is not a digit.
fn number(chars: &Vec<char>, from: usize, to: usize) -> (value: Option<u32>)
    requires
        from <= to <= chars@.len(),
        to - from <= 4,
    ensures
        match value {
            Some(n) => n == digits_value(chars@, from as int, to as int) && forall|i: int|
                from <= i < to ==> is_digit(chars@[i]),
            None => exists|i: int| from <= i < to && !is_digit(chars@[i]),
        },
{
    let mut n: u32 = 0;
    let mut i: usize = from;
    while i < to
        invariant
            from <= i <= to <= chars@.len(),
            to - from <= 4,
            n == digits_value(chars@, from as int, i as int),
            n < pow10((i - from) as nat),
            forall|j: int| from <= j < i ==> is_digit(chars@[j]),
        decreases to - i,
    {
        let c = chars[i];
        if c < '0' || c > '9' {
            return None;
        }
        proof {
            reveal_with_fuel(pow10, 5);
        }
        n = n * 10 + (c as u32 - '0' as u32);
        i += 1;
    }
    Some(n)
}

/// Ten to the power `k`.
pub open spec fn pow10(k: nat) -> nat
    decreases k,
{
    if k == 0 {
        1
    } else {
        10 * pow10((k - 1) as nat)
    }
}

/// The number of days of a month of a year.
fn month_length(year: u32, month: u32) -> (days: u32)
    requires
        1 <= month <= 12,
    ensures
        days == days_in_month(year as nat, month as nat),
{
    if month == 2 {
        if year % 4 == 0 && (year % 100 != 0 || year % 400 == 0) {
            29
        } else {
            28
        }
    } else if month == 4 || month == 6 || month == 9 || month == 11 {
        30
    } else {
        31
    }
}

} // verus!
