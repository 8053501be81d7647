//! Calendar dates written as `YYYY-MM-DD`.

use crate::digits::{decimal_value, is_digit, is_digit_char};
use crate::error::{Error, ErrorView};
use vstd::prelude::*;

verus! {

/// Four digits, a hyphen, two digits, a hyphen, two digits.
pub open spec fn has_date_shape(s: Seq<char>) -> bool {
    &&& s.len() == 10
    &&& is_digit(s[0])
    &&& is_digit(s[1])
    &&& is_digit(s[2])
    &&& is_digit(s[3])
    &&& s[4] == '-'
    &&& is_digit(s[5])
    &&& is_digit(s[6])
    &&& s[7] == '-'
    &&& is_digit(s[8])
    &&& is_digit(s[9])
}

pub open spec fn year_of(s: Seq<char>) -> nat
    recommends
        has_date_shape(s),
{
    decimal_value(s.subrange(0, 4))
}

pub open spec fn month_of(s: Seq<char>) -> nat
    recommends
        has_date_shape(s),
{
    decimal_value(s.subrange(5, 7))
}

pub open spec fn day_of(s: Seq<char>) -> nat
    recommends
        has_date_shape(s),
{
    decimal_value(s.subrange(8, 10))
}

/// The Gregorian rule, applied to every year from 0 on.
pub open spec fn is_leap_year(year: nat) -> bool {
    year % 4 == 0 && (year % 100 != 0 || year % 400 == 0)
}

pub open spec fn days_in_month(year: nat, month: nat) -> nat {
    if month == 2 {
        if is_leap_year(year) {
            29
        } else {
            28
        }
    } else if month == 4 || month == 6 || month == 9 || month == 11 {
        30
    } else {
        31
    }
}

pub open spec fn is_calendar_date(year: nat, month: nat, day: nat) -> bool {
    &&& 1 <= month <= 12
    &&& 1 <= day <= days_in_month(year, month)
}

/// The text is written as `YYYY-MM-DD` and names a day that exists.
pub open spec fn is_valid_date(s: Seq<char>) -> bool {
    &&& has_date_shape(s)
    &&& is_calendar_date(year_of(s), month_of(s), day_of(s))
}

/// Whether the text is written as `YYYY-MM-DD`, whatever day it names.
pub fn is_date_shaped(date: &str) -> (res: bool)
    ensures
        res == has_date_shape(date@),
{
    if date.unicode_len() != 10 {
        return false;
    }
    let mut i: usize = 0;
    while i < 10
        invariant
            date@.len() == 10,
            i <= 10,
            forall|j: int|
                0 <= j < i ==> if j == 4 || j == 7 {
                    date@[j] == '-'
                } else {
                    is_digit(#[trigger] date@[j])
                },
        decreases 10 - i,
    {
        let c = date.get_char(i);
        if i == 4 || i == 7 {
            if c != '-' {
                return false;
            }
        } else if !is_digit_char(c) {
            return false;
        }
        i += 1;
    }
    true
}

/// Calls `chrono::NaiveDate::parse_from_str` with the format `%Y-%m-%d`, and
/// prints the date it read with its `Display` impl.
///
/// Trusted, and only of a text written as `YYYY-MM-DD`: chrono reads the
/// three numerals as year, month and day, accepts them exactly when that day
/// exists in the proleptic Gregorian calendar, and prints a date of the years
/// 0 to 9999 in the same ten characters.
#[verifier::external_body]
pub(crate) fn calendar_form(date: &str) -> (res: Option<String>)
    ensures
        has_date_shape(date@) ==> (res is Some <==> is_valid_date(date@)),
        has_date_shape(date@) && res is Some ==> res.unwrap()@ == date@,
{
    match chrono::NaiveDate::parse_from_str(date, "%Y-%m-%d") {
        Ok(day) => Some(day.to_string()),
        Err(_) => None,
    }
}

/// The two dates that a usage query runs between. Both are real calendar
/// dates written as `YYYY-MM-DD`: no range can be made of anything else.
#[derive(Debug, PartialEq, Eq)]
pub struct DateRange {
    start_date: String,
    end_date: String,
}

impl DateRange {
    #[verifier::type_invariant]
    spec fn both_valid(self) -> bool {
        is_valid_date(self.start_date@) && is_valid_date(self.end_date@)
    }

    pub closed spec fn start(&self) -> Seq<char> {
        self.start_date@
    }

    pub closed spec fn end(&self) -> Seq<char> {
        self.end_date@
    }

    /// Validates both dates, the start date first.
    pub fn new(start_date: String, end_date: String) -> (res: Result<DateRange, Error>)
        ensures
            match res {
                Ok(range) => {
                    &&& is_valid_date(start_date@)
                    &&& is_valid_date(end_date@)
                    &&& range.start() == start_date@
                    &&& range.end() == end_date@
                },
                Err(failure) => if !is_valid_date(start_date@) {
                    failure@ == ErrorView::InvalidDateFormat(start_date@)
                } else {
                    !is_valid_date(end_date@) && failure@ == ErrorView::InvalidDateFormat(
                        end_date@,
                    )
                },
            },
    {
        let start_date = crate::parse_date_naive(start_date)?;
        let end_date = crate::parse_date_naive(end_date)?;
        Ok(DateRange { start_date, end_date })
    }

    pub fn start_date(&self) -> (res: &str)
        ensures
            res@ == self.start(),
            is_valid_date(res@),
    {
        proof {
            use_type_invariant(self);
        }
        self.start_date.as_str()
    }

    pub fn end_date(&self) -> (res: &str)
        ensures
            res@ == self.end(),
            is_valid_date(res@),
    {
        proof {
            use_type_invariant(self);
        }
        self.end_date.as_str()
    }
}

} // verus!
