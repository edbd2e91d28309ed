//! A day of the puzzle calendar, from 1 to 25.

use vstd::prelude::*;

use crate::number::{decimal_value, is_unsigned_decimal, parse_unsigned, ParsedNumber};
use crate::text::{decimal, decimal_string};

verus! {

/// A puzzle day, always within 1 to 25.
#[derive(Debug, PartialEq, Eq, Structural, PartialOrd, Ord, Clone, Copy, Hash)]
pub struct AocDay(usize);

impl View for AocDay {
    type V = nat;

    closed spec fn view(&self) -> nat {
        self.0 as nat
    }
}

/// Why a text is not a puzzle day.
#[derive(Debug)]
pub enum ParseAocDayError {
    /// A number, but not within 1 to 25.
    OutOfRange(String),
    /// Not a number at all.
    NotANumber(String),
}

/// Why a number is not a puzzle day.
#[derive(Debug)]
pub enum ParseAocDayFromNumberError {
    /// The number is not within 1 to 25.
    OutOfRange(String),
}

/// Whether `r` is what reading `s` as a puzzle day gives.
pub open spec fn day_parsed_as(s: Seq<char>, r: Result<AocDay, ParseAocDayError>) -> bool {
    let v = decimal_value(s);
    match r {
        Ok(day) => is_unsigned_decimal(s) && 1 <= v <= 25 && day@ == v,
        Err(ParseAocDayError::NotANumber(t)) => !is_unsigned_decimal(s) && t@ == s,
        Err(ParseAocDayError::OutOfRange(t)) => {
            &&& is_unsigned_decimal(s)
            &&& !(1 <= v <= 25)
            &&& t@ == (if v > usize::MAX {
                s
            } else {
                decimal(v)
            })
        },
    }
}

impl AocDay {
    #[verifier::type_invariant]
    spec fn in_calendar(self) -> bool {
        1 <= self.0 <= 25
    }

    /// The day's number, which lies within 1 to 25.
    pub fn number(self) -> (r: usize)
        ensures
            r == self@,
            1 <= r <= 25,
    {
        proof {
            use_type_invariant(&self);
        }
        self.0
    }

    /// Reads a day from decimal text.
    pub fn parse(s: &str) -> (r: Result<AocDay, ParseAocDayError>)
        ensures
            day_parsed_as(s@, r),
    {
        match parse_unsigned(s, usize::MAX as u64) {
            ParsedNumber::Malformed => Err(ParseAocDayError::NotANumber(s.to_string())),
            ParsedNumber::TooLarge => Err(ParseAocDayError::OutOfRange(s.to_string())),
            ParsedNumber::Value(v) => {
                if 1 <= v && v <= 25 {
                    Ok(AocDay(v as usize))
                } else {
                    Err(ParseAocDayError::OutOfRange(decimal_string(v)))
                }
            },
        }
    }

    /// The day with number `value`, if it lies within 1 to 25.
    pub fn try_from_number(value: usize) -> (r: Result<AocDay, ParseAocDayFromNumberError>)
        ensures
            r is Ok <==> 1 <= value <= 25,
            r matches Ok(day) ==> day@ == value,
            r matches Err(ParseAocDayFromNumberError::OutOfRange(t)) ==> t@ == decimal(
                value as nat,
            ),
    {
        if 1 <= value && value <= 25 {
            Ok(AocDay(value))
        } else {
            Err(ParseAocDayFromNumberError::OutOfRange(decimal_string(value as u64)))
        }
    }
}

/// A day's number fits a `usize`, and two days with the same number are the
/// same day.
pub proof fn lemma_day_view_injective(a: AocDay, b: AocDay)
    ensures
        a@ <= usize::MAX,
        b@ <= usize::MAX,
        (a@ == b@) == (a == b),
{
}

impl std::str::FromStr for AocDay {
    type Err = ParseAocDayError;

    fn from_str(s: &str) -> (r: Result<AocDay, ParseAocDayError>)
        ensures
            day_parsed_as(s@, r),
    {
        AocDay::parse(s)
    }
}

} // verus!
