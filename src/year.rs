//! A puzzle year, 2015 or later.

use vstd::prelude::*;

use crate::day::AocDay;
use crate::number::{decimal_value, is_unsigned_decimal, parse_unsigned, ParsedNumber};
use crate::text::{decimal, decimal_string};

verus! {

/// The first year of the puzzle calendar.
pub const FIRST_YEAR: u32 = 2015;

/// A puzzle year, never before the first one.
#[derive(Debug, PartialEq, Eq, Structural, PartialOrd, Ord, Clone, Copy, Hash)]
pub struct AocYear(u32);

impl View for AocYear {
    type V = nat;

    closed spec fn view(&self) -> nat {
        self.0 as nat
    }
}

/// Why a text is not a puzzle year.
#[derive(Debug)]
pub enum ParseAocYearError {
    /// A number, but before the first year or too large.
    OutOfRange(String),
    /// Not a number at all.
    NotANumber(String),
}

/// Whether `r` is what reading `s` as a puzzle year gives.
pub open spec fn year_parsed_as(s: Seq<char>, r: Result<AocYear, ParseAocYearError>) -> bool {
    let v = decimal_value(s);
    match r {
        Ok(year) => is_unsigned_decimal(s) && FIRST_YEAR <= v <= u32::MAX && year@ == v,
        Err(ParseAocYearError::NotANumber(t)) => !is_unsigned_decimal(s) && t@ == s,
        Err(ParseAocYearError::OutOfRange(t)) => {
            &&& is_unsigned_decimal(s)
            &&& !(FIRST_YEAR <= v <= u32::MAX)
            &&& t@ == (if v > u32::MAX {
                s
            } else {
                decimal(v)
            })
        },
    }
}

impl AocYear {
    #[verifier::type_invariant]
    spec fn in_calendar(self) -> bool {
        FIRST_YEAR <= self.0
    }

    /// The year's number, never before the first year.
    pub fn number(self) -> (r: u32)
        ensures
            r == self@,
            FIRST_YEAR <= r,
    {
        proof {
            use_type_invariant(&self);
        }
        self.0
    }

    /// Reads a year from decimal text.
    pub fn parse(s: &str) -> (r: Result<AocYear, ParseAocYearError>)
        ensures
            year_parsed_as(s@, r),
    {
        match parse_unsigned(s, u32::MAX as u64) {
            ParsedNumber::Malformed => Err(ParseAocYearError::NotANumber(s.to_string())),
            ParsedNumber::TooLarge => Err(ParseAocYearError::OutOfRange(s.to_string())),
            ParsedNumber::Value(v) => {
                if v >= FIRST_YEAR as u64 {
                    Ok(AocYear(v as u32))
                } else {
                    Err(ParseAocYearError::OutOfRange(decimal_string(v)))
                }
            },
        }
    }

    /// The days of a year, 1 to 25 in order.
    pub fn get_days() -> (r: Vec<AocDay>)
        ensures
            r@.len() == 25,
            forall|i: int| 0 <= i < 25 ==> (#[trigger] r@[i])@ == i + 1,
    {
        let mut days: Vec<AocDay> = Vec::new();
        let mut n: usize = 1;
        while n <= 25
            invariant
                1 <= n <= 26,
                days@.len() == n - 1,
                forall|i: int| 0 <= i < n - 1 ==> (#[trigger] days@[i])@ == i + 1,
            decreases 26 - n,
        {
            match AocDay::try_from_number(n) {
                Ok(day) => days.push(day),
                Err(_) => {},
            }
            n = n + 1;
        }
        days
    }
}

/// A year's number fits a `u32`, and two years with the same number are the
/// same year.
pub proof fn lemma_year_view_injective(a: AocYear, b: AocYear)
    ensures
        a@ <= u32::MAX,
        b@ <= u32::MAX,
        (a@ == b@) == (a == b),
{
}

impl std::str::FromStr for AocYear {
    type Err = ParseAocYearError;

    fn from_str(s: &str) -> (r: Result<AocYear, ParseAocYearError>)
        ensures
            year_parsed_as(s@, r),
    {
        AocYear::parse(s)
    }
}

} // verus!
