//! Which half of a day's puzzle an answer is for.

use vstd::prelude::*;

use crate::number::{decimal_value, is_unsigned_decimal, parse_unsigned, ParsedNumber};

verus! {

/// The first or the second part of a day's puzzle.
#[derive(Debug, PartialEq, Eq, Structural, PartialOrd, Ord, Clone, Copy, Hash)]
pub enum AocPart {
    Part1,
    Part2,
}

/// Why a text is not a puzzle part.
#[derive(Debug)]
pub enum ParseAocPartError {
    /// A number, but neither 1 nor 2.
    NotAPart(String),
    /// Not a number at all.
    NotANumber(String),
}

/// The level number of a part: 1 or 2.
pub open spec fn level_of(part: AocPart) -> nat {
    match part {
        AocPart::Part1 => 1,
        AocPart::Part2 => 2,
    }
}

/// Whether `r` is what reading `s` as a puzzle part gives.
pub open spec fn part_parsed_as(s: Seq<char>, r: Result<AocPart, ParseAocPartError>) -> bool {
    let v = decimal_value(s);
    match r {
        Ok(part) => is_unsigned_decimal(s) && v == level_of(part),
        Err(ParseAocPartError::NotANumber(t)) => !is_unsigned_decimal(s) && t@ == s,
        Err(ParseAocPartError::NotAPart(t)) => is_unsigned_decimal(s) && v != 1 && v != 2 && t@
            == s,
    }
}

impl AocPart {
    /// The part's level number, as the answer form sends it.
    pub fn level(self) -> (r: usize)
        ensures
            r == level_of(self),
    {
        match self {
            AocPart::Part1 => 1,
            AocPart::Part2 => 2,
        }
    }

    /// Reads a part from decimal text.
    pub fn parse(s: &str) -> (r: Result<AocPart, ParseAocPartError>)
        ensures
            part_parsed_as(s@, r),
    {
        match parse_unsigned(s, usize::MAX as u64) {
            ParsedNumber::Malformed => Err(ParseAocPartError::NotANumber(s.to_string())),
            ParsedNumber::TooLarge => Err(ParseAocPartError::NotAPart(s.to_string())),
            ParsedNumber::Value(v) => {
                if v == 1 {
                    Ok(AocPart::Part1)
                } else if v == 2 {
                    Ok(AocPart::Part2)
                } else {
                    Err(ParseAocPartError::NotAPart(s.to_string()))
                }
            },
        }
    }
}

impl std::str::FromStr for AocPart {
    type Err = ParseAocPartError;

    fn from_str(s: &str) -> (r: Result<AocPart, ParseAocPartError>)
        ensures
            part_parsed_as(s@, r),
    {
        AocPart::parse(s)
    }
}

} // verus!
