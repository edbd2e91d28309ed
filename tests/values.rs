use aocio::day::{AocDay, ParseAocDayError, ParseAocDayFromNumberError};
use aocio::number::{parse_unsigned, ParsedNumber};
use aocio::part::{AocPart, ParseAocPartError};
use aocio::session::{ParseSessionError, Session};
use aocio::year::{AocYear, ParseAocYearError};

#[test]
fn day_parses_within_range() {
    assert_eq!(AocDay::parse("1").unwrap().number(), 1);
    assert_eq!(AocDay::parse("25").unwrap().number(), 25);
    assert_eq!(AocDay::parse("+7").unwrap().number(), 7);
    assert_eq!(AocDay::parse("007").unwrap().number(), 7);
}

#[test]
fn day_out_of_range_reports_number() {
    match AocDay::parse("26") {
        Err(ParseAocDayError::OutOfRange(t)) => assert_eq!(t, "26"),
        other => panic!("unexpected {:?}", other),
    }
    match AocDay::parse("0") {
        Err(ParseAocDayError::OutOfRange(t)) => assert_eq!(t, "0"),
        other => panic!("unexpected {:?}", other),
    }
    match AocDay::parse("0030") {
        Err(ParseAocDayError::OutOfRange(t)) => assert_eq!(t, "30"),
        other => panic!("unexpected {:?}", other),
    }
}

#[test]
fn day_overflow_reports_text() {
    let big = "999999999999999999999999";
    match AocDay::parse(big) {
        Err(ParseAocDayError::OutOfRange(t)) => assert_eq!(t, big),
        other => panic!("unexpected {:?}", other),
    }
}

#[test]
fn day_not_a_number() {
    for s in ["", "x", "-3", "1a", "+", " 1"] {
        match AocDay::parse(s) {
            Err(ParseAocDayError::NotANumber(t)) => assert_eq!(t, s),
            other => panic!("unexpected {:?} for {:?}", other, s),
        }
    }
}

#[test]
fn day_from_str_matches_parse() {
    let d: AocDay = "12".parse().unwrap();
    assert_eq!(d.number(), 12);
}

#[test]
fn day_from_number() {
    assert_eq!(AocDay::try_from_number(3).unwrap().number(), 3);
    match AocDay::try_from_number(40) {
        Err(ParseAocDayFromNumberError::OutOfRange(t)) => assert_eq!(t, "40"),
        Ok(_) => panic!("40 is no day"),
    }
    assert!(AocDay::try_from_number(0).is_err());
}

#[test]
fn year_parses_from_first_year() {
    assert_eq!(AocYear::parse("2015").unwrap().number(), 2015);
    assert_eq!(AocYear::parse("2023").unwrap().number(), 2023);
    match AocYear::parse("2014") {
        Err(ParseAocYearError::OutOfRange(t)) => assert_eq!(t, "2014"),
        other => panic!("unexpected {:?}", other),
    }
    match AocYear::parse("99999999999") {
        Err(ParseAocYearError::OutOfRange(t)) => assert_eq!(t, "99999999999"),
        other => panic!("unexpected {:?}", other),
    }
    match AocYear::parse("twenty") {
        Err(ParseAocYearError::NotANumber(t)) => assert_eq!(t, "twenty"),
        other => panic!("unexpected {:?}", other),
    }
}

#[test]
fn year_lists_all_days() {
    let days = AocYear::get_days();
    assert_eq!(days.len(), 25);
    for (i, d) in days.iter().enumerate() {
        assert_eq!(d.number(), i + 1);
    }
}

#[test]
fn part_parses_one_and_two() {
    assert_eq!(AocPart::parse("1").unwrap(), AocPart::Part1);
    assert_eq!(AocPart::parse("2").unwrap(), AocPart::Part2);
    assert_eq!(AocPart::Part1.level(), 1);
    assert_eq!(AocPart::Part2.level(), 2);
    match AocPart::parse("3") {
        Err(ParseAocPartError::NotAPart(t)) => assert_eq!(t, "3"),
        other => panic!("unexpected {:?}", other),
    }
    match AocPart::parse("two") {
        Err(ParseAocPartError::NotANumber(t)) => assert_eq!(t, "two"),
        other => panic!("unexpected {:?}", other),
    }
}

#[test]
fn session_must_not_be_empty() {
    assert_eq!(Session::parse("").unwrap_err(), ParseSessionError::Empty);
    assert_eq!(Session::parse("abc123").unwrap().token(), "abc123");
}

#[test]
fn unsigned_numbers_against_a_bound() {
    assert_eq!(parse_unsigned("255", 255), ParsedNumber::Value(255));
    assert_eq!(parse_unsigned("256", 255), ParsedNumber::TooLarge);
    assert_eq!(parse_unsigned("18446744073709551615", u64::MAX), ParsedNumber::Value(u64::MAX));
    assert_eq!(parse_unsigned("18446744073709551616", u64::MAX), ParsedNumber::TooLarge);
    assert_eq!(parse_unsigned("12x", 255), ParsedNumber::Malformed);
    assert_eq!(parse_unsigned("", 255), ParsedNumber::Malformed);
    assert_eq!(parse_unsigned("5", 3), ParsedNumber::TooLarge);
}

#[test]
fn from_str_agrees_with_parse() {
    assert_eq!("25".parse::<AocDay>().unwrap().number(), 25);
    assert!(matches!("26".parse::<AocDay>(), Err(ParseAocDayError::OutOfRange(t)) if t == "26"));
    assert!(matches!("0".parse::<AocDay>(), Err(ParseAocDayError::OutOfRange(t)) if t == "0"));
    assert!(matches!("abc".parse::<AocDay>(), Err(ParseAocDayError::NotANumber(t)) if t == "abc"));
    assert_eq!("2015".parse::<AocYear>().unwrap().number(), 2015);
    assert!(matches!("2014".parse::<AocYear>(), Err(ParseAocYearError::OutOfRange(t)) if t == "2014"));
    assert!(matches!("20x5".parse::<AocYear>(), Err(ParseAocYearError::NotANumber(t)) if t == "20x5"));
    assert_eq!("1".parse::<AocPart>().unwrap(), AocPart::Part1);
    assert_eq!("2".parse::<AocPart>().unwrap(), AocPart::Part2);
    assert!(matches!("3".parse::<AocPart>(), Err(ParseAocPartError::NotAPart(t)) if t == "3"));
    assert!(matches!("x".parse::<AocPart>(), Err(ParseAocPartError::NotANumber(t)) if t == "x"));
    assert_eq!("".parse::<Session>().unwrap_err(), ParseSessionError::Empty);
    assert_eq!("tok".parse::<Session>().unwrap().token(), "tok");
}
