use aocio::day::AocDay;
use aocio::part::AocPart;
use aocio::session::Session;
use aocio::submitter::{AnswerSubmitter, SubmissionError};
use aocio::text::str_contains;
use aocio::year::AocYear;

fn classify(body: &str) -> Option<SubmissionError> {
    SubmissionError::from_response_text(body)
}

#[test]
fn right_answer_is_success() {
    assert!(classify("That's the right answer!").is_none());
    assert!(AnswerSubmitter::outcome("<p>That's the right answer! Good job</p>").is_ok());
}

#[test]
fn too_recently_is_cooldown() {
    assert!(matches!(
        classify("You gave an answer too recently; you have to wait after submitting"),
        Some(SubmissionError::CooldownPeriod)
    ));
}

#[test]
fn not_right_is_incorrect() {
    assert!(matches!(
        classify("That's not the right answer... "),
        Some(SubmissionError::IncorrectAnswer)
    ));
}

#[test]
fn identify_is_invalid_session() {
    assert!(matches!(
        classify("To play, please identify yourself via one of these services"),
        Some(SubmissionError::InvalidSession)
    ));
}

#[test]
fn first_half_complete() {
    assert!(matches!(
        classify("The first half of this puzzle is complete!"),
        Some(SubmissionError::AlreadyComplete(AocPart::Part1))
    ));
}

#[test]
fn both_parts_complete() {
    assert!(matches!(
        classify("Both parts of this puzzle are complete!"),
        Some(SubmissionError::AlreadyComplete(AocPart::Part2))
    ));
}

#[test]
fn unknown_keeps_text() {
    match classify("Congratulations on completing...") {
        Some(SubmissionError::Unknown(t)) => assert_eq!(t, "Congratulations on completing..."),
        other => panic!("unexpected {:?}", other),
    }
    match classify("") {
        Some(SubmissionError::Unknown(t)) => assert_eq!(t, ""),
        other => panic!("unexpected {:?}", other),
    }
}

#[test]
fn cooldown_wins_over_incorrect() {
    let body = "That's not the right answer. You gave an answer too recently.";
    assert!(matches!(classify(body), Some(SubmissionError::CooldownPeriod)));
    assert!(matches!(
        AnswerSubmitter::outcome(body),
        Err(SubmissionError::CooldownPeriod)
    ));
}

#[test]
fn identify_wins_over_cooldown() {
    let body = "You gave an answer too recently. To play, please identify yourself.";
    assert!(matches!(classify(body), Some(SubmissionError::InvalidSession)));
}

#[test]
fn answer_request_fields() {
    let s = AnswerSubmitter::new(Session::parse("abc").unwrap());
    let r = s.answer_request(
        AocYear::parse("2023").unwrap(),
        AocDay::parse("14").unwrap(),
        AocPart::Part2,
        "1234",
    );
    assert_eq!(r.url, "https://adventofcode.com/2023/day/14/answer");
    assert_eq!(r.cookie, "session=abc");
    assert_eq!(r.level, 2);
    assert_eq!(r.answer, "1234");
}

#[test]
fn substring_search() {
    assert!(str_contains("hello world", "o w"));
    assert!(str_contains("abc", ""));
    assert!(!str_contains("abc", "abcd"));
    assert!(!str_contains("aab", "abb"));
    assert!(str_contains("héllo", "llo"));
}
