//! Answer submission: the request to send, and the classification of the
//! site's reply into a typed outcome.

use vstd::prelude::*;

use crate::day::AocDay;
use crate::fetcher::{cookie_for, origin, session_cookie};
use crate::part::{level_of, AocPart};
use crate::session::Session;
use crate::text::{chars_of, contains_chars, decimal, decimal_string, has_substring};
use crate::year::AocYear;

verus! {

/// Why a submission did not succeed.
#[derive(Debug)]
pub enum SubmissionError {
    /// The request could not be sent or its reply not read.
    RequestError,
    /// The reply holds none of the known phrases; it is kept as it came.
    Unknown(String),
    /// The site did not accept the session token.
    InvalidSession,
    /// An answer was given too recently.
    CooldownPeriod,
    /// The puzzle is already complete up to the given part.
    AlreadyComplete(AocPart),
    /// The answer is wrong.
    IncorrectAnswer,
}

/// The reply to a correct answer.
pub open spec fn right_answer_phrase() -> Seq<char> {
    "That's the right answer!"@
}

/// The reply when the session is not recognised.
pub open spec fn identify_phrase() -> Seq<char> {
    "To play, please identify yourself"@
}

/// The reply during the cooldown after an answer.
pub open spec fn cooldown_phrase() -> Seq<char> {
    "You gave an answer too recently"@
}

/// The reply to a wrong answer.
pub open spec fn incorrect_phrase() -> Seq<char> {
    "That's not the right answer"@
}

/// The reply when the first part is already solved.
pub open spec fn first_half_phrase() -> Seq<char> {
    "The first half of this puzzle is complete!"@
}

/// The reply when both parts are already solved.
pub open spec fn both_parts_phrase() -> Seq<char> {
    "Both parts of this puzzle are complete!"@
}

/// Whether `r` classifies the reply `t`: the first phrase of the fixed
/// order that occurs decides, and a reply with none is unknown, kept whole.
/// `None` is success.
pub open spec fn classified_as(t: Seq<char>, r: Option<SubmissionError>) -> bool {
    if has_substring(t, right_answer_phrase()) {
        r is None
    } else if has_substring(t, identify_phrase()) {
        r == Some(SubmissionError::InvalidSession)
    } else if has_substring(t, cooldown_phrase()) {
        r == Some(SubmissionError::CooldownPeriod)
    } else if has_substring(t, incorrect_phrase()) {
        r == Some(SubmissionError::IncorrectAnswer)
    } else if has_substring(t, first_half_phrase()) {
        r == Some(SubmissionError::AlreadyComplete(AocPart::Part1))
    } else if has_substring(t, both_parts_phrase()) {
        r == Some(SubmissionError::AlreadyComplete(AocPart::Part2))
    } else {
        r matches Some(SubmissionError::Unknown(s)) && s@ == t
    }
}

impl SubmissionError {
    /// Classifies the site's reply to a submission; `None` means success.
    pub fn from_response_text(text: &str) -> (r: Option<SubmissionError>)
        ensures
            classified_as(text@, r),
    {
        let t = chars_of(text);
        if contains_chars(&t, &chars_of("That's the right answer!")) {
            None
        } else if contains_chars(&t, &chars_of("To play, please identify yourself")) {
            Some(SubmissionError::InvalidSession)
        } else if contains_chars(&t, &chars_of("You gave an answer too recently")) {
            Some(SubmissionError::CooldownPeriod)
        } else if contains_chars(&t, &chars_of("That's not the right answer")) {
            Some(SubmissionError::IncorrectAnswer)
        } else if contains_chars(&t, &chars_of("The first half of this puzzle is complete!")) {
            Some(SubmissionError::AlreadyComplete(AocPart::Part1))
        } else if contains_chars(&t, &chars_of("Both parts of this puzzle are complete!")) {
            Some(SubmissionError::AlreadyComplete(AocPart::Part2))
        } else {
            Some(SubmissionError::Unknown(text.to_string()))
        }
    }
}

/// A reply with both the cooldown phrase and the wrong-answer phrase is
/// never a wrong answer: the cooldown wins, unless a phrase earlier in the
/// order (success, unknown session) decides first.
pub proof fn lemma_cooldown_before_incorrect(t: Seq<char>, r: Option<SubmissionError>)
    requires
        has_substring(t, cooldown_phrase()),
        has_substring(t, incorrect_phrase()),
        classified_as(t, r),
    ensures
        r != Some(SubmissionError::IncorrectAnswer),
        !has_substring(t, right_answer_phrase()) && !has_substring(t, identify_phrase()) ==> r
            == Some(SubmissionError::CooldownPeriod),
{
}

/// The address that answers for a day are posted to.
pub open spec fn answer_url(year: AocYear, day: AocDay) -> Seq<char> {
    origin() + decimal(year@) + "/day/"@ + decimal(day@) + "/answer"@
}

/// The authenticated multipart POST of one answer.
#[derive(Debug)]
pub struct AnswerRequest {
    pub url: String,
    pub cookie: String,
    /// The form field `level`: 1 or 2.
    pub level: usize,
    /// The form field `answer`.
    pub answer: String,
}

/// Submits answers with one session.
pub struct AnswerSubmitter {
    session: Session,
}

impl AnswerSubmitter {
    /// The token the submitter authenticates with.
    pub closed spec fn session_token(&self) -> Seq<char> {
        self.session@
    }

    pub fn new(session: Session) -> (r: AnswerSubmitter)
        ensures
            r.session_token() == session@,
    {
        AnswerSubmitter { session }
    }

    /// The request that submits `solution` for the given part of (year, day).
    pub fn answer_request(&self, year: AocYear, day: AocDay, part: AocPart, solution: &str) -> (r:
        AnswerRequest)
        ensures
            r.url@ == answer_url(year, day),
            r.cookie@ == session_cookie(self.session_token()),
            r.level == level_of(part),
            r.answer@ == solution@,
    {
        let mut url = "https://adventofcode.com/".to_string();
        let y = decimal_string(year.number() as u64);
        let d = decimal_string(day.number() as u64);
        url.append(y.as_str());
        url.append("/day/");
        url.append(d.as_str());
        url.append("/answer");
        AnswerRequest {
            url,
            cookie: cookie_for(&self.session),
            level: part.level(),
            answer: solution.to_string(),
        }
    }

    /// The outcome of a submission whose reply body is `body`.
    pub fn outcome(body: &str) -> (r: Result<(), SubmissionError>)
        ensures
            r is Ok <==> classified_as(body@, None),
            r matches Err(e) ==> classified_as(body@, Some(e)),
    {
        match SubmissionError::from_response_text(body) {
            None => Ok(()),
            Some(e) => Err(e),
        }
    }
}

} // verus!
