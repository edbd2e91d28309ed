//! The session token that authenticates requests.

use vstd::prelude::*;

verus! {

/// A session token; `parse` admits only non-empty ones.
#[derive(Debug, PartialEq, Eq, PartialOrd, Ord, Clone, Hash)]
pub struct Session(String);

impl View for Session {
    type V = Seq<char>;

    closed spec fn view(&self) -> Seq<char> {
        self.0@
    }
}

/// Why a text is not a session token.
#[derive(Debug, PartialEq, Eq, Structural, Clone, Copy)]
pub enum ParseSessionError {
    /// The token is empty.
    Empty,
}

impl Session {
    /// Reads a session token: any non-empty text.
    pub fn parse(s: &str) -> (r: Result<Session, ParseSessionError>)
        ensures
            r is Err <==> s@.len() == 0,
            r matches Ok(session) ==> session@ == s@,
    {
        if s.is_empty() {
            Err(ParseSessionError::Empty)
        } else {
            Ok(Session(s.to_string()))
        }
    }

    /// The token's text.
    pub fn token(&self) -> (r: &str)
        ensures
            r@ == self@,
    {
        self.0.as_str()
    }
}

impl std::str::FromStr for Session {
    type Err = ParseSessionError;

    fn from_str(s: &str) -> (r: Result<Session, ParseSessionError>)
        ensures
            r is Err <==> s@.len() == 0,
            r matches Ok(session) ==> session@ == s@,
    {
        Session::parse(s)
    }
}

} // verus!
