//! Fetching puzzle inputs through a pluggable cache, and classifying the
//! responses to answer submissions.

pub mod cache;
pub mod day;
pub mod fetcher;
pub mod number;
pub mod part;
pub mod session;
pub mod submitter;
pub mod text;
pub mod year;
