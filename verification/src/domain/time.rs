//! An instant on the UTC time line, counted in whole seconds.

use vstd::prelude::*;
use vstd::string::StringExecFns;

verus! {

/// The error of `chrono`'s parsers; nothing is known of what a value holds.
#[verifier::external_type_specification]
#[verifier::external_body]
pub struct ExParseError(chrono::format::ParseError);

/// The instant that `chrono` reads in a text, as the number of non-leap
/// seconds between 1970-01-01 00:00:00 UTC and that instant, where it reads
/// one: what `str::parse::<chrono::DateTime<chrono::Utc>>` followed by
/// `DateTime::timestamp` gives for the text.
pub uninterp spec fn utc_seconds(text: Seq<char>) -> Option<i64>;

/// Calls `str::parse::<chrono::DateTime<chrono::Utc>>`, which accepts a
/// relaxed form of RFC 3339, and on success `DateTime::timestamp`. The result
/// goes by the name [`utc_seconds`]: the seconds where the text parses, the
/// parser's error where it does not.
#[verifier::external_body]
fn parse_utc_seconds(text: &str) -> (r: Result<i64, chrono::format::ParseError>)
    ensures
        r matches Ok(seconds) ==> utc_seconds(text@) == Some(seconds),
        r is Err ==> utc_seconds(text@) is None,
{
    let instant = text.parse::<chrono::DateTime<chrono::Utc>>()?;
    Ok(instant.timestamp())
}

/// Calls `chrono::Utc::now` and `DateTime::timestamp`: the clock's reading in
/// whole seconds since 1970-01-01 00:00:00 UTC. Nothing is known of it.
#[verifier::external_body]
fn clock_seconds() -> i64 {
    chrono::Utc::now().timestamp()
}

/// The text that [`Time::from_str`] hands to the parser for a date: the date,
/// then midnight UTC.
pub open spec fn midnight_text(date: Seq<char>) -> Seq<char> {
    date + "T00:00:00Z"@
}

/// An absolute instant in UTC with a resolution of one second.
#[derive(Debug, Clone, Copy, PartialEq, Eq, Structural)]
pub struct Time {
    seconds: i64,
}

impl View for Time {
    type V = i64;

    closed spec fn view(&self) -> i64 {
        self.seconds
    }
}

impl Time {
    /// The instant `timestamp` seconds after 1970-01-01 00:00:00 UTC, or
    /// before it where `timestamp` is negative.
    pub fn from_naive_utc(timestamp: i64) -> (r: Self)
        ensures
            r@ == timestamp,
    {
        Time { seconds: timestamp }
    }

    /// The instant that the clock shows, cut to whole seconds.
    pub fn now() -> Self {
        Time::from_naive_utc(clock_seconds())
    }

    /// The seconds between 1970-01-01 00:00:00 UTC and this instant.
    pub fn into_inner(self) -> (r: i64)
        ensures
            r == self@,
    {
        self.seconds
    }

    /// The seconds between 1970-01-01 00:00:00 UTC and this instant.
    pub fn to_timestamp(&self) -> (r: i64)
        ensures
            r == self@,
    {
        self.seconds
    }

    /// Reads a date written as `YYYY-MM-DD` as midnight UTC of that day:
    /// the date is followed by `T00:00:00Z` and the whole handed to `chrono`.
    pub fn from_str(s: &str) -> (r: Result<Self, chrono::format::ParseError>)
        ensures
            r matches Ok(time) ==> utc_seconds(midnight_text(s@)) == Some(time@),
            r is Err ==> utc_seconds(midnight_text(s@)) is None,
    {
        let mut text = s.to_owned();
        text.append("T00:00:00Z");
        match parse_utc_seconds(text.as_str()) {
            Ok(seconds) => Ok(Time::from_naive_utc(seconds)),
            Err(e) => Err(e),
        }
    }
}

} // verus!
