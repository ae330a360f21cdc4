//! Points in time at which records are created, and their order.

use chrono::{Datelike, Timelike};
use vstd::prelude::*;

verus! {

#[verifier::external_type_specification]
#[verifier::external_body]
pub struct ExParseError(chrono::format::ParseError);

/// A calendar date and time of day without a time zone. `day` counts days from
/// the start of the common era (January 1 of year 1 is day 1), `second` counts
/// seconds from midnight and `nanosecond` the fraction of that second (a leap
/// second shows as a nanosecond count of one billion or more).
#[derive(Clone, Copy, Debug, PartialEq, Eq, Structural)]
pub struct Timestamp {
    pub day: i32,
    pub second: u32,
    pub nanosecond: u32,
}

/// What chrono's `NaiveDateTime::from_str` reads from a text, as a `Timestamp`,
/// or `None` where it refuses the text.
pub uninterp spec fn parsed_timestamp(s: Seq<char>) -> Option<Timestamp>;

/// Relies on chrono's `FromStr` for `NaiveDateTime` (`YYYY-MM-DDTHH:MM:SS` with
/// an optional fraction), and on its accessors for the day number, the seconds
/// from midnight and the nanoseconds.
#[verifier::external_body]
fn parse_naive_datetime(s: &str) -> (r: Result<Timestamp, chrono::format::ParseError>)
    ensures
        r is Ok <==> parsed_timestamp(s@) is Some,
        r is Ok ==> parsed_timestamp(s@) == Some(r->Ok_0),
{
    match s.parse::<chrono::NaiveDateTime>() {
        Ok(t) => Ok(
            Timestamp {
                day: t.date().num_days_from_ce(),
                second: t.time().num_seconds_from_midnight(),
                nanosecond: t.time().nanosecond(),
            },
        ),
        Err(e) => Err(e),
    }
}

/// Relies on the `Display` of chrono's `ParseError`, which describes the failure.
#[verifier::external_body]
fn parse_error_text(e: &chrono::format::ParseError) -> (r: String) {
    e.to_string()
}

impl Timestamp {
    /// `self` is at or before `other` in time.
    pub open spec fn spec_not_after(self, other: Timestamp) -> bool {
        self.day < other.day || (self.day == other.day && (self.second < other.second || (
        self.second == other.second && self.nanosecond <= other.nanosecond)))
    }

    pub fn new(day: i32, second: u32, nanosecond: u32) -> (r: Timestamp)
        ensures
            r == (Timestamp { day, second, nanosecond }),
    {
        Timestamp { day, second, nanosecond }
    }

    /// Whether `self` is at or before `other`.
    pub fn not_after(&self, other: &Timestamp) -> (r: bool)
        ensures
            r == self.spec_not_after(*other),
    {
        self.day < other.day || (self.day == other.day && (self.second < other.second || (
        self.second == other.second && self.nanosecond <= other.nanosecond)))
    }

    /// Reads a timestamp written as `YYYY-MM-DDTHH:MM:SS` with an optional
    /// fraction of a second; on failure, the reason.
    pub fn parse(s: &str) -> (r: Result<Timestamp, String>)
        ensures
            r is Ok <==> parsed_timestamp(s@) is Some,
            r is Ok ==> parsed_timestamp(s@) == Some(r->Ok_0),
    {
        match parse_naive_datetime(s) {
            Ok(t) => Ok(t),
            Err(e) => Err(parse_error_text(&e)),
        }
    }
}

} // verus!
