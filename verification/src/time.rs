//! Instants on the UTC time line and the one-week digest window.

use chrono::DateTime;
use chrono::Utc;
use vstd::prelude::*;

verus! {

/// `chrono::ParseError`, of which the verifier sees nothing.
#[verifier::external_type_specification]
#[verifier::external_body]
pub struct ExParseError(chrono::ParseError);

/// Length of the digest window in seconds: seven days.
pub const SECONDS_PER_WEEK: i64 = 604_800;

/// A point on the UTC time line.
///
/// `seconds` counts the non-leap seconds since 1970-01-01T00:00:00Z and `nanos`
/// the nanoseconds since the last second boundary. Within a leap second `nanos`
/// runs past 999,999,999, so that instants are ordered by `seconds` first and
/// by `nanos` second.
#[derive(Clone, Copy, Debug, PartialEq, Eq, Structural)]
pub struct Instant {
    pub seconds: i64,
    pub nanos: u32,
}

impl Instant {
    /// `self` lies strictly later than `other`.
    pub open spec fn is_after(self, other: Instant) -> bool {
        self.seconds > other.seconds || (self.seconds == other.seconds && self.nanos > other.nanos)
    }

    /// `self` lies strictly later than the instant seven days before `now`.
    ///
    /// The bound is exclusive: the instant exactly seven days before `now` is
    /// outside the window. Nothing bounds `self` from above.
    pub open spec fn in_week_before(self, now: Instant) -> bool {
        self.seconds > now.seconds - SECONDS_PER_WEEK || (self.seconds == now.seconds
            - SECONDS_PER_WEEK && self.nanos > now.nanos)
    }

    /// Tells whether `self` lies strictly later than `other`.
    pub fn after(&self, other: &Instant) -> (later: bool)
        ensures
            later == self.is_after(*other),
    {
        self.seconds > other.seconds || (self.seconds == other.seconds && self.nanos > other.nanos)
    }

    /// Tells whether `self` falls into the week that ends at `now`.
    pub fn falls_in_week_before(&self, now: &Instant) -> (inside: bool)
        ensures
            inside == self.in_week_before(*now),
    {
        match now.seconds.checked_sub(SECONDS_PER_WEEK) {
            Some(start) => self.seconds > start || (self.seconds == start && self.nanos
                > now.nanos),
            // The window opens before the earliest representable second.
            None => true,
        }
    }
}

/// The instant that `text` spells as an RFC 3339 date and time with offset, or
/// `None` where `chrono` does not accept `text` as one.
pub uninterp spec fn rfc3339_instant(text: Seq<char>) -> Option<Instant>;

/// `chrono::DateTime::parse_from_rfc3339`, with the date and time it yields
/// taken as `timestamp()` and `timestamp_subsec_nanos()`.
///
/// Trusted: it succeeds exactly on the texts that spell an instant, and hands
/// that instant back.
#[verifier::external_body]
fn parse_rfc3339(text: &str) -> (parsed: Result<Instant, chrono::ParseError>)
    ensures
        parsed is Ok <==> rfc3339_instant(text@) is Some,
        parsed matches Ok(at) ==> rfc3339_instant(text@) == Some(at),
{
    match DateTime::parse_from_rfc3339(text) {
        Ok(at) => Ok(Instant { seconds: at.timestamp(), nanos: at.timestamp_subsec_nanos() }),
        Err(error) => Err(error),
    }
}

/// `chrono::Utc::now`, taken as `timestamp()` and `timestamp_subsec_nanos()`.
///
/// Trusted: nothing is claimed of the instant, which is whatever the system
/// clock shows. `chrono` panics where that clock is set before 1970.
#[verifier::external_body]
pub(crate) fn read_clock() -> Instant {
    let now = Utc::now();
    Instant { seconds: now.timestamp(), nanos: now.timestamp_subsec_nanos() }
}

impl Instant {
    /// Reads a timestamp such as `2024-03-01T12:30:00Z` or
    /// `2024-03-01T14:30:00.250+02:00`.
    pub fn parse(text: &str) -> (at: Option<Instant>)
        ensures
            at == rfc3339_instant(text@),
    {
        match parse_rfc3339(text) {
            Ok(at) => Some(at),
            Err(_) => None,
        }
    }
}

} // verus!
