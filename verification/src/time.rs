//! Points in time as plain numbers, and the calendar work that is left to
//! `chrono`.

use vstd::prelude::*;

verus! {

/// An instant on the UTC time line: whole seconds since 1970-01-01T00:00:00Z
/// and the nanoseconds into that second, counted as `chrono` counts them (in
/// a leap second they run past a full second).
#[derive(Clone, Copy, Debug, PartialEq, Eq, Structural)]
pub struct Timestamp {
    pub secs: i64,
    pub nanos: u32,
}

impl Timestamp {
    /// Whether `self` lies strictly after `other` on the time line.
    pub open spec fn after(self, other: Timestamp) -> bool {
        self.secs > other.secs || (self.secs == other.secs && self.nanos > other.nanos)
    }

    /// Decides whether `self` lies strictly after `other`.
    pub fn is_after(&self, other: &Timestamp) -> (r: bool)
        ensures
            r == self.after(*other),
    {
        self.secs > other.secs || (self.secs == other.secs && self.nanos > other.nanos)
    }
}

/// `chrono::ParseError`, the reason why a text was not accepted. It is only
/// carried through; nothing is read from it.
#[verifier::external_type_specification]
#[verifier::external_body]
pub struct ExParseError(chrono::ParseError);

/// The instant that an RFC 3339 date-and-time text denotes, as seconds and
/// nanoseconds, or `None` where `chrono` does not accept the text.
pub uninterp spec fn rfc3339_instant(text: Seq<char>) -> Option<(int, int)>;

/// The RFC 3339 text that `chrono` writes for the UTC instant given by seconds
/// and nanoseconds, or `None` where `chrono` holds no such instant.
pub uninterp spec fn rfc3339_text(secs: int, nanos: int) -> Option<Seq<char>>;

/// The instant, as seconds and nanoseconds, that `chrono` finds `days` whole
/// days after the given one, or `None` where `chrono` finds none.
pub uninterp spec fn days_later(secs: int, nanos: int, days: int) -> Option<(int, int)>;

/// Reads the system clock with `chrono::Utc::now`. Nothing is claimed of the
/// instant that comes back.
#[verifier::external_body]
pub(crate) fn now() -> Timestamp {
    let t = chrono::Utc::now();
    Timestamp { secs: t.timestamp(), nanos: t.timestamp_subsec_nanos() }
}

/// Parses `text` with `chrono::DateTime::parse_from_rfc3339`. The contract
/// only names the outcome: the same text always denotes the same instant, and
/// the error comes exactly where the text denotes none.
#[verifier::external_body]
pub(crate) fn parse_rfc3339(text: &str) -> (r: Result<Timestamp, chrono::ParseError>)
    ensures
        match r {
            Ok(t) => rfc3339_instant(text@) == Some((t.secs as int, t.nanos as int)),
            Err(_) => rfc3339_instant(text@) is None,
        },
{
    match chrono::DateTime::parse_from_rfc3339(text) {
        Ok(t) => Ok(Timestamp { secs: t.timestamp(), nanos: t.timestamp_subsec_nanos() }),
        Err(e) => Err(e),
    }
}

/// Moves `t` forward by whole days with `chrono::DateTime::checked_add_days`.
/// Claimed: the outcome depends on `t` and `days` alone, so it has a name;
/// and where a result comes back, its time of day is unchanged and its date
/// is `days` later, so it lies `86400 * days` seconds after `t`. Nothing is
/// claimed about which instants and days give a result.
#[verifier::external_body]
pub(crate) fn add_days(t: Timestamp, days: u64) -> (r: Option<Timestamp>)
    ensures
        match r {
            Some(u) => days_later(t.secs as int, t.nanos as int, days as int) == Some(
                (u.secs as int, u.nanos as int),
            ),
            None => days_later(t.secs as int, t.nanos as int, days as int) is None,
        },
        r matches Some(u) ==> u.secs == t.secs + 86_400 * days && u.nanos == t.nanos,
{
    match chrono::DateTime::from_timestamp(t.secs, t.nanos) {
        Some(start) => match start.checked_add_days(chrono::Days::new(days)) {
            Some(end) => Some(
                Timestamp { secs: end.timestamp(), nanos: end.timestamp_subsec_nanos() },
            ),
            None => None,
        },
        None => None,
    }
}

/// Writes `t` with `chrono::DateTime::to_rfc3339`. The contract only names
/// the outcome: the same instant always gives the same text, and `None`
/// comes exactly where `chrono` holds no such instant.
#[verifier::external_body]
pub(crate) fn to_rfc3339(t: Timestamp) -> (r: Option<String>)
    ensures
        match r {
            Some(s) => rfc3339_text(t.secs as int, t.nanos as int) == Some(s@),
            None => rfc3339_text(t.secs as int, t.nanos as int) is None,
        },
{
    match chrono::DateTime::from_timestamp(t.secs, t.nanos) {
        Some(d) => Some(d.to_rfc3339()),
        None => None,
    }
}

} // verus!
