//! Instants in time as plain values, and the clock and parser that produce them.

use vstd::prelude::*;

verus! {

/// An instant, as whole seconds since the Unix epoch and the nanoseconds past
/// that second (a leap second may carry a value of 1e9 or more).
#[derive(Clone, Copy, Debug, PartialEq, Eq, Structural)]
pub struct Timestamp {
    pub secs: i64,
    pub nanos: u32,
}

/// What chrono's `DateTime::parse_from_str` makes of an event's time text in the
/// provider's format: seconds and sub-second nanoseconds since the epoch, or
/// `None` where the text does not parse.
pub uninterp spec fn parsed_event_instant(text: Seq<char>) -> Option<(i64, u32)>;

/// The seconds and nanoseconds of an optional timestamp.
pub open spec fn instant_parts(t: Option<Timestamp>) -> Option<(i64, u32)> {
    match t {
        Some(t) => Some((t.secs, t.nanos)),
        None => None,
    }
}

/// Relies on chrono's `DateTime::parse_from_str` with the format
/// `%Y-%m-%d %H:%M:%S%.f%#z`, and on `timestamp` / `timestamp_subsec_nanos` of
/// the parsed value: the outcome depends on the text alone.
#[verifier::external_body]
pub(crate) fn parse_event_time(text: &str) -> (r: Option<Timestamp>)
    ensures
        instant_parts(r) == parsed_event_instant(text@),
{
    match chrono::DateTime::parse_from_str(text, "%Y-%m-%d %H:%M:%S%.f%#z") {
        Ok(t) => Some(Timestamp { secs: t.timestamp(), nanos: t.timestamp_subsec_nanos() }),
        Err(_) => None,
    }
}

/// Relies on chrono's conversion from `std::time::SystemTime` to
/// `DateTime<Utc>`: the current time, of which nothing is known in advance. A
/// clock before the Unix epoch gives negative seconds; chrono panics there only
/// for a clock outside its range of years -262143 to 262142.
#[verifier::external_body]
pub(crate) fn current_timestamp() -> (r: Timestamp) {
    let now: chrono::DateTime<chrono::Utc> = std::time::SystemTime::now().into();
    Timestamp { secs: now.timestamp(), nanos: now.timestamp_subsec_nanos() }
}

} // verus!
