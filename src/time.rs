//! Reading the clock and writing instants as text, through `chrono`.

use vstd::prelude::*;
use crate::model::Timestamp;

verus! {

/// An instant that `chrono` can represent: from the Unix epoch to the end
/// of the year 9999, with the nanoseconds below one second.
pub open spec fn representable(t: Timestamp) -> bool {
    0 <= t.secs <= 253_402_300_799 && t.nanos < 1_000_000_000
}

/// What `chrono` writes for `DateTime<Utc>` through `Display`
/// (`2024-05-01 12:00:00 UTC`).
pub uninterp spec fn utc_display_of(secs: int, nanos: int) -> Seq<char>;

/// What `chrono`'s `DateTime<Utc>::to_rfc3339` writes.
pub uninterp spec fn rfc3339_of(secs: int, nanos: int) -> Seq<char>;

/// Relies on `chrono::Utc::now`: the current time, taken from the system
/// clock as seconds since the epoch and nanoseconds below one second.
#[verifier::external_body]
pub(crate) fn now() -> (t: Timestamp)
    ensures
        t.secs >= 0,
        t.nanos < 1_000_000_000,
{
    let d = chrono::Utc::now();
    Timestamp { secs: d.timestamp(), nanos: d.timestamp_subsec_nanos() }
}

/// Relies on `chrono::DateTime::<Utc>::from_timestamp` and the `Display` of
/// the result: `None` only where `chrono` cannot represent the instant.
#[verifier::external_body]
pub(crate) fn utc_text(t: Timestamp) -> (r: Option<String>)
    ensures
        r matches Some(s) ==> s@ == utc_display_of(t.secs as int, t.nanos as int),
        representable(t) ==> r is Some,
{
    match chrono::DateTime::<chrono::Utc>::from_timestamp(t.secs, t.nanos) {
        Some(d) => Some(d.to_string()),
        None => None,
    }
}

/// Relies on `chrono::DateTime::<Utc>::from_timestamp` and `to_rfc3339`:
/// `None` only where `chrono` cannot represent the instant.
#[verifier::external_body]
pub(crate) fn rfc3339_text(t: Timestamp) -> (r: Option<String>)
    ensures
        r matches Some(s) ==> s@ == rfc3339_of(t.secs as int, t.nanos as int),
        representable(t) ==> r is Some,
{
    match chrono::DateTime::<chrono::Utc>::from_timestamp(t.secs, t.nanos) {
        Some(d) => Some(d.to_rfc3339()),
        None => None,
    }
}

} // verus!
