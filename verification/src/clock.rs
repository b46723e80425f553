//! Instants and spans of time, as whole milliseconds.
//!
//! An instant is a count of milliseconds since the first of January 1970,
//! 0:00 UTC; instants before that day are negative.

use vstd::prelude::*;

verus! {

/// The largest magnitude of an instant that the session rules accept: a
/// hundred million days on either side of the epoch.
pub const MAX_INSTANT: i64 = 8_640_000_000_000_000;

/// Milliseconds in a second.
pub const MILLIS_PER_SECOND: i64 = 1000;

/// Milliseconds in a week.
pub const MILLIS_PER_WEEK: i64 = 604_800_000;

/// Whether `t` is an instant that the session rules accept.
pub open spec fn is_instant(t: i64) -> bool {
    -MAX_INSTANT <= t <= MAX_INSTANT
}

/// Whether `t` is an instant that the session rules accept.
pub fn check_instant(t: i64) -> (ok: bool)
    ensures
        ok == is_instant(t),
{
    -MAX_INSTANT <= t && t <= MAX_INSTANT
}

/// The reading of the system clock: `chrono::Utc::now()`, taken as
/// milliseconds by `DateTime::timestamp_millis`. Nothing is said of which
/// instant comes back but its range: `Utc::now` gives no date before the
/// epoch (it panics on a clock that is set before 1970) and none after the
/// year 262142, the last that a `DateTime` can hold.
#[verifier::external_body]
pub(crate) fn now() -> (t: i64)
    ensures
        0 <= t <= MAX_INSTANT,
{
    chrono::Utc::now().timestamp_millis()
}

} // verus!
