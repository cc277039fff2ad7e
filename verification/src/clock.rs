//! Wall-clock time as milliseconds since the Unix epoch.

use vstd::prelude::*;

verus! {

/// A bound on the millisecond timestamps that `chrono::DateTime` can hold
/// (its years stay within about ±262,000).
pub open spec fn time_bound() -> int {
    9_000_000_000_000_000
}

/// Timestamps of the clock: the range that `chrono::DateTime` can hold, widened a little.
pub open spec fn clock_range(t: int) -> bool {
    -8_500_000_000_000_000 < t < 8_500_000_000_000_000
}

/// Timestamps that session lifetimes may reach.
pub open spec fn time_range(t: int) -> bool {
    -time_bound() < t < time_bound()
}

/// The longest session timeout, in milliseconds (about 12,000 years).
pub const MAX_TIMEOUT: i64 = 400_000_000_000_000;

/// One minute, in milliseconds.
pub const MINUTE_MILLIS: i64 = 60_000;

/// One day, in milliseconds.
pub const DAY_MILLIS: i64 = 86_400_000;

/// Calls `chrono::Local::now` and takes its `timestamp_millis`. Claimed only that the
/// value lies in the range `chrono::DateTime` can represent.
#[verifier::external_body]
pub(crate) fn now_millis() -> (r: i64)
    ensures
        clock_range(r as int),
{
    chrono::Local::now().timestamp_millis()
}

} // verus!
