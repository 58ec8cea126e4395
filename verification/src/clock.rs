//! The time of day, read through the `chrono` crate.

use vstd::prelude::*;

verus! {

/// The end of the range in which the clock answers: 2^48 seconds after the Unix
/// epoch.
pub const CLOCK_END: i64 = 0x1_0000_0000_0000;

/// `Utc::now`, then `DateTime::timestamp`: the seconds since the Unix epoch, as the
/// system clock has them.
///
/// Nothing is said of which second it is. `Utc::now` panics on a clock that stands
/// before the epoch, so the result is not negative; `timestamp` makes it from a
/// 32-bit count of days and the seconds of one day, which keeps it below 2^48.
#[verifier::external_body]
fn unix_now() -> (now: i64)
    ensures
        0 <= now < CLOCK_END,
{
    chrono::Utc::now().timestamp()
}

/// The second that lies `elapsed` seconds after the second `now`.
pub fn timestamp_after(now: i64, elapsed: u32) -> (later: i64)
    requires
        now + elapsed <= i64::MAX,
    ensures
        later == now + elapsed,
{
    now + elapsed as i64
}

/// The second, counted from the Unix epoch, that lies `elapsed` seconds after the
/// present one.
///
/// The present second is whatever the system clock says: the result is
/// [`timestamp_after`] of some second from the epoch to [`CLOCK_END`].
pub fn datetime_to_timestamp(elapsed: u32) -> (later: i64)
    ensures
        elapsed <= later < CLOCK_END + elapsed,
{
    timestamp_after(unix_now(), elapsed)
}

} // verus!
