//! The current time, read from the system clock.
use vstd::prelude::*;
use crate::features::pb::common::Timestamp;

verus! {

/// The earliest and latest Unix timestamps, in seconds, that the `time` crate represents
/// (years -999 999 to 999 999 at most).
pub const EARLIEST_SECONDS: i64 = -32_000_000_000_000;
/// See [`EARLIEST_SECONDS`].
pub const LATEST_SECONDS: i64 = 32_000_000_000_000;

/// The current time in UTC, from `time::OffsetDateTime::now_utc`, as seconds since the
/// Unix epoch (`unix_timestamp`) and nanoseconds past them (`nanosecond`). The time
/// depends on the clock, so nothing is claimed of it but the ranges that `time` documents:
/// a date between the years -999 999 and 999 999, and fewer than 10^9 nanoseconds.
#[verifier::external_body]
pub fn now_utc() -> (r: Timestamp)
    ensures
        EARLIEST_SECONDS <= r.seconds <= LATEST_SECONDS,
        0 <= r.nanos < 1_000_000_000,
{
    let now = time::OffsetDateTime::now_utc();
    Timestamp { seconds: now.unix_timestamp(), nanos: now.nanosecond() as i32 }
}

} // verus!
