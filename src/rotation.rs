//! When a locale's target is due to change, and the two outside sources the
//! rotation draws on: the wall clock and a uniform random index.
use vstd::prelude::*;

verus! {

/// Milliseconds in one day.
pub const DAY_MILLIS: i64 = 86_400_000;

/// Offset of the daily reset from midnight UTC: 06:00.
pub const RESET_OFFSET_MILLIS: i64 = 21_600_000;

/// Every reading of the clock lies below this bound (chrono's latest
/// representable instant is in the year 262142, about 8.2e15 ms).
pub const MAX_CLOCK_MILLIS: i64 = 10_000_000_000_000_000;

/// An instant, in milliseconds since 1970-01-01T00:00:00 UTC.
#[derive(Clone, Copy, Debug, PartialEq, Eq, Structural)]
pub struct Timestamp(pub i64);

/// A rotation is due once at least one whole day has elapsed.
pub open spec fn rotation_due(now: int, last: int) -> bool {
    now - last >= DAY_MILLIS
}

/// The 06:00 UTC reset of the day that holds `now`.
pub open spec fn reset_of_day(now: int) -> int {
    now - now % (DAY_MILLIS as int) + RESET_OFFSET_MILLIS
}

/// Decides whether a new target must be drawn at `now`, given the instant
/// of the last rotation.
pub fn is_rotation_due(now: Timestamp, last_rotation: Timestamp) -> (r: bool)
    ensures
        r == rotation_due(now.0 as int, last_rotation.0 as int),
{
    let elapsed: i128 = now.0 as i128 - last_rotation.0 as i128;
    elapsed >= DAY_MILLIS as i128
}

/// The anchor of a locale's first rotation: today at 06:00 UTC, so that
/// every locale resets at the same hour whatever the instant it was built.
pub fn first_rotation_time(now: Timestamp) -> (r: Timestamp)
    requires
        0 <= now.0 < MAX_CLOCK_MILLIS,
    ensures
        r.0 == reset_of_day(now.0 as int),
        r.0 % DAY_MILLIS == RESET_OFFSET_MILLIS,
        now.0 - DAY_MILLIS < r.0 - RESET_OFFSET_MILLIS <= now.0,
{
    let into_day: i64 = now.0 % DAY_MILLIS;
    Timestamp(now.0 - into_day + RESET_OFFSET_MILLIS)
}

/// Relies on chrono's `Utc::now` and `DateTime::timestamp_millis`: the current
/// instant. `Utc::now` stops on a clock set before 1970, and only builds
/// instants that chrono can represent, so every reading is in range.
#[verifier::external_body]
pub(crate) fn current_time() -> (r: Timestamp)
    ensures
        0 <= r.0 < MAX_CLOCK_MILLIS,
{
    Timestamp(chrono::Utc::now().timestamp_millis())
}

/// Relies on rand's `thread_rng` and `Uniform::new(0, count)`: a uniform draw
/// from `[0, count)`; `Uniform::new` panics when `count` is zero.
#[verifier::external_body]
pub(crate) fn random_index(count: usize) -> (r: usize)
    requires
        count > 0,
    ensures
        r < count,
{
    rand::Rng::sample(&mut rand::thread_rng(), rand::distributions::Uniform::new(0, count))
}

} // verus!
