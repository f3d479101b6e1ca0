//! Profile updater: the rate limit that throttles avatar and banner
//! updates independently of the polling cadence. Presence text is cheap
//! and set every cycle; the image update is attempted only once the
//! timer has run out, and a failed attempt is penalized with a fixed
//! five-minute backoff instead of the configured interval.

use vstd::prelude::*;

verus! {

/// The penalty backoff after a failed image update, in seconds.
pub const FAILURE_BACKOFF_SECONDS: i64 = 300;

/// Relies on chrono's `Utc::now` and `DateTime::timestamp`: seconds
/// since the Unix epoch by the system clock.
#[verifier::external_body]
fn now_seconds() -> i64 {
    chrono::Utc::now().timestamp()
}

/// Whether an image update may be attempted when the clock reads `now`
/// and the timer holds the earliest permitted attempt time.
pub open spec fn update_due(timer: int, now: int) -> bool {
    now >= timer
}

/// The timer value after an attempt at time `now`: the configured
/// interval ahead on success, the fixed penalty ahead on failure.
pub open spec fn spec_next_timer(now: i64, interval_mins: i32, success: bool) -> int {
    if success {
        now + 60 * interval_mins
    } else {
        now + FAILURE_BACKOFF_SECONDS
    }
}

/// The timer comparison itself: may an update be attempted at `now`?
pub fn update_permitted(timer: i64, now: i64) -> (r: bool)
    ensures
        r == update_due(timer as int, now as int),
{
    now >= timer
}

/// Reads the clock and decides, purely by timer comparison, whether
/// this cycle may attempt an avatar/banner update. Returns the decision
/// with the clock reading it was made from.
pub fn avatar_due(timer: i64) -> (r: (bool, i64))
    ensures
        r.0 == update_due(timer as int, r.1 as int),
{
    let now = now_seconds();
    (update_permitted(timer, now), now)
}

/// Advances the timer after an attempt, per `spec_next_timer`.
pub fn next_avatar_timer(now: i64, interval_mins: i32, success: bool) -> (r: i64)
    requires
        0 <= interval_mins,
        now + 60 * interval_mins <= i64::MAX,
        now + FAILURE_BACKOFF_SECONDS <= i64::MAX,
    ensures
        r == spec_next_timer(now, interval_mins, success),
{
    if success {
        now + 60 * (interval_mins as i64)
    } else {
        now + FAILURE_BACKOFF_SECONDS
    }
}

/// Avatar rate limit: after a successful update at time `first`, any
/// attempt less than the configured interval later is skipped purely by
/// the timer comparison.
pub proof fn lemma_avatar_rate_limit(first: i64, second: i64, interval_mins: i32)
    requires
        0 <= interval_mins,
        second < first + 60 * interval_mins,
    ensures
        !update_due(spec_next_timer(first, interval_mins, true), second as int),
{
}

} // verus!
