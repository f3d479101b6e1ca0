//! Poll-cycle orchestration: the error taxonomy, the fail-safe rollback
//! that keeps the monitor state consistent across failed cycles, the
//! cycle stage machine, the retry policy for upstream calls, and the
//! liveness computation behind the health endpoint.

use crate::message::Global;
use vstd::prelude::*;

verus! {

/// Everything that can go wrong in one poll cycle. The first four abort
/// the cycle; the last two are logged and the cycle goes on.
#[derive(Clone, Copy, Debug, PartialEq, Eq, Structural)]
pub enum MonitorError {
    UpstreamUnavailable,
    NotFound,
    DecodeError,
    RenderFailure,
    ProfileUpdateFailure,
    DeliveryFailure,
}

impl MonitorError {
    /// Failures that abort the cycle and roll the state back; profile
    /// and delivery failures are absorbed where they happen.
    pub open spec fn spec_is_fatal(&self) -> bool {
        match self {
            MonitorError::UpstreamUnavailable => true,
            MonitorError::NotFound => true,
            MonitorError::DecodeError => true,
            MonitorError::RenderFailure => true,
            MonitorError::ProfileUpdateFailure => false,
            MonitorError::DeliveryFailure => false,
        }
    }

    pub fn is_fatal(&self) -> (r: bool)
        ensures
            r == self.spec_is_fatal(),
    {
        match self {
            MonitorError::UpstreamUnavailable => true,
            MonitorError::NotFound => true,
            MonitorError::DecodeError => true,
            MonitorError::RenderFailure => true,
            MonitorError::ProfileUpdateFailure => false,
            MonitorError::DeliveryFailure => false,
        }
    }

    /// A short cause for the orchestrator's logging path.
    pub open spec fn spec_describe(&self) -> Seq<char> {
        match self {
            MonitorError::UpstreamUnavailable => "upstream unavailable"@,
            MonitorError::NotFound => "no matching server"@,
            MonitorError::DecodeError => "response shape mismatch"@,
            MonitorError::RenderFailure => "image fetch or decode failed"@,
            MonitorError::ProfileUpdateFailure => "platform rejected identity change"@,
            MonitorError::DeliveryFailure => "notification send failed"@,
        }
    }

    pub fn describe(&self) -> (r: &str)
        ensures
            r@ == self.spec_describe(),
    {
        match self {
            MonitorError::UpstreamUnavailable => "upstream unavailable",
            MonitorError::NotFound => "no matching server",
            MonitorError::DecodeError => "response shape mismatch",
            MonitorError::RenderFailure => "image fetch or decode failed",
            MonitorError::ProfileUpdateFailure => "platform rejected identity change",
            MonitorError::DeliveryFailure => "notification send failed",
        }
    }
}

/// The states one poll cycle passes through.
#[derive(Clone, Copy, Debug, PartialEq, Eq, Structural)]
pub enum CycleStage {
    Idle,
    Fetching,
    Rendering,
    MaybeUpdatingProfile,
    Deciding,
}

impl CycleStage {
    /// The stage a cycle enters next: on success the stages advance in
    /// fetch, render, profile, decide order and a finished decision
    /// returns to idle; any failure falls straight back to idle.
    pub open spec fn spec_next(&self, step_ok: bool) -> CycleStage {
        if !step_ok {
            CycleStage::Idle
        } else {
            match self {
                CycleStage::Idle => CycleStage::Fetching,
                CycleStage::Fetching => CycleStage::Rendering,
                CycleStage::Rendering => CycleStage::MaybeUpdatingProfile,
                CycleStage::MaybeUpdatingProfile => CycleStage::Deciding,
                CycleStage::Deciding => CycleStage::Idle,
            }
        }
    }

    pub fn next(&self, step_ok: bool) -> (r: CycleStage)
        ensures
            r == self.spec_next(step_ok),
    {
        if !step_ok {
            CycleStage::Idle
        } else {
            match self {
                CycleStage::Idle => CycleStage::Fetching,
                CycleStage::Fetching => CycleStage::Rendering,
                CycleStage::Rendering => CycleStage::MaybeUpdatingProfile,
                CycleStage::MaybeUpdatingProfile => CycleStage::Deciding,
                CycleStage::Deciding => CycleStage::Idle,
            }
        }
    }
}

/// Fail-safe rollback: a cycle that produced a new state installs it,
/// and a cycle that failed anywhere leaves the previous state exactly
/// as it was, never partially applied.
pub fn resolve_cycle(previous: &Global, outcome: Result<Global, MonitorError>) -> (r: Global)
    ensures
        match outcome {
            Ok(next) => r == next,
            Err(_) => r@ == previous@,
        },
{
    match outcome {
        Ok(next) => next,
        Err(_) => previous.duplicate(),
    }
}

/// Upstream calls are attempted at most twice: one automatic retry on a
/// transient error, then the failure propagates.
pub fn should_retry(attempts_made: u32) -> (r: bool)
    ensures
        r == (attempts_made < 2),
{
    attempts_made < 2
}

/// Returns how many minutes the liveness stamp is stale and whether the
/// monitor still counts as healthy (at most five minutes behind).
pub fn health_status(now_minutes: i64, last_update_minutes: i64) -> (r: (i64, bool))
    requires
        now_minutes - last_update_minutes <= i64::MAX,
        now_minutes - last_update_minutes >= i64::MIN,
    ensures
        r.0 == now_minutes - last_update_minutes,
        r.1 == (now_minutes - last_update_minutes <= 5),
{
    let stale = now_minutes - last_update_minutes;
    (stale, stale <= 5)
}

} // verus!
