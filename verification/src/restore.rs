//! Waiting on the network engine: retrying the start of the saved
//! instances after boot, and waiting for an instance's RPC service.
use vstd::prelude::*;

use vstd::arithmetic::power2::{lemma2_to64, lemma_pow2_pos, lemma_pow2_unfold, pow2};

use crate::error::CoreError;
use crate::text::{append_str, string_from_chars};

verus! {

/// Attempts made before giving up.
pub const RESTORE_ATTEMPTS: u32 = 6;

/// First wait between attempts (milliseconds).
pub const RESTORE_FIRST_DELAY_MS: u64 = 2000;

/// Longest wait between attempts (milliseconds).
pub const RESTORE_MAX_DELAY_MS: u64 = 30000;

/// What follows a restore attempt.
#[derive(Debug, Clone, Copy, PartialEq, Eq, Structural)]
pub enum RestoreStep {
    /// Everything started.
    Done,
    /// Give up (with a warning).
    GiveUp,
    /// Wait this long, then try again.
    RetryAfter(u64),
}

/// The wait that follows a wait of `d`: doubled, at most 30 s.
pub open spec fn next_delay(d: int) -> int {
    if 2 * d <= RESTORE_MAX_DELAY_MS {
        2 * d
    } else {
        RESTORE_MAX_DELAY_MS as int
    }
}

/// The wait after failed attempt `k` (counted from 1) when every attempt
/// fails.
pub open spec fn restore_delay(k: nat) -> int
    decreases k,
{
    if k <= 1 {
        RESTORE_FIRST_DELAY_MS as int
    } else {
        next_delay(restore_delay((k - 1) as nat))
    }
}

/// The step after attempt `attempt` (counted from 1) left `failed`
/// instances unstarted, and the wait to use after the next attempt:
/// done when none failed, give up after the last attempt, else wait and
/// double the wait (at most 30 s).
pub fn restore_next(attempt: u32, failed: usize, delay_ms: u64) -> (r: (RestoreStep, u64))
    requires
        1 <= attempt <= RESTORE_ATTEMPTS,
        delay_ms <= RESTORE_MAX_DELAY_MS,
    ensures
        failed == 0 ==> r.0 == RestoreStep::Done,
        failed > 0 && attempt == RESTORE_ATTEMPTS ==> r.0 == RestoreStep::GiveUp,
        failed > 0 && attempt < RESTORE_ATTEMPTS ==> r.0 == RestoreStep::RetryAfter(delay_ms),
        r.1 == next_delay(delay_ms as int),
        r.1 <= RESTORE_MAX_DELAY_MS,
{
    let next = if delay_ms * 2 <= RESTORE_MAX_DELAY_MS {
        delay_ms * 2
    } else {
        RESTORE_MAX_DELAY_MS
    };
    if failed == 0 {
        (RestoreStep::Done, next)
    } else if attempt == RESTORE_ATTEMPTS {
        (RestoreStep::GiveUp, next)
    } else {
        (RestoreStep::RetryAfter(delay_ms), next)
    }
}

/// The backoff is exponential: after failed attempt `k` the wait is
/// 2 s times 2^(k-1), at most 30 s.
pub proof fn restore_backs_off_exponentially(k: nat)
    requires
        k >= 1,
    ensures
        restore_delay(k) == (if RESTORE_FIRST_DELAY_MS * pow2((k - 1) as nat)
            <= RESTORE_MAX_DELAY_MS {
            RESTORE_FIRST_DELAY_MS * pow2((k - 1) as nat)
        } else {
            RESTORE_MAX_DELAY_MS as int
        }),
    decreases k,
{
    if k == 1 {
        lemma2_to64();
    } else {
        restore_backs_off_exponentially((k - 1) as nat);
        lemma_pow2_unfold((k - 1) as nat);
        lemma_pow2_pos((k - 2) as nat);
    }
}

/// Longest wait for an instance's RPC service (milliseconds).
pub const INSTANCE_RPC_WAIT_MS: u64 = 8000;

/// Pause between two looks for an instance's RPC service (milliseconds).
pub const INSTANCE_RPC_POLL_MS: u64 = 50;

/// What follows one look for an instance's RPC service.
#[derive(Debug, Clone, Copy, PartialEq, Eq, Structural)]
pub enum RpcWait {
    /// The service is there: hand it out.
    Ready,
    /// The deadline has passed: fail.
    TimedOut,
    /// Pause, then look again.
    PollAgain,
}

/// The step after a look for the service at `now_ms`: ready when found,
/// timed out once the deadline is reached, else look again.
pub fn instance_rpc_wait(found: bool, now_ms: u64, deadline_ms: u64) -> (w: RpcWait)
    ensures
        found ==> w == RpcWait::Ready,
        !found && now_ms >= deadline_ms ==> w == RpcWait::TimedOut,
        !found && now_ms < deadline_ms ==> w == RpcWait::PollAgain,
{
    if found {
        RpcWait::Ready
    } else if now_ms >= deadline_ms {
        RpcWait::TimedOut
    } else {
        RpcWait::PollAgain
    }
}

/// The error of a wait for an instance's RPC service that timed out.
pub fn instance_rpc_timeout(instance_id: &str) -> (e: CoreError)
    ensures
        e matches CoreError::FailedPrecondition(m) && m@ == "等待实例 RPC 超时: "@ + instance_id@,
{
    let mut m: Vec<char> = Vec::new();
    append_str(&mut m, "等待实例 RPC 超时: ");
    append_str(&mut m, instance_id);
    CoreError::FailedPrecondition(string_from_chars(m.as_slice()))
}

} // verus!
