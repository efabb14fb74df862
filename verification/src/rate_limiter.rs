//! Minimum spacing between consecutive outbound requests.
//!
//! The limiter works on a clock that the caller reads: every time is a
//! number of nanoseconds on one monotonic clock.

use vstd::prelude::*;

verus! {

/// The spacing enforced between the starts of two governed calls, in nanoseconds.
pub const INTERVAL_NANOS: u64 = 2_000_000_000;

/// Enforces a minimum interval between the starts of consecutive governed calls.
#[derive(Debug, Clone, Copy, PartialEq, Eq)]
pub struct RateLimiter {
    limit: u64,
    last_action_start: Option<u64>,
}

/// The pause owed by a call that arrives at `now`, when the previous governed
/// call started at `last`: what is left of `limit`, and nothing once the
/// interval has elapsed. A clock reading before `last` counts as no time elapsed.
pub open spec fn pause_for(limit: nat, last: Option<nat>, now: nat) -> nat {
    match last {
        None => 0,
        Some(start) => {
            let elapsed = if now >= start { now - start } else { 0 };
            if elapsed >= limit { 0 } else { (limit - elapsed) as nat }
        },
    }
}

/// The start recorded for a call that arrives at `now` and pauses for `pause`:
/// the moment the pause ends, capped at the largest clock reading.
pub open spec fn start_after(now: nat, pause: nat) -> nat {
    if now + pause <= u64::MAX { now + pause } else { u64::MAX as nat }
}

/// The first governed call does not pause.
pub proof fn lemma_first_call_is_immediate(limit: nat, now: nat)
    ensures
        pause_for(limit, None, now) == 0,
{
}

/// A governed call that arrives no earlier than the call before it started
/// (as it does when the caller sleeps for the pauses) starts no earlier than
/// the interval after that start, unless the clock ends before that.
pub proof fn lemma_calls_are_spaced(limit: nat, last: nat, now: nat)
    requires
        last <= now,
    ensures
        start_after(now, pause_for(limit, Some(last), now)) >= last + limit || start_after(
            now,
            pause_for(limit, Some(last), now),
        ) == u64::MAX,
{
}

/// The limiter keeps no backlog: no pause is longer than the interval, and a
/// call that arrives once the interval has elapsed does not pause at all.
pub proof fn lemma_no_backlog(limit: nat, last: nat, now: nat)
    ensures
        pause_for(limit, Some(last), now) <= limit,
        now >= last + limit ==> pause_for(limit, Some(last), now) == 0,
        last <= now < last + limit ==> now + pause_for(limit, Some(last), now) == last + limit,
{
}

impl RateLimiter {
    /// The configured minimum interval.
    pub closed spec fn limit(&self) -> nat {
        self.limit as nat
    }

    /// The start of the last governed call, if there was one.
    pub closed spec fn last_start(&self) -> Option<nat> {
        match self.last_action_start {
            Some(t) => Some(t as nat),
            None => None,
        }
    }

    /// A limiter with the two-second interval and no call recorded yet.
    pub fn new() -> (limiter: Self)
        ensures
            limiter.limit() == INTERVAL_NANOS,
            limiter.last_start() is None,
    {
        RateLimiter { limit: INTERVAL_NANOS, last_action_start: None }
    }

    /// Governs one call that arrives at clock reading `now`.
    ///
    /// Returns how long the caller has to sleep before the call may start,
    /// and records the end of that pause as the start of the call.
    pub fn wait(&mut self, now: u64) -> (pause: u64)
        ensures
            pause == pause_for(old(self).limit(), old(self).last_start(), now as nat),
            final(self).limit() == old(self).limit(),
            final(self).last_start() == Some(start_after(now as nat, pause as nat)),
    {
        let pause: u64 = match self.last_action_start {
            None => 0,
            Some(start) => {
                let elapsed: u64 = if now >= start { now - start } else { 0 };
                if elapsed >= self.limit { 0 } else { self.limit - elapsed }
            },
        };
        let begun: u64 = if pause <= u64::MAX - now { now + pause } else { u64::MAX };
        self.last_action_start = Some(begun);
        pause
    }
}

} // verus!
