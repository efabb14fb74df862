//! When a refused call is worth another attempt.
//!
//! A call that the server refuses with an authorization failure is repeated
//! after signing in again, until its attempts are used up. No other failure is
//! retried.

use crate::error::ApiError;
use vstd::prelude::*;

verus! {

/// How many times a call is attempted at most.
pub const MAX_ATTEMPTS: u8 = 3;

/// What to do about a failed attempt.
#[derive(Debug, Clone, Copy, PartialEq, Eq, Structural)]
pub enum Verdict {
    /// Report the failure to the caller.
    Return,
    /// Sign in again and repeat the call, which then has `trials` attempts left.
    Reauthenticate { trials: u8 },
}

/// The verdict on an attempt that failed with `error`, when the call had
/// `trials` attempts left, that attempt included.
pub open spec fn judged(trials: u8, error: ApiError) -> Verdict {
    if error == ApiError::Forbidden && trials > 1 {
        Verdict::Reauthenticate { trials: (trials - 1) as u8 }
    } else {
        Verdict::Return
    }
}

/// Judges an attempt that failed with `error`, when the call had `trials`
/// attempts left, that attempt included.
pub fn judge(trials: u8, error: ApiError) -> (verdict: Verdict)
    ensures
        verdict == judged(trials, error),
{
    match error {
        ApiError::Forbidden => if trials > 1 {
            Verdict::Reauthenticate { trials: trials - 1 }
        } else {
            Verdict::Return
        },
        _ => Verdict::Return,
    }
}

} // verus!
