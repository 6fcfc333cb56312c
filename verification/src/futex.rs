//! Return-code discipline for the host futex primitive.
//!
//! The host exposes `wait(address, expected, relative_timeout, flags)` and
//! `wake(address, count)`. A wait returns 0 when woken, the negated
//! `ETIMEDOUT` when the relative timeout elapses, and the negated `EAGAIN`
//! when the word at `address` no longer held `expected` at the instant the
//! primitive checked it — a spurious-wakeup equivalent. Anything else is a
//! host-contract violation: noted, tolerated, never surfaced as an error.

use vstd::prelude::*;

verus! {

/// Errno the host wait primitive returns, negated, when a relative timeout
/// elapses; mirrors the hermit ABI's `ETIMEDOUT`.
pub const ETIMEDOUT: i32 = 110;

/// Errno the host wait primitive returns, negated, when the state word no
/// longer held the expected value; mirrors the hermit ABI's `EAGAIN`.
pub const EAGAIN: i32 = 11;

/// The three expected outcomes of a wait call, plus the error channel for
/// any code outside the host's documented contract.
#[derive(Clone, Copy, Debug, PartialEq, Eq, Structural)]
pub enum WaitOutcome {
    /// the waiter was released by a wake call: go re-check the state word
    Woken,
    /// the relative timeout elapsed before any wake arrived
    TimedOut,
    /// the state word had already changed when the wait primitive compared
    /// it: treated exactly like a wake, re-check the state word
    ValueChanged,
    /// any other code: a host-contract violation, tolerated
    Unexpected,
}

/// What a return code of the host wait primitive means.
pub open spec fn wait_outcome_of(r: i32) -> WaitOutcome {
    if r == 0 {
        WaitOutcome::Woken
    } else if r == -ETIMEDOUT {
        WaitOutcome::TimedOut
    } else if r == -EAGAIN {
        WaitOutcome::ValueChanged
    } else {
        WaitOutcome::Unexpected
    }
}

/// Notes a host-contract violation: the futex primitive returned `_code`, a
/// value outside its documented set. This is a developer diagnostic, not a
/// recoverable error, and it is never escalated to callers: the tolerant
/// path of optimized builds is taken and execution continues best-effort,
/// so the violation is never fatal. A debug embedding may assert on the
/// offending code before calling in here.
pub fn futex_return_unexpected(_code: i32) -> (fatal: bool)
    ensures
        !fatal,
{
    false
}

/// Classifies a return code of the host wait primitive, noting any code
/// outside the documented contract as a tolerated violation.
pub fn classify_wait_return(r: i32) -> (outcome: WaitOutcome)
    ensures
        outcome == wait_outcome_of(r),
{
    if r == 0 {
        WaitOutcome::Woken
    } else if r == -ETIMEDOUT {
        WaitOutcome::TimedOut
    } else if r == -EAGAIN {
        WaitOutcome::ValueChanged
    } else {
        futex_return_unexpected(r);
        WaitOutcome::Unexpected
    }
}

/// Checks a return code of the host wake primitive. At most one thread is
/// ever parked on a given word under this protocol, so a wake is expected to
/// report 0 or 1 released waiters; anything else is noted as a tolerated
/// host-contract violation.
pub fn wake_return_expected(r: i32) -> (expected: bool)
    ensures
        expected == (0 <= r <= 1),
{
    if r < 0 || r > 1 {
        futex_return_unexpected(r);
        false
    } else {
        true
    }
}

} // verus!
