//! Deadline arithmetic for timed parks.
//!
//! The host wait primitive only accepts a *relative* timeout, so a timed park
//! re-reads the clock on every pass through its retry loop and converts the
//! absolute deadline into the time still remaining. A deadline at or before
//! "now" means the wait is over; a remainder whose whole-seconds component
//! does not fit the host's `time_t` is defined to behave as if no timeout had
//! been requested at all.

use vstd::arithmetic::div_mod::lemma_fundamental_div_mod_converse;
use vstd::prelude::*;

verus! {

/// Nanoseconds in one second.
pub const NANOS_PER_SEC: u32 = 1_000_000_000;

/// The largest whole-second count the host's relative-timeout representation
/// carries: the hermit ABI's `time_t` is `i64`.
pub const TIME_T_MAX: i64 = i64::MAX;

/// An instant: whole seconds and sub-second nanoseconds since some fixed,
/// arbitrary epoch. Deadlines and clock readings are both instants; only
/// their difference ever matters.
#[derive(Clone, Copy, Debug, PartialEq, Eq, Structural)]
pub struct Instant {
    /// whole seconds since the epoch
    pub secs: u64,
    /// sub-second nanoseconds, always below `NANOS_PER_SEC`
    pub nanos: u32,
}

impl Instant {
    /// Validity: the nanosecond part stays below one second.
    pub open spec fn wf(self) -> bool {
        self.nanos < NANOS_PER_SEC
    }

    /// The instant as a total count of nanoseconds since the epoch.
    pub open spec fn as_nanos(self) -> int {
        self.secs as int * NANOS_PER_SEC as int + self.nanos as int
    }
}

/// A relative timeout in the host's representation: whole seconds as the
/// host's `time_t`, plus sub-second nanoseconds.
#[derive(Clone, Copy, Debug, PartialEq, Eq, Structural)]
pub struct Timespec {
    /// whole seconds
    pub tv_sec: i64,
    /// sub-second nanoseconds
    pub tv_nsec: i32,
}

impl Timespec {
    /// Validity of a relative timeout: non-negative seconds, nanoseconds
    /// below one second.
    pub open spec fn wf(self) -> bool {
        0 <= self.tv_sec && 0 <= self.tv_nsec < NANOS_PER_SEC
    }

    /// The timeout as a total count of nanoseconds.
    pub open spec fn as_nanos(self) -> int {
        self.tv_sec as int * NANOS_PER_SEC as int + self.tv_nsec as int
    }
}

/// What a timed park does with its deadline on one pass through the retry
/// loop, after observing the state word still set and reading the clock.
#[derive(Clone, Copy, Debug, PartialEq, Eq, Structural)]
pub enum DeadlineStep {
    /// the deadline is at or before now: give up and report a timeout
    /// without issuing any wait
    Elapsed,
    /// the remaining time overflows the host's relative-timeout
    /// representation: wait with no timeout at all, as an untimed park does
    WaitForever,
    /// wait, with exactly the remaining time as the relative timeout
    Wait(Timespec),
}

/// The whole seconds remaining until `deadline`, seen from `now`.
pub open spec fn remaining_secs(deadline: Instant, now: Instant) -> int {
    (deadline.as_nanos() - now.as_nanos()) / (NANOS_PER_SEC as int)
}

/// The remaining time cannot be carried by the host's relative-timeout
/// representation: its whole-seconds component exceeds `time_t`.
pub open spec fn remaining_overflows(deadline: Instant, now: Instant) -> bool {
    remaining_secs(deadline, now) > TIME_T_MAX as int
}

/// The deadline decision of one pass: elapsed, overflowing, or a wait with
/// exactly the remaining time.
pub open spec fn deadline_step_spec(deadline: Instant, now: Instant) -> DeadlineStep {
    if deadline.as_nanos() <= now.as_nanos() {
        DeadlineStep::Elapsed
    } else if remaining_overflows(deadline, now) {
        DeadlineStep::WaitForever
    } else {
        DeadlineStep::Wait(Timespec {
            tv_sec: remaining_secs(deadline, now) as i64,
            tv_nsec: ((deadline.as_nanos() - now.as_nanos()) % (NANOS_PER_SEC as int)) as i32,
        })
    }
}

/// Decides, on one pass of a timed park's retry loop, whether the deadline
/// has elapsed, overflows the host representation, or yields a relative
/// timeout — in the last case the timeout is exactly the time remaining.
pub fn deadline_step(deadline: &Instant, now: &Instant) -> (step: DeadlineStep)
    requires
        deadline.wf(),
        now.wf(),
    ensures
        step == deadline_step_spec(*deadline, *now),
        (step matches DeadlineStep::Wait(ts) ==> ts.wf() && ts.as_nanos()
            == deadline.as_nanos() - now.as_nanos()),
{
    if deadline.secs < now.secs || (deadline.secs == now.secs && deadline.nanos <= now.nanos) {
        DeadlineStep::Elapsed
    } else {
        let (secs, nanos): (u64, u32) = if deadline.nanos >= now.nanos {
            (deadline.secs - now.secs, deadline.nanos - now.nanos)
        } else {
            (deadline.secs - now.secs - 1, deadline.nanos + NANOS_PER_SEC - now.nanos)
        };
        proof {
            let total = deadline.as_nanos() - now.as_nanos();
            assert(total == secs as int * NANOS_PER_SEC as int + nanos as int);
            lemma_fundamental_div_mod_converse(
                total,
                NANOS_PER_SEC as int,
                secs as int,
                nanos as int,
            );
        }
        if secs > TIME_T_MAX as u64 {
            DeadlineStep::WaitForever
        } else {
            DeadlineStep::Wait(Timespec { tv_sec: secs as i64, tv_nsec: nanos as i32 })
        }
    }
}

} // verus!
