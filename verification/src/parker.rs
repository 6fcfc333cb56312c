//! The parking state machine and its retry loops.
//!
//! One atomic state word per blockable thread, holding `UNPARKED` or
//! `PARKED`. The owning thread forces the word to `PARKED`, re-checks its
//! caller's condition, then parks: it waits on the host futex primitive,
//! re-checking the word after every return, until the word reads `UNPARKED`.
//! The releasing thread clears the word and receives a one-shot handle
//! carrying the word's bare address, so the wake syscall can be deferred
//! until after any outer lock is dropped.
//!
//! The waits themselves are host syscalls that this crate cannot issue, so a
//! park here is driven by a trace of [`WaitEvent`]s — one per pass through
//! the retry loop, recording the clock reading taken at its top, whether the
//! releasing thread's store landed during its wait, and the code the wait
//! primitive returned. The loops decide exactly as the futex protocol
//! prescribes, and a host realization performs the same steps around real
//! syscalls.

use crate::deadline::{
    deadline_step, deadline_step_spec, remaining_overflows, DeadlineStep, Instant,
};
use crate::futex::{classify_wait_return, wait_outcome_of, WaitOutcome};
use vstd::prelude::*;

verus! {

/// State-word value: no wake is owed; a parking thread seeing it stops.
pub const UNPARKED: u32 = 0;

/// State-word value: the owning thread is parked, or about to park.
pub const PARKED: u32 = 1;

/// Puts a thread to sleep until another thread wakes it: one state word per
/// blockable thread, reused across many park/unpark cycles.
pub struct ThreadParker {
    futex: u32,
}

/// One pass through a park retry loop, as the parked thread experiences it.
#[derive(Clone, Copy, Debug)]
pub struct WaitEvent {
    /// the clock reading taken at the top of this pass (consulted only by
    /// timed parks)
    pub now: Instant,
    /// whether the releasing thread's store of `UNPARKED` landed while this
    /// pass was inside the wait primitive
    pub unparked: bool,
    /// the code the wait primitive returned for this pass
    pub ret: i32,
}

/// Every clock reading in a trace is well formed.
pub open spec fn wf_events(events: Seq<WaitEvent>) -> bool {
    forall|j: int| 0 <= j < events.len() ==> (#[trigger] events[j]).now.wf()
}

/// The untimed park protocol over a trace: while the state word still reads
/// `PARKED`, wait. No return from the wait primitive ends the park by
/// itself — a woken return is re-checked like a value-changed one, never
/// taken as evidence of the unpark, and a timed-out return cannot occur on
/// an untimed wait — so the park completes exactly when a re-check finds
/// the word `UNPARKED`. Yields whether the park completed within the trace,
/// and the state word it left behind.
pub open spec fn park_run(state: u32, events: Seq<WaitEvent>) -> (bool, u32)
    decreases events.len(),
{
    if state == UNPARKED {
        (true, state)
    } else if events.len() == 0 {
        (false, state)
    } else {
        let e = events[0];
        let after = if e.unparked {
            UNPARKED
        } else {
            state
        };
        park_run(after, events.skip(1))
    }
}

/// The timed park protocol over a trace. Each pass re-checks the state word
/// and the deadline: a deadline at or before the clock reading reports a
/// timeout at once; a remainder too large for the host representation falls
/// back to the untimed protocol on the very same trace, reported as success;
/// otherwise the pass waits with the remaining time. Only a timed-out return
/// ends a wait — it propagates the timeout outward — while a woken return is
/// re-checked like a value-changed one, never taken as evidence of the
/// unpark. Yields `Some(true)` if a re-check found the word `UNPARKED`,
/// `Some(false)` if timed out, `None` if the trace ran out first — and the
/// state word left behind.
pub open spec fn park_until_run(state: u32, deadline: Instant, events: Seq<WaitEvent>) -> (Option<
    bool,
>, u32)
    decreases events.len(),
{
    if state == UNPARKED {
        (Some(true), state)
    } else if events.len() == 0 {
        (None, state)
    } else {
        let e = events[0];
        match deadline_step_spec(deadline, e.now) {
            DeadlineStep::Elapsed => (Some(false), state),
            DeadlineStep::WaitForever => {
                let run = park_run(state, events);
                (
                    if run.0 {
                        Some(true)
                    } else {
                        None
                    },
                    run.1,
                )
            },
            DeadlineStep::Wait(_) => {
                let after = if e.unparked {
                    UNPARKED
                } else {
                    state
                };
                match wait_outcome_of(e.ret) {
                    WaitOutcome::TimedOut => (Some(false), after),
                    _ => park_until_run(after, deadline, events.skip(1)),
                }
            },
        }
    }
}

impl ThreadParker {
    /// Constructing a parker is cheap enough to do on every blocking
    /// attempt.
    pub const IS_CHEAP_TO_CONSTRUCT: bool = true;

    /// The current value of the state word.
    pub closed spec fn state(self) -> u32 {
        self.futex
    }

    /// A fresh parker: the state word reads `UNPARKED`. Construction never
    /// blocks and never fails — no syscall, no allocation, no handle to any
    /// host resource — so parkers may be built and discarded freely.
    pub fn new() -> (p: ThreadParker)
        ensures
            p.state() == UNPARKED,
    {
        ThreadParker { futex: UNPARKED }
    }

    /// Marks the parker as about to park: forces the state word to
    /// `PARKED`. Only the owning thread calls this, so nothing can race the
    /// word here; the host realization uses a plain relaxed store.
    pub fn prepare_park(&mut self)
        ensures
            final(self).state() == PARKED,
    {
        self.futex = PARKED;
    }

    /// True iff the state word still reads `PARKED`: queried right after a
    /// timed park reported a timeout, to distinguish a genuine timeout from
    /// a wake that landed just as the deadline elapsed.
    pub fn timed_out(&self) -> (r: bool)
        ensures
            r == (self.state() != UNPARKED),
    {
        self.futex != UNPARKED
    }

    /// Parks until woken: waits, re-checking the state word after every
    /// return from the wait primitive, for as long as the word reads
    /// `PARKED`. No single return of the wait primitive is taken as
    /// evidence of the unpark: only a re-check that finds the word
    /// `UNPARKED` completes the park. Completes within the trace exactly
    /// when [`park_run`] says so, and leaves the state word as that run
    /// does.
    pub fn park(&mut self, events: &Vec<WaitEvent>) -> (completed: bool)
        ensures
            completed == park_run(old(self).state(), events@).0,
            final(self).state() == park_run(old(self).state(), events@).1,
    {
        proof {
            assert(events@.skip(0) =~= events@);
        }
        self.park_from(events, 0)
    }

    /// The untimed retry loop, consuming the trace from `from` on. The
    /// return codes of the waits are not consulted: whatever a wait
    /// returned — woken, value-changed, or a code outside the host contract
    /// (noted where the wait is issued) — the one authority on whether the
    /// park is over is the state word re-checked at the top of the pass; a
    /// timed-out return cannot occur on an untimed wait and re-checks like
    /// the rest.
    fn park_from(&mut self, events: &Vec<WaitEvent>, from: usize) -> (completed: bool)
        requires
            from <= events@.len(),
        ensures
            completed == park_run(old(self).state(), events@.skip(from as int)).0,
            final(self).state() == park_run(old(self).state(), events@.skip(from as int)).1,
    {
        let mut i: usize = from;
        loop
            invariant
                from <= i <= events@.len(),
                park_run(old(self).state(), events@.skip(from as int)) == park_run(
                    self.state(),
                    events@.skip(i as int),
                ),
            decreases events@.len() - i,
        {
            if self.futex == UNPARKED {
                return true;
            }
            if i == events.len() {
                return false;
            }
            let e = events[i];
            proof {
                assert(events@.skip(i as int)[0] == e);
                assert(events@.skip(i as int).skip(1) =~= events@.skip(i as int + 1));
            }
            if e.unparked {
                self.futex = UNPARKED;
            }
            i = i + 1;
        }
    }

    /// Parks with a deadline: waits, re-reading the clock and re-checking
    /// the state word on every pass, until the word reads `UNPARKED`
    /// (`Some(true)`), the deadline elapses (`Some(false)`), or the trace
    /// runs out (`None`). A deadline whose remainder overflows the host
    /// representation parks with no timeout at all and reports success.
    pub fn park_until(&mut self, deadline: &Instant, events: &Vec<WaitEvent>) -> (result: Option<
        bool,
    >)
        requires
            deadline.wf(),
            wf_events(events@),
        ensures
            result == park_until_run(old(self).state(), *deadline, events@).0,
            final(self).state() == park_until_run(old(self).state(), *deadline, events@).1,
    {
        let mut i: usize = 0;
        proof {
            assert(events@.skip(0) =~= events@);
        }
        loop
            invariant
                i <= events@.len(),
                deadline.wf(),
                wf_events(events@),
                park_until_run(old(self).state(), *deadline, events@) == park_until_run(
                    self.state(),
                    *deadline,
                    events@.skip(i as int),
                ),
            decreases events@.len() - i,
        {
            if self.futex == UNPARKED {
                return Some(true);
            }
            if i == events.len() {
                return None;
            }
            let e = events[i];
            proof {
                assert(events@.skip(i as int)[0] == e);
                assert(events@.skip(i as int).skip(1) =~= events@.skip(i as int + 1));
            }
            match deadline_step(deadline, &e.now) {
                DeadlineStep::Elapsed => {
                    return Some(false);
                },
                DeadlineStep::WaitForever => {
                    let completed = self.park_from(events, i);
                    return if completed {
                        Some(true)
                    } else {
                        None
                    };
                },
                DeadlineStep::Wait(_) => {
                    if e.unparked {
                        self.futex = UNPARKED;
                    }
                    match classify_wait_return(e.ret) {
                        WaitOutcome::TimedOut => {
                            return Some(false);
                        },
                        // woken, value-changed or unexpected: the word is
                        // the only evidence, re-check it
                        _ => {
                            i = i + 1;
                        },
                    }
                },
            }
        }
    }

    /// Grants the wake right: clears the state word to `UNPARKED` and hands
    /// back the one-shot handle carrying the word's bare address. No lock is
    /// taken — the store itself is the synchronization point (the host
    /// realization makes it a release store, pairing with the acquire loads
    /// of the park loops); the name keeps API symmetry with backends that do
    /// need one.
    pub fn unpark_lock(&mut self) -> (handle: UnparkHandle)
        ensures
            final(self).state() == UNPARKED,
    {
        let addr = self.ptr();
        self.futex = UNPARKED;
        UnparkHandle { futex: addr }
    }

    /// The address of the state word, as an opaque integer token for the
    /// host wait/wake primitives. The token is only ever compared by the
    /// host, never dereferenced, so it may outlive the parker itself.
    pub fn ptr(&self) -> usize {
        state_word_addr(self)
    }
}

/// A parker whose wake right has been granted — the state word reads
/// `UNPARKED` — parks no further: both the untimed and the timed protocol
/// complete at once, consuming no wait event and leaving the word untouched,
/// whatever the trace holds.
pub proof fn lemma_park_after_unpark(state: u32, deadline: Instant, events: Seq<WaitEvent>)
    requires
        state == UNPARKED,
    ensures
        park_run(state, events) == (true, state),
        park_until_run(state, deadline, events) == (Some(true), state),
{
}

/// A wake that lands anywhere in a park's trace is never lost: whatever the
/// wait primitive returns, an untimed park completes — at the latest when
/// the pass after the wake re-checks the state word and finds it clear.
pub proof fn lemma_wake_completes_park(state: u32, events: Seq<WaitEvent>)
    requires
        exists|j: int| 0 <= j < events.len() && (#[trigger] events[j]).unparked,
    ensures
        park_run(state, events).0,
    decreases events.len(),
{
    if state != UNPARKED {
        let j = choose|j: int| 0 <= j < events.len() && (#[trigger] events[j]).unparked;
        if events[0].unparked {
            // the next pass re-checks the word and finds it clear
            assert(park_run(UNPARKED, events.skip(1)).0);
        } else {
            assert(events.skip(1)[j - 1] == events[j]);
            lemma_wake_completes_park(state, events.skip(1));
        }
    }
}

/// A timed park whose deadline has already passed reports the timeout on its
/// very first pass: no wait is issued — the run's outcome does not consult
/// the first event's wait fields, nor any later event — and the state word
/// is left exactly as it was.
pub proof fn lemma_past_deadline_times_out(state: u32, deadline: Instant, events: Seq<WaitEvent>)
    requires
        state != UNPARKED,
        events.len() > 0,
        deadline.as_nanos() <= events[0].now.as_nanos(),
    ensures
        park_until_run(state, deadline, events) == (Some(false), state),
{
}

/// A wake that lands while a wait of a timed park is in progress is not
/// lost, whatever that wait returns: if it reports the timeout, the park
/// reports the timeout too, but the state word already reads `UNPARKED`, so
/// the timed-out query immediately afterwards reports false; on any other
/// return the next re-check finds the word clear and the park returns true
/// — one of the two, never a missed wake, never both.
pub proof fn lemma_racing_unpark_not_lost(state: u32, deadline: Instant, events: Seq<WaitEvent>)
    requires
        state == PARKED,
        events.len() > 0,
        events[0].unparked,
        deadline_step_spec(deadline, events[0].now) is Wait,
    ensures
        park_until_run(state, deadline, events).1 == UNPARKED,
        wait_outcome_of(events[0].ret) is TimedOut ==> park_until_run(state, deadline, events).0
            == Some(false),
        !(wait_outcome_of(events[0].ret) is TimedOut) ==> park_until_run(state, deadline, events).0
            == Some(true),
{
    if !(wait_outcome_of(events[0].ret) is TimedOut) {
        // the pass after the wake re-checks the word and finds it clear
        assert(park_until_run(UNPARKED, deadline, events.skip(1)) == (Some(true), UNPARKED));
    }
}

/// A deadline so remote that the remaining time overflows the host's
/// relative-timeout representation behaves exactly like parking with no
/// deadline at all: the timed park runs the untimed protocol on the very
/// same trace, reports true when that protocol completes, and never reports
/// a timeout.
pub proof fn lemma_overflow_is_untimed_park(state: u32, deadline: Instant, events: Seq<WaitEvent>)
    requires
        state != UNPARKED,
        events.len() > 0,
        deadline.as_nanos() > events[0].now.as_nanos(),
        remaining_overflows(deadline, events[0].now),
    ensures
        park_until_run(state, deadline, events).1 == park_run(state, events).1,
        park_until_run(state, deadline, events).0 == if park_run(state, events).0 {
            Some(true)
        } else {
            None::<bool>
        },
        park_until_run(state, deadline, events).0 != Some(false),
{
}

/// Any two freshly constructed parkers are one and the same value:
/// construction has no effect beyond the returned word, so building many
/// parkers and discarding all but one is indistinguishable from building
/// just one.
pub proof fn lemma_new_indistinguishable(a: ThreadParker, b: ThreadParker)
    requires
        a.state() == UNPARKED,
        b.state() == UNPARKED,
    ensures
        a == b,
{
}

/// Relies on `core::ptr::from_ref`: yields the address of the parker's state
/// word as a bare integer. The address is handed to the host wait/wake
/// primitives purely as a comparison key and is never dereferenced.
#[verifier::external_body]
fn state_word_addr(p: &ThreadParker) -> (addr: usize) {
    core::ptr::from_ref(&p.futex) as usize
}

/// A one-shot capability to wake the thread parked on one state word:
/// produced by exactly one `unpark_lock` call and consumed by exactly one
/// `unpark` call. It carries only the bare address of the word, never a
/// reference: by the time the wake is issued, the parker's memory may
/// already have been reclaimed or repurposed, which is allowed because the
/// host wake primitive treats the address purely as a comparison key.
pub struct UnparkHandle {
    futex: usize,
}

impl UnparkHandle {
    /// The address the handle carries.
    pub closed spec fn addr(self) -> usize {
        self.futex
    }

    /// Consumes the handle and yields the wake request: the address to hand
    /// to the host wake primitive together with an all-waiters count. At
    /// most one thread is ever parked on a word, so waking everyone is both
    /// correct and race-free without tracking a count. Deferring this past
    /// the release of any outer lock keeps that lock's critical section
    /// short.
    pub fn unpark(self) -> (addr: usize)
        ensures
            addr == self.addr(),
    {
        self.futex
    }
}

} // verus!
