use futex_parker::deadline::Instant;
use futex_parker::futex::{EAGAIN, ETIMEDOUT};
use futex_parker::parker::{ThreadParker, WaitEvent, PARKED, UNPARKED};

fn at(secs: u64, nanos: u32) -> Instant {
    Instant { secs, nanos }
}

fn wait(now: Instant, unparked: bool, ret: i32) -> WaitEvent {
    WaitEvent { now, unparked, ret }
}

#[test]
fn a_fresh_parker_is_unparked() {
    let p = ThreadParker::new();
    assert!(!p.timed_out());
}

#[test]
fn constructing_many_parkers_changes_nothing() {
    // building any number of parkers and discarding all but one is
    // indistinguishable from building one: no handle, no state beyond the word
    let mut kept = ThreadParker::new();
    for _ in 0..1000 {
        let p = ThreadParker::new();
        assert!(!p.timed_out());
    }
    assert!(!kept.timed_out());
    kept.prepare_park();
    assert!(kept.timed_out());
}

#[test]
fn prepare_park_sets_the_word() {
    let mut p = ThreadParker::new();
    p.prepare_park();
    assert!(p.timed_out());
}

#[test]
fn park_after_unpark_lock_consumes_no_wait() {
    let mut p = ThreadParker::new();
    p.prepare_park();
    let handle = p.unpark_lock();
    // the wake right has been granted: a park returns at once, even on an
    // empty trace, and the pending-wake query reads clear
    assert!(p.park(&vec![]));
    assert!(!p.timed_out());
    handle.unpark();
}

#[test]
fn park_completes_on_a_wake() {
    // thread A prepares and parks; the releasing thread's store lands during
    // the one wait, which returns "woken"
    let mut p = ThreadParker::new();
    p.prepare_park();
    let events = vec![wait(at(0, 0), true, 0)];
    assert!(p.park(&events));
    assert!(!p.timed_out());
}

#[test]
fn park_retries_through_spurious_returns() {
    let mut p = ThreadParker::new();
    p.prepare_park();
    let events = vec![
        wait(at(0, 0), false, -EAGAIN),
        wait(at(0, 0), false, -EAGAIN),
        wait(at(0, 0), true, 0),
    ];
    assert!(p.park(&events));
    assert!(!p.timed_out());
}

#[test]
fn park_tolerates_an_unexpected_code_and_retries() {
    let mut p = ThreadParker::new();
    p.prepare_park();
    let events = vec![wait(at(0, 0), false, -22), wait(at(0, 0), true, 0)];
    assert!(p.park(&events));
}

#[test]
fn a_bare_woken_return_does_not_end_the_park() {
    // a success return from the wait primitive alone is no evidence of the
    // unpark (a stale wake, say): the re-check finds the word still set and
    // the park keeps waiting
    let mut p = ThreadParker::new();
    p.prepare_park();
    let events = vec![wait(at(0, 0), false, 0)];
    assert!(!p.park(&events));
    assert!(p.timed_out());
}

#[test]
fn a_stale_wake_then_a_real_one() {
    let mut p = ThreadParker::new();
    p.prepare_park();
    let events = vec![wait(at(0, 0), false, 0), wait(at(0, 0), true, 0)];
    assert!(p.park(&events));
    assert!(!p.timed_out());
}

#[test]
fn park_incomplete_when_never_woken() {
    let mut p = ThreadParker::new();
    p.prepare_park();
    assert!(!p.park(&vec![]));
    assert!(p.timed_out());
}

#[test]
fn park_until_past_deadline_issues_no_wait() {
    let mut p = ThreadParker::new();
    p.prepare_park();
    let deadline = at(1, 0);
    // the one event's wait fields are never consulted: the first clock
    // reading is already past the deadline
    let events = vec![wait(at(2, 0), true, 0)];
    assert_eq!(p.park_until(&deadline, &events), Some(false));
    assert!(p.timed_out());
}

#[test]
fn park_until_times_out_after_ten_milliseconds() {
    // thread A parks until now + 10ms and nobody ever unparks: the one timed
    // wait runs the timeout out, and the query right after reports it
    let mut p = ThreadParker::new();
    p.prepare_park();
    let deadline = at(5, 10_000_000);
    let events = vec![wait(at(5, 0), false, -ETIMEDOUT)];
    assert_eq!(p.park_until(&deadline, &events), Some(false));
    assert!(p.timed_out());
}

#[test]
fn park_until_returns_true_on_a_wake() {
    let mut p = ThreadParker::new();
    p.prepare_park();
    let deadline = at(10, 0);
    let events = vec![wait(at(5, 0), true, 0)];
    assert_eq!(p.park_until(&deadline, &events), Some(true));
    assert!(!p.timed_out());
}

#[test]
fn a_wake_racing_the_deadline_is_not_lost() {
    // the release store lands while the final wait is timing out: the park
    // reports the timeout, but the word already reads clear, so the
    // timed-out query reports the pending wake — no missed wake, no double
    // report
    let mut p = ThreadParker::new();
    p.prepare_park();
    let deadline = at(5, 10_000_000);
    let events = vec![wait(at(5, 0), true, -ETIMEDOUT)];
    assert_eq!(p.park_until(&deadline, &events), Some(false));
    assert!(!p.timed_out());
}

#[test]
fn a_bare_woken_return_re_checks_during_a_timed_park() {
    // same discipline under a deadline: the success return sends the loop
    // back to the word and the clock, it does not report the unpark
    let mut p = ThreadParker::new();
    p.prepare_park();
    let deadline = at(10, 0);
    let events = vec![wait(at(5, 0), false, 0)];
    assert_eq!(p.park_until(&deadline, &events), None);
    assert!(p.timed_out());
}

#[test]
fn park_until_retries_spurious_then_times_out() {
    let mut p = ThreadParker::new();
    p.prepare_park();
    let deadline = at(5, 10_000_000);
    let events = vec![
        wait(at(5, 2_000_000), false, -EAGAIN),
        wait(at(5, 11_000_000), false, 0),
    ];
    // the second pass finds the deadline already behind the clock
    assert_eq!(p.park_until(&deadline, &events), Some(false));
    assert!(p.timed_out());
}

#[test]
fn an_overflowing_deadline_parks_indefinitely() {
    // a deadline too remote for the host representation behaves like a park
    // with no deadline at all: it waits unbounded and reports success
    let mut p = ThreadParker::new();
    p.prepare_park();
    let deadline = at(u64::MAX, 0);
    let events = vec![wait(at(0, 0), false, -EAGAIN), wait(at(0, 0), true, 0)];
    assert_eq!(p.park_until(&deadline, &events), Some(true));
    assert!(!p.timed_out());
}

#[test]
fn an_overflowing_deadline_never_times_out() {
    let mut p = ThreadParker::new();
    p.prepare_park();
    let deadline = at(u64::MAX, 0);
    assert_eq!(p.park_until(&deadline, &vec![wait(at(0, 0), false, -EAGAIN)]), None);
    assert!(p.timed_out());
}

#[test]
fn park_until_when_already_unparked() {
    let mut p = ThreadParker::new();
    p.prepare_park();
    let _ = p.unpark_lock();
    assert_eq!(p.park_until(&at(0, 0), &vec![]), Some(true));
}

#[test]
fn the_handle_carries_the_word_address() {
    let mut p = ThreadParker::new();
    p.prepare_park();
    let addr = p.ptr();
    let handle = p.unpark_lock();
    assert_eq!(handle.unpark(), addr);
}

#[test]
fn the_handle_outlives_the_parker() {
    // the wake request must survive reclamation of the parker's memory: the
    // handle carries a bare integer, never a reference, so consuming it
    // after the parker is gone touches nothing
    let mut p = Box::new(ThreadParker::new());
    p.prepare_park();
    let addr = p.ptr();
    let handle = p.unpark_lock();
    drop(p);
    let reused = Box::new([0u8; 64]);
    assert_eq!(handle.unpark(), addr);
    drop(reused);
}

#[test]
fn the_state_word_is_reusable_across_cycles() {
    let mut p = ThreadParker::new();
    for _ in 0..3 {
        p.prepare_park();
        assert!(p.timed_out());
        let events = vec![wait(at(0, 0), true, 0)];
        assert!(p.park(&events));
        assert!(!p.timed_out());
    }
}

#[test]
fn the_state_constants_are_distinct() {
    assert_eq!(UNPARKED, 0);
    assert_eq!(PARKED, 1);
}

#[test]
fn construction_is_flagged_cheap() {
    assert!(ThreadParker::IS_CHEAP_TO_CONSTRUCT);
}
