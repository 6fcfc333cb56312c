//! A futex-based thread-parking primitive.
//!
//! One thread blocks ("parks") on a single atomic state word until another
//! thread explicitly releases it ("unparks"), or until a deadline passes.
//! This crate verifies the whole protocol: the two-state machine on the word,
//! the deadline arithmetic that turns an absolute deadline into the host's
//! relative-timeout representation (including its overflow rule), and the
//! retry discipline around the host futex primitive's return codes. The
//! waits and wakes themselves are syscalls of the host kernel; a park here is
//! therefore driven by a trace of wait events recording what the host did,
//! and a realization on the host performs the same steps with real syscalls.

pub mod deadline;
pub mod futex;
pub mod parker;
