//! The monotonic clock that the state machine reads. Nothing is stated of
//! what it reads: every timed operation of the library also exists in a form
//! that takes the time as an argument and is verified for every value of it.
use std::time::Instant;
use vstd::prelude::*;

verus! {

#[verifier::external_type_specification]
#[verifier::external_body]
pub struct ExInstant(Instant);

/// `Instant::now`: a reading of the monotonic clock. Nothing is stated of it.
#[verifier::external_body]
fn instant_now() -> Instant {
    Instant::now()
}

/// `Instant::elapsed`, in nanoseconds: the time since `since` as the clock
/// reads it now. It depends on the time, so nothing is stated of it.
#[verifier::external_body]
fn nanos_elapsed(since: &Instant) -> u128 {
    since.elapsed().as_nanos()
}

/// A monotonic clock counting nanoseconds from its own start.
#[derive(Debug)]
pub struct Clock {
    epoch: Instant,
}

impl Clock {
    /// A clock that starts now.
    pub fn start() -> Clock {
        Clock { epoch: instant_now() }
    }

    /// Nanoseconds since the clock started, saturating at `u64::MAX`
    /// (some 584 years).
    pub fn now_ns(&self) -> u64 {
        let raw = nanos_elapsed(&self.epoch);
        if raw > u64::MAX as u128 {
            u64::MAX
        } else {
            raw as u64
        }
    }
}

} // verus!
