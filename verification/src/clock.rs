//! The monotonic clock that stamps the presses.

use std::time::{Duration, Instant};
use vstd::prelude::*;
use crate::debounce::{after_press, press_action, Action, DebounceState};

verus! {

/// `std::time::Instant`: a reading of the monotonic clock. Nothing is known
/// of what one holds.
#[verifier::external_type_specification]
#[verifier::external_body]
pub struct ExInstant(std::time::Instant);

/// A clock that counts nanoseconds from the moment it was started.
pub struct Clock {
    origin: Instant,
}

/// `Instant::now`: the present reading of the monotonic clock. Nothing is
/// claimed of it.
#[verifier::external_body]
fn instant_now() -> Instant {
    Instant::now()
}

/// `Instant::elapsed`: the time from `origin` to the present. Nothing is
/// claimed of it.
#[verifier::external_body]
fn instant_elapsed(origin: &Instant) -> Duration {
    origin.elapsed()
}

/// `Duration::as_nanos`: the whole duration in nanoseconds. Nothing is
/// claimed of it.
#[verifier::external_body]
fn duration_as_nanos(duration: &Duration) -> u128 {
    duration.as_nanos()
}

/// A count of nanoseconds as a timestamp: the count itself, or the largest
/// timestamp where the count is beyond it.
pub open spec fn saturated(nanos: u128) -> u64 {
    if nanos > u64::MAX {
        u64::MAX
    } else {
        nanos as u64
    }
}

/// Brings a count of nanoseconds into the range of a timestamp.
pub fn saturate_nanos(nanos: u128) -> (timestamp: u64)
    ensures
        timestamp == saturated(nanos),
{
    if nanos > u64::MAX as u128 {
        u64::MAX
    } else {
        nanos as u64
    }
}

impl Clock {
    /// A clock that starts counting now.
    pub fn start() -> Clock {
        Clock { origin: instant_now() }
    }

    /// Nanoseconds since the clock was started, at most `u64::MAX`.
    pub fn now(&self) -> u64 {
        let elapsed = instant_elapsed(&self.origin);
        saturate_nanos(duration_as_nanos(&elapsed))
    }
}

impl DebounceState {
    /// Reads `clock` and handles a press at that time. Returns the time read
    /// and the action; whatever the clock said, state and action are those of
    /// [`DebounceState::on_press`] at that time.
    pub fn on_press_now(&mut self, clock: &Clock) -> (pressed: (u64, Action))
        ensures
            final(self)@ == after_press(old(self)@, pressed.0),
            pressed.1 == press_action(old(self)@, pressed.0),
    {
        let now: u64 = clock.now();
        let action = self.on_press(now);
        (now, action)
    }
}

} // verus!
