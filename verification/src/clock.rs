//! Injectable time source.
//!
//! Time-sensitive logic (verdict TTL, allow-once timeout, foreground
//! debounce) reads a [`Clock`] so that tests advance time deterministically
//! instead of sleeping. Production uses [`MonoClock`], a monotonic clock based
//! at construction time.

use std::time::{Duration, Instant};

use vstd::prelude::*;

verus! {

#[verifier::external_type_specification]
#[verifier::external_body]
pub struct ExInstant(Instant);

/// `Instant::now`: the current monotonic instant (depends on the machine's clock;
/// nothing is promised of its value).
#[verifier::external_body]
pub(crate) fn instant_now() -> Instant {
    Instant::now()
}

/// `Instant::elapsed`: time since the instant (depends on the machine's clock).
#[verifier::external_body]
pub(crate) fn instant_elapsed(i: &Instant) -> Duration {
    i.elapsed()
}

/// `Duration::as_millis`: whole milliseconds of the duration.
#[verifier::external_body]
fn duration_as_millis(d: &Duration) -> u128 {
    d.as_millis()
}

/// `Duration < Duration` (`PartialOrd::lt`): the first span is the shorter
/// one. `Duration` is opaque here, so nothing is stated of the result.
#[verifier::external_body]
pub(crate) fn duration_lt(a: &Duration, b: &Duration) -> bool {
    a < b
}

/// Monotonic millisecond clock.
pub trait Clock {
    /// Milliseconds since the clock's base; only differences are meaningful.
    fn now_ms(&self) -> u64;
}

/// Production monotonic clock.
#[derive(Debug)]
pub struct MonoClock {
    base: Instant,
}

impl MonoClock {
    pub fn new() -> MonoClock {
        MonoClock { base: instant_now() }
    }
}

impl Default for MonoClock {
    fn default() -> MonoClock {
        MonoClock::new()
    }
}

impl Clock for MonoClock {
    /// Elapsed milliseconds since construction (truncated to 64 bits).
    fn now_ms(&self) -> u64 {
        let ms = duration_as_millis(&instant_elapsed(&self.base));
        ms as u64
    }
}

/// Manual test clock: time moves only when [`TestClock::advance`] or
/// [`TestClock::set`] is called.
#[derive(Debug)]
pub struct TestClock {
    now: u64,
}

impl View for TestClock {
    type V = u64;

    closed spec fn view(&self) -> u64 {
        self.now
    }
}

impl Default for TestClock {
    fn default() -> (c: TestClock)
        ensures
            c@ == 0,
    {
        TestClock { now: 0 }
    }
}

impl TestClock {
    pub fn new(start_ms: u64) -> (c: TestClock)
        ensures
            c@ == start_ms,
    {
        TestClock { now: start_ms }
    }

    /// Move time forward (wrapping at 2^64, like the atomic counter it models).
    pub fn advance(&mut self, ms: u64)
        ensures
            final(self)@ == vstd::wrapping::u64_specs::wrapping_add(old(self)@, ms),
    {
        self.now = self.now.wrapping_add(ms);
    }

    pub fn set(&mut self, ms: u64)
        ensures
            final(self)@ == ms,
    {
        self.now = ms;
    }
}

impl Clock for TestClock {
    fn now_ms(&self) -> (t: u64)
        ensures
            t == self@,
    {
        self.now
    }
}

} // verus!
