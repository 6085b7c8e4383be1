use std::time::{Duration, Instant};
use vstd::prelude::*;

verus! {

#[verifier::external_type_specification]
#[verifier::external_body]
pub struct ExInstant(Instant);

/// Relies on `Instant::now`: the monotonic clock's current reading.
#[verifier::external_body]
fn instant_now() -> (r: Instant) {
    Instant::now()
}

/// Relies on `Instant::saturating_duration_since`: the time from `earlier` to
/// `later`, or zero where `earlier` is the later of the two.
#[verifier::external_body]
fn time_between(later: Instant, earlier: Instant) -> (r: Duration) {
    later.saturating_duration_since(earlier)
}

/// A module that measures the time since it was made and the time that the last
/// cycle took.
#[derive(Debug)]
pub struct Clock {
    start: Instant,
    last_frame: Instant,
    delta: Duration,
}

impl Clock {
    /// The reading at which the clock was made.
    pub closed spec fn start(&self) -> Instant {
        self.start
    }

    /// The reading at the last tick.
    pub closed spec fn last_frame(&self) -> Instant {
        self.last_frame
    }

    /// The time between the last two ticks.
    pub closed spec fn delta_spec(&self) -> Duration {
        self.delta
    }

    /// A clock that starts now, with no time measured yet between ticks.
    pub fn new() -> (r: Self)
        ensures
            r.last_frame() == r.start(),
    {
        let now = instant_now();
        let zero = time_between(now, now);
        Clock { start: now, last_frame: now, delta: zero }
    }

    /// The time between the last two ticks.
    pub fn delta(&self) -> (r: Duration)
        ensures
            r == self.delta_spec(),
    {
        self.delta
    }

    /// The time since the clock was made.
    pub fn elapsed(&self) -> (r: Duration) {
        time_between(instant_now(), self.start)
    }

    /// Takes a reading: the time since the last one becomes the delta.
    pub fn tick(&mut self)
        ensures
            final(self).start() == old(self).start(),
    {
        let now = instant_now();
        self.delta = time_between(now, self.last_frame);
        self.last_frame = now;
    }
}

} // verus!
