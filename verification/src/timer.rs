use std::time::{Duration, Instant};
use vstd::prelude::*;

verus! {

/// A point in time on the machine's monotonic clock.
#[verifier::external_type_specification]
#[verifier::external_body]
pub struct ExInstant(Instant);

/// `std::time::Instant::now`: the current time. It depends on the clock, so
/// nothing is said of it.
#[verifier::external_body]
fn instant_now() -> Instant {
    Instant::now()
}

/// `std::time::Instant::elapsed`: the time that passed since `since`. It
/// depends on the clock, so nothing is said of it.
#[verifier::external_body]
fn instant_elapsed(since: &Instant) -> Duration {
    since.elapsed()
}

/// `std::time::Duration::as_nanos`: the whole number of nanoseconds in a
/// duration. The duration is opaque here, so nothing is said of the number.
#[verifier::external_body]
fn duration_as_nanos(duration: &Duration) -> u128 {
    duration.as_nanos()
}

/// Nanoseconds in a millisecond.
pub const NANOS_PER_MILLI: u128 = 1_000_000;

/// A countdown that is over once more than its duration has passed since it
/// was started or last reset.
#[derive(Clone, Copy)]
pub struct Timer {
    instant: Instant,
    duration_millis: u64,
    restarts: Ghost<nat>,
}

impl Timer {
    /// The timer's duration, in milliseconds.
    pub closed spec fn duration(self) -> u64 {
        self.duration_millis
    }

    /// How many times the timer was started again since it was made.
    pub closed spec fn restarts(self) -> nat {
        self.restarts@
    }

    /// A timer of `duration_millis` milliseconds, started now.
    pub fn new(duration_millis: u64) -> (r: Self)
        ensures
            r.duration() == duration_millis,
            r.restarts() == 0,
    {
        Self { instant: instant_now(), duration_millis, restarts: Ghost(0) }
    }

    /// The timer's duration, in milliseconds.
    pub fn duration_millis(&self) -> (r: u64)
        ensures
            r == self.duration(),
    {
        self.duration_millis
    }

    /// Whether `elapsed_nanos` nanoseconds exceed the timer's duration.
    pub fn is_over(&self, elapsed_nanos: u128) -> (r: bool)
        ensures
            r == (elapsed_nanos > self.duration() as int * NANOS_PER_MILLI),
    {
        elapsed_nanos > self.duration_millis as u128 * NANOS_PER_MILLI
    }

    /// Whether more than the duration has passed since the timer was started
    /// or last reset. That depends on the clock, so the contract says nothing
    /// of the result: `is_over` states the comparison made on what the clock gave.
    pub fn can_update(&self) -> bool {
        let elapsed = duration_as_nanos(&instant_elapsed(&self.instant));
        self.is_over(elapsed)
    }

    /// Starts the timer again from now, with the same duration.
    pub fn reset(&mut self)
        ensures
            final(self).duration() == old(self).duration(),
            final(self).restarts() == old(self).restarts() + 1,
    {
        self.instant = instant_now();
        self.restarts = Ghost(self.restarts@ + 1);
    }
}

impl Default for Timer {
    /// A timer of no duration, started now.
    fn default() -> (r: Self)
        ensures
            r.duration() == 0,
            r.restarts() == 0,
    {
        Timer::new(0)
    }
}

/// The timer that paces the moves of an entity.
#[derive(Clone, Copy)]
pub struct EntityTimer(Timer);

impl EntityTimer {
    /// The timer's duration, in milliseconds.
    pub closed spec fn duration(self) -> u64 {
        self.0.duration()
    }

    /// How many times the timer was started again since it was made.
    pub closed spec fn restarts(self) -> nat {
        self.0.restarts()
    }

    /// A timer of `duration_millis` milliseconds, started now.
    pub fn new(duration_millis: u64) -> (r: Self)
        ensures
            r.duration() == duration_millis,
            r.restarts() == 0,
    {
        EntityTimer(Timer::new(duration_millis))
    }

    /// The timer's duration, in milliseconds.
    pub fn duration_millis(&self) -> (r: u64)
        ensures
            r == self.duration(),
    {
        self.0.duration_millis()
    }

    /// Whether the entity's time to move has come (see `Timer::can_update`).
    pub fn can_update(&self) -> bool {
        self.0.can_update()
    }

    /// Starts the timer again from now, with the same duration.
    pub fn reset(&mut self)
        ensures
            final(self).duration() == old(self).duration(),
            final(self).restarts() == old(self).restarts() + 1,
    {
        self.0.reset();
    }
}

/// Whether `ready` is what `EntityTimer::can_update` answered on reading
/// `timer`: whether more than the timer's duration had passed since it was
/// started or last reset, by the clock at that reading. A flag that no such
/// reading gave is never one.
#[verifier::inline]
pub open spec fn timer_reading(timer: EntityTimer, ready: bool) -> bool {
    call_ensures(EntityTimer::can_update, (&timer,), ready)
}

impl Default for EntityTimer {
    fn default() -> (r: Self)
        ensures
            r.duration() == 0,
            r.restarts() == 0,
    {
        EntityTimer(Timer::default())
    }
}

} // verus!
