//! A software clock for playback that has no backend clock to go by.

use std::time::{Duration, Instant};
use vstd::prelude::*;

use crate::timesync::UNIT;

verus! {

/// `std::time::Instant`, a reading of the monotonic clock. It is carried
/// through as it is: nothing is known of what it holds.
#[verifier::external_type_specification]
#[verifier::external_body]
pub struct ExInstant(std::time::Instant);

/// Reads the monotonic clock with `Instant::now`. Nothing is claimed of the
/// reading.
#[verifier::external_body]
fn clock_now() -> (now: Instant) {
    Instant::now()
}

/// The time that has passed since `start`, from `Instant::elapsed`. Nothing
/// is claimed of its length.
#[verifier::external_body]
fn clock_since(start: &Instant) -> (passed: Duration) {
    start.elapsed()
}

/// The whole microseconds in `passed`, from `Duration::as_micros`. Nothing
/// is claimed of the count.
#[verifier::external_body]
fn whole_micros(passed: &Duration) -> (micros: u128) {
    passed.as_micros()
}

/// `amount`, or the largest `u64` where it does not fit.
pub open spec fn saturated(amount: int) -> u64 {
    if amount > u64::MAX {
        u64::MAX
    } else if amount < 0 {
        0
    } else {
        amount as u64
    }
}

/// Playback time that `delta` of wall time is worth at `speed` millionths.
pub open spec fn scaled(delta: u64, speed: u64) -> int {
    (delta * speed) / (UNIT as int)
}

/// What a timer shows: the time it has accumulated and whether it runs.
pub struct TimerState {
    pub elapsed: u64,
    pub running: bool,
}

impl TimerState {
    /// The state after a stop that finds `delta` on the clock.
    pub open spec fn stopped(self, delta: u64) -> TimerState {
        if self.running {
            TimerState { elapsed: saturated(self.elapsed + delta), running: false }
        } else {
            self
        }
    }

    /// The state after an adjustment that finds `delta` on the clock and
    /// counts it at `speed`.
    pub open spec fn adjusted(self, delta: u64, speed: u64) -> TimerState {
        if self.running {
            TimerState { elapsed: saturated(self.elapsed + scaled(delta, speed)), running: true }
        } else {
            self
        }
    }

    /// The reading when `delta` is on the clock.
    pub open spec fn reading(self, delta: u64) -> u64 {
        if self.running {
            saturated(self.elapsed + delta)
        } else {
            self.elapsed
        }
    }
}

/// Accumulates playback time in microseconds. While it runs, the time since
/// it was last started or adjusted is still on the clock and not yet part of
/// the accumulated time.
#[derive(Clone, Copy, Debug)]
pub struct AudioTimer {
    start_time: Option<Instant>,
    elapsed_time: u64,
    running: bool,
}

impl View for AudioTimer {
    type V = TimerState;

    closed spec fn view(&self) -> TimerState {
        TimerState { elapsed: self.elapsed_time, running: self.running }
    }
}

impl AudioTimer {
    #[verifier::type_invariant]
    spec fn started_while_running(self) -> bool {
        self.running == self.start_time.is_some()
    }

    /// A stopped timer that has accumulated nothing.
    pub fn new() -> (r: Self)
        ensures
            r@ == (TimerState { elapsed: 0, running: false }),
    {
        AudioTimer { start_time: None, elapsed_time: 0, running: false }
    }

    /// Whether the timer runs.
    pub fn is_running(&self) -> (r: bool)
        ensures
            r == self@.running,
    {
        self.running
    }

    /// The accumulated time, without what is still on the clock.
    pub fn accumulated(&self) -> (r: u64)
        ensures
            r == self@.elapsed,
    {
        self.elapsed_time
    }

    /// Starts the timer, unless it runs already.
    pub fn start(&mut self)
        ensures
            final(self)@ == (TimerState { elapsed: old(self)@.elapsed, running: true }),
    {
        proof {
            use_type_invariant(&*self);
        }
        if !self.running {
            let now = clock_now();
            *self = AudioTimer {
                start_time: Some(now),
                elapsed_time: self.elapsed_time,
                running: true,
            };
        }
    }

    /// The clock's time since the timer was last started or adjusted, cut
    /// to what a `u64` holds; 0 for a stopped timer.
    pub(crate) fn on_clock(&self) -> (delta: u64)
        ensures
            !self@.running ==> delta == 0,
    {
        proof {
            use_type_invariant(self);
        }
        match &self.start_time {
            Some(start) => {
                let passed = clock_since(start);
                let micros: u128 = whole_micros(&passed);
                if micros > u64::MAX as u128 {
                    u64::MAX
                } else {
                    micros as u64
                }
            },
            None => 0,
        }
    }

    /// Stops a running timer when `delta` is on the clock: the time counts
    /// in full.
    pub fn stop_after(&mut self, delta: u64)
        ensures
            final(self)@ == old(self)@.stopped(delta),
    {
        proof {
            use_type_invariant(&*self);
        }
        if self.running {
            *self = AudioTimer {
                start_time: None,
                elapsed_time: self.elapsed_time.saturating_add(delta),
                running: false,
            };
        }
    }

    /// Stops the timer and counts what the clock shows. A stopped timer is
    /// left as it is.
    pub fn stop(&mut self)
        ensures
            exists|delta: u64| final(self)@ == old(self)@.stopped(delta),
            !old(self)@.running ==> final(self)@ == old(self)@,
            !final(self)@.running,
            final(self)@.elapsed >= old(self)@.elapsed,
    {
        let delta = self.on_clock();
        self.stop_after(delta);
    }

    /// Same as `stop`.
    pub fn pause(&mut self)
        ensures
            exists|delta: u64| final(self)@ == old(self)@.stopped(delta),
            !old(self)@.running ==> final(self)@ == old(self)@,
            !final(self)@.running,
            final(self)@.elapsed >= old(self)@.elapsed,
    {
        if self.is_running() {
            self.stop();
        } else {
            assert(self@ == self@.stopped(0));
        }
    }

    /// Same as `start`.
    pub fn resume(&mut self)
        ensures
            final(self)@ == (TimerState { elapsed: old(self)@.elapsed, running: true }),
    {
        if !self.is_running() {
            self.start();
        }
    }

    /// The reading when `delta` is on the clock.
    pub fn elapsed_after(&self, delta: u64) -> (r: u64)
        ensures
            r == self@.reading(delta),
    {
        if self.running {
            self.elapsed_time.saturating_add(delta)
        } else {
            self.elapsed_time
        }
    }

    /// The accumulated time and what the clock shows on top of it.
    pub fn get_elapsed(&self) -> (r: u64)
        ensures
            exists|delta: u64| r == self@.reading(delta),
            !self@.running ==> r == self@.elapsed,
            r >= self@.elapsed,
    {
        let delta = self.on_clock();
        self.elapsed_after(delta)
    }

    /// Folds `delta` of wall time into the accumulated time at
    /// `playback_speed` millionths. A stopped timer is left as it is.
    pub fn adjust_by(&mut self, delta: u64, playback_speed: u64)
        ensures
            final(self)@ == old(self)@.adjusted(delta, playback_speed),
    {
        proof {
            use_type_invariant(&*self);
        }
        if self.running {
            assert(delta * playback_speed <= 0xffff_ffff_ffff_ffff * 0xffff_ffff_ffff_ffff)
                by (nonlinear_arith)
                requires
                    0 <= delta <= 0xffff_ffff_ffff_ffff,
                    0 <= playback_speed <= 0xffff_ffff_ffff_ffff,
            ;
            let worth: u128 = (delta as u128 * playback_speed as u128) / (UNIT as u128);
            let total: u128 = self.elapsed_time as u128 + worth;
            let elapsed_time: u64 = if total > u64::MAX as u128 {
                u64::MAX
            } else {
                total as u64
            };
            let now = clock_now();
            *self = AudioTimer { start_time: Some(now), elapsed_time, running: true };
        }
    }

    /// Folds what the clock shows into the accumulated time at
    /// `playback_speed` millionths, and starts the clock anew.
    pub fn adjust_elapsed(&mut self, playback_speed: u64)
        ensures
            exists|delta: u64| final(self)@ == old(self)@.adjusted(delta, playback_speed),
            !old(self)@.running ==> final(self)@ == old(self)@,
            final(self)@.running == old(self)@.running,
            final(self)@.elapsed >= old(self)@.elapsed,
    {
        let delta = self.on_clock();
        self.adjust_by(delta, playback_speed);
    }

    /// Sets the accumulated time, and starts the clock anew if the timer
    /// runs.
    pub fn force_elapsed(&mut self, new_elapsed: u64)
        ensures
            final(self)@ == (TimerState { elapsed: new_elapsed, running: old(self)@.running }),
    {
        proof {
            use_type_invariant(&*self);
        }
        if self.running {
            let now = clock_now();
            *self = AudioTimer { start_time: Some(now), elapsed_time: new_elapsed, running: true };
        } else {
            *self = AudioTimer { start_time: None, elapsed_time: new_elapsed, running: false };
        }
    }

    /// Stops the timer and forgets the accumulated time.
    pub fn reset(&mut self)
        ensures
            final(self)@ == (TimerState { elapsed: 0, running: false }),
    {
        *self = AudioTimer { start_time: None, elapsed_time: 0, running: false };
    }
}

} // verus!
