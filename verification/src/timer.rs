//! Countdown timers measured in nanoseconds.
//!
//! A timer counts elapsed time towards a duration. A [`TimerMode::Once`] timer stops at its
//! duration and stays finished until it is reset; a [`TimerMode::Repeating`] timer wraps around
//! and counts how many times it completed during the last tick.
use bevy::time::{Timer as BevyTimer, TimerMode as BevyTimerMode};
use std::time::Duration;
use vstd::prelude::*;

verus! {

/// Nanoseconds in one second.
pub const NANOS_PER_SEC: u128 = 1_000_000_000;

/// The longest time a timer holds, in nanoseconds: that of `std::time::Duration::MAX`, the
/// largest count of seconds and 999,999,999 nanoseconds.
pub const MAX_NANOS: u128 = 18_446_744_073_709_551_615_999_999_999;

/// Whether a timer stops when it finishes or starts over.
#[derive(Clone, Copy, Debug, PartialEq, Eq, Structural)]
pub enum TimerMode {
    Once,
    Repeating,
}

/// A timer over nanosecond durations.
#[derive(Clone, Copy, Debug)]
pub struct Timer {
    duration: u128,
    elapsed: u128,
    mode: TimerMode,
    finished: bool,
    times_finished_this_tick: u32,
}

/// The mathematical state of a [`Timer`].
pub struct TimerModel {
    pub duration: u128,
    pub elapsed: u128,
    pub mode: TimerMode,
    pub finished: bool,
    pub times_finished_this_tick: u32,
}

impl View for Timer {
    type V = TimerModel;

    closed spec fn view(&self) -> TimerModel {
        TimerModel {
            duration: self.duration,
            elapsed: self.elapsed,
            mode: self.mode,
            finished: self.finished,
            times_finished_this_tick: self.times_finished_this_tick,
        }
    }
}

/// Addition of nanosecond counts that stops at the longest time a timer holds.
pub open spec fn saturating_add_spec(a: u128, b: u128) -> u128 {
    if a + b > MAX_NANOS {
        MAX_NANOS
    } else {
        (a + b) as u128
    }
}

/// A fresh timer: nothing elapsed, not finished.
pub open spec fn new_spec(duration: u128, mode: TimerMode) -> TimerModel {
    TimerModel { duration, elapsed: 0, mode, finished: false, times_finished_this_tick: 0 }
}

/// Where a timer that is not a finished one-shot timer ends up once `elapsed` nanoseconds have
/// passed in total, as (elapsed, finished, completions this tick): short of the duration it is
/// not finished; otherwise a one-shot timer stops at its duration with one completion, while a
/// repeating timer keeps the remainder (modulo 2^64 nanoseconds) and counts the whole periods
/// (modulo 2^32; a zero-length repeating timer counts `u32::MAX` and keeps nothing).
pub open spec fn advanced(duration: u128, elapsed: u128, mode: TimerMode) -> (u128, bool, u32) {
    if elapsed >= duration {
        if mode == TimerMode::Repeating {
            if duration == 0 {
                (0, true, u32::MAX)
            } else {
                (
                    ((elapsed % duration) % 0x1_0000_0000_0000_0000) as u128,
                    true,
                    ((elapsed / duration) % 0x1_0000_0000) as u32,
                )
            }
        } else {
            (duration, true, 1)
        }
    } else {
        (elapsed, false, 0)
    }
}

/// Advancing a timer by `delta` nanoseconds.
///
/// A finished one-shot timer does not move and no longer counts as just finished. Otherwise the
/// elapsed time grows (stopping at [`MAX_NANOS`]) and the timer completes as [`advanced`] says.
pub open spec fn tick_spec(t: TimerModel, delta: u128) -> TimerModel {
    if t.mode == TimerMode::Once && t.finished {
        TimerModel { times_finished_this_tick: 0, ..t }
    } else {
        let r = advanced(t.duration, saturating_add_spec(t.elapsed, delta), t.mode);
        TimerModel { elapsed: r.0, finished: r.1, times_finished_this_tick: r.2, ..t }
    }
}

/// Advances a Bevy timer by `delta` nanoseconds: `bevy::time::Timer::tick` on a timer of the given
/// duration and mode with `elapsed` nanoseconds elapsed, that has not finished.
///
/// Trusted: the contract states what `Timer::tick` of bevy_time computes for a timer that is not
/// paused and not a finished one-shot timer: the stopwatch grows by `delta`, stopping at
/// `Duration::MAX`; the timer is finished once the elapsed time reaches the duration; a one-shot
/// timer then stops at its duration with one completion, and a repeating one keeps the remainder
/// of the elapsed time by the duration, cast to `u64` nanoseconds, and counts the quotient, cast
/// to `u32` (both zero-divisor cases give `u32::MAX` and nothing kept). `Duration::from_nanos_u128`
/// panics above `Duration::MAX`, which the precondition rules out.
#[verifier::external_body]
fn bevy_advance(duration: u128, elapsed: u128, mode: TimerMode, delta: u128) -> (r: (u128, bool, u32))
    requires
        duration <= MAX_NANOS,
        elapsed <= MAX_NANOS,
        delta <= MAX_NANOS,
    ensures
        r == advanced(duration, saturating_add_spec(elapsed, delta), mode),
{
    let mode = match mode {
        TimerMode::Once => BevyTimerMode::Once,
        TimerMode::Repeating => BevyTimerMode::Repeating,
    };
    let mut timer = BevyTimer::new(Duration::from_nanos_u128(duration), mode);
    timer.set_elapsed(Duration::from_nanos_u128(elapsed));
    timer.tick(Duration::from_nanos_u128(delta));
    (timer.elapsed().as_nanos(), timer.is_finished(), timer.times_finished_this_tick())
}

/// A reset timer: nothing elapsed and not finished, duration and mode kept.
pub open spec fn reset_spec(t: TimerModel) -> TimerModel {
    TimerModel { elapsed: 0, finished: false, times_finished_this_tick: 0, ..t }
}

/// A one-shot timer that has finished stays finished, and its elapsed time does not move, however
/// far it is advanced.
pub proof fn lemma_once_stays_finished(t: TimerModel, delta: u128)
    requires
        t.mode == TimerMode::Once,
        t.finished,
    ensures
        tick_spec(t, delta).finished,
        tick_spec(t, delta).elapsed == t.elapsed,
        tick_spec(t, delta).times_finished_this_tick == 0,
{
}

/// A one-shot timer that reaches its duration stops exactly there, finished, having completed once.
pub proof fn lemma_once_stops_at_duration(t: TimerModel, delta: u128)
    requires
        t.mode == TimerMode::Once,
        !t.finished,
        t.duration <= MAX_NANOS,
        t.elapsed + delta >= t.duration,
    ensures
        tick_spec(t, delta).elapsed == t.duration,
        tick_spec(t, delta).finished,
        tick_spec(t, delta).times_finished_this_tick == 1,
{
}

/// A repeating timer of positive duration always keeps less than its duration elapsed, namely
/// what is left over of the total elapsed time by whole periods (for a period of at most 2^64
/// nanoseconds), and counts those periods.
pub proof fn lemma_repeating_wraps(t: TimerModel, delta: u128)
    requires
        t.mode == TimerMode::Repeating,
        t.duration > 0,
        t.elapsed + delta <= MAX_NANOS,
    ensures
        tick_spec(t, delta).elapsed < t.duration,
        t.duration <= 0x1_0000_0000_0000_0000 ==> tick_spec(t, delta).elapsed == (t.elapsed + delta)
            % (t.duration as int),
        tick_spec(t, delta).finished == (t.elapsed + delta >= t.duration),
        t.elapsed + delta < 0x1_0000_0000 * t.duration ==> tick_spec(t, delta).times_finished_this_tick
            == (t.elapsed + delta) / (t.duration as int),
{
    let total = (t.elapsed + delta) as int;
    let d = t.duration as int;
    if total >= d {
        assert(total % d < d) by (nonlinear_arith)
            requires
                d > 0,
        ;
        assert(total % d % 0x1_0000_0000_0000_0000 <= total % d) by (nonlinear_arith)
            requires
                d > 0,
                total % d >= 0,
        ;
        assert(total % d % 0x1_0000_0000_0000_0000 == total % d <== d <= 0x1_0000_0000_0000_0000)
            by (nonlinear_arith)
            requires
                0 <= total % d < d,
        ;
        assert(total / d < 0x1_0000_0000 <== total < 0x1_0000_0000 * d) by (nonlinear_arith)
            requires
                d > 0,
                total >= 0,
        ;
    } else {
        assert(total % d == total) by (nonlinear_arith)
            requires
                0 <= total < d,
        ;
        assert(total / d == 0) by (nonlinear_arith)
            requires
                0 <= total < d,
        ;
    }
}

/// Advancing a timer by the time it has left finishes it; advancing a running timer by one
/// nanosecond less does not.
pub proof fn lemma_finish_and_almost_finish(t: TimerModel)
    requires
        t.elapsed < t.duration,
        t.duration <= MAX_NANOS,
        !(t.mode == TimerMode::Once && t.finished),
    ensures
        tick_spec(t, (t.duration - t.elapsed) as u128).finished,
        tick_spec(t, (t.duration - t.elapsed) as u128).times_finished_this_tick >= 1,
        !tick_spec(t, (t.duration - t.elapsed - 1) as u128).finished,
        tick_spec(t, (t.duration - t.elapsed - 1) as u128).elapsed == t.duration - 1,
{
    if t.mode == TimerMode::Repeating {
        assert(t.duration as int / t.duration as int == 1) by (nonlinear_arith)
            requires
                t.duration > 0,
        ;
    }
}

/// A reset timer starts over from nothing: it is not finished, and it stays unfinished for any
/// advance shorter than its duration.
pub proof fn lemma_reset_restarts(t: TimerModel, delta: u128)
    requires
        delta < t.duration,
        t.duration <= MAX_NANOS,
    ensures
        !reset_spec(t).finished,
        reset_spec(t).elapsed == 0,
        !tick_spec(reset_spec(t), delta).finished,
        tick_spec(reset_spec(t), delta).elapsed == delta,
{
}

impl Timer {
    /// Every timer holds at most the longest time a `Duration` holds.
    #[verifier::type_invariant]
    spec fn within_range(self) -> bool {
        self.duration <= MAX_NANOS && self.elapsed <= MAX_NANOS
    }

    /// Creates a timer of the given duration (in nanoseconds) and mode.
    pub fn new(duration: u128, mode: TimerMode) -> (t: Timer)
        requires
            duration <= MAX_NANOS,
        ensures
            t@ == new_spec(duration, mode),
    {
        Timer { duration, elapsed: 0, mode, finished: false, times_finished_this_tick: 0 }
    }

    /// Rebuilds a timer from its parts, as read back by the accessors of another timer.
    pub fn from_parts(
        duration: u128,
        elapsed: u128,
        mode: TimerMode,
        finished: bool,
        times_finished_this_tick: u32,
    ) -> (t: Timer)
        requires
            duration <= MAX_NANOS,
            elapsed <= MAX_NANOS,
        ensures
            t@ == (TimerModel { duration, elapsed, mode, finished, times_finished_this_tick }),
    {
        Timer { duration, elapsed, mode, finished, times_finished_this_tick }
    }

    /// Whether the timer has reached its duration (for a repeating timer: during the last tick).
    pub fn is_finished(&self) -> (b: bool)
        ensures
            b == self@.finished,
    {
        self.finished
    }

    /// Whether the timer completed at least once during the last tick.
    pub fn just_finished(&self) -> (b: bool)
        ensures
            b == (self@.times_finished_this_tick > 0),
    {
        self.times_finished_this_tick > 0
    }

    /// How many times the timer completed during the last tick.
    pub fn times_finished_this_tick(&self) -> (n: u32)
        ensures
            n == self@.times_finished_this_tick,
    {
        self.times_finished_this_tick
    }

    /// Elapsed nanoseconds, never more than [`MAX_NANOS`].
    pub fn elapsed(&self) -> (e: u128)
        ensures
            e == self@.elapsed,
            e <= MAX_NANOS,
    {
        proof {
            use_type_invariant(self);
        }
        self.elapsed
    }

    /// Duration in nanoseconds, never more than [`MAX_NANOS`].
    pub fn duration(&self) -> (d: u128)
        ensures
            d == self@.duration,
            d <= MAX_NANOS,
    {
        proof {
            use_type_invariant(self);
        }
        self.duration
    }

    /// Whole seconds of the duration.
    pub fn duration_secs(&self) -> (s: u64)
        ensures
            s == self@.duration / NANOS_PER_SEC,
    {
        proof {
            use_type_invariant(self);
        }
        (self.duration / NANOS_PER_SEC) as u64
    }

    /// The mode of the timer.
    pub fn mode(&self) -> (m: TimerMode)
        ensures
            m == self@.mode,
    {
        self.mode
    }

    /// Nanoseconds left until the duration; the elapsed time must not exceed the duration.
    pub fn remaining(&self) -> (r: u128)
        requires
            self@.elapsed <= self@.duration,
        ensures
            r == self@.duration - self@.elapsed,
    {
        self.duration - self.elapsed
    }

    /// Sets the elapsed time.
    pub fn set_elapsed(&mut self, elapsed: u128)
        requires
            elapsed <= MAX_NANOS,
        ensures
            final(self)@ == (TimerModel { elapsed, ..old(self)@ }),
    {
        proof {
            use_type_invariant(&*self);
        }
        self.elapsed = elapsed;
    }

    /// Sets the duration.
    pub fn set_duration(&mut self, duration: u128)
        requires
            duration <= MAX_NANOS,
        ensures
            final(self)@ == (TimerModel { duration, ..old(self)@ }),
    {
        proof {
            use_type_invariant(&*self);
        }
        self.duration = duration;
    }

    /// Advances the timer by `delta` nanoseconds.
    pub fn tick(&mut self, delta: u128)
        ensures
            final(self)@ == tick_spec(old(self)@, delta),
    {
        proof {
            use_type_invariant(&*self);
        }
        if self.mode == TimerMode::Once && self.finished {
            self.times_finished_this_tick = 0;
            return;
        }
        let step = if delta > MAX_NANOS {
            MAX_NANOS
        } else {
            delta
        };
        let (elapsed, finished, times) = bevy_advance(self.duration, self.elapsed, self.mode, step);
        proof {
            let total = saturating_add_spec(self.elapsed, step);
            let d = self.duration as int;
            if total >= d && self.mode == TimerMode::Repeating && d != 0 {
                assert((total as int % d) % 0x1_0000_0000_0000_0000 <= total as int % d)
                    by (nonlinear_arith)
                    requires
                        d > 0,
                        total >= 0,
                ;
                assert(total as int % d < d) by (nonlinear_arith)
                    requires
                        d > 0,
                ;
            }
        }
        self.elapsed = elapsed;
        self.finished = finished;
        self.times_finished_this_tick = times;
    }

    /// Starts the timer over: nothing elapsed, not finished.
    pub fn reset(&mut self)
        ensures
            final(self)@ == reset_spec(old(self)@),
    {
        proof {
            use_type_invariant(&*self);
        }
        self.elapsed = 0;
        self.finished = false;
        self.times_finished_this_tick = 0;
    }

    /// Advances the timer by exactly the time it has left.
    pub fn finish(&mut self)
        requires
            old(self)@.elapsed <= old(self)@.duration,
        ensures
            final(self)@ == tick_spec(old(self)@, (old(self)@.duration - old(self)@.elapsed) as u128),
    {
        let remaining = self.remaining();
        self.tick(remaining);
    }

    /// Advances the timer to one nanosecond before it would finish; it must have time left.
    pub fn almost_finish(&mut self)
        requires
            old(self)@.elapsed < old(self)@.duration,
        ensures
            final(self)@ == tick_spec(
                old(self)@,
                (old(self)@.duration - old(self)@.elapsed - 1) as u128,
            ),
    {
        let remaining = self.remaining() - 1;
        self.tick(remaining);
    }
}

} // verus!
