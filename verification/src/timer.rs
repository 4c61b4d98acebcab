//! A countdown timer over integer nanoseconds.
//!
//! A timer enters the finished state once its elapsed time reaches its
//! duration. A timer that does not repeat then stops and stays finished until
//! it is reset. A repeating timer wraps around, and is finished only on the
//! ticks on which it reached its duration.
//!
//! [`Timer`] holds the state of a timer as plain values. The ticking itself
//! is done by the engine's timer, `bevy::time::Timer`: [`Timer::tick`] hands
//! the state over, lets the engine advance it and takes the new state back.
//! What this file states of a tick is what the engine's `tick` does; it is
//! relied on, not proved.

use vstd::prelude::*;
use std::time::Duration;

verus! {

/// The number of nanoseconds in a second.
pub const NANOS_PER_SECOND: u64 = 1_000_000_000;

/// Tracks elapsed time against a duration. All times are in nanoseconds.
#[derive(Clone, Copy, Debug, PartialEq, Eq, Structural)]
pub struct Timer {
    /// The time after which the timer finishes.
    pub duration: u64,
    /// The time counted so far.
    pub elapsed: u64,
    /// Does the timer start over when it finishes?
    pub repeating: bool,
    /// Has the timer reached its duration?
    pub finished: bool,
    /// How often the timer reached its duration during the last tick.
    pub times_finished_this_tick: u32,
}

impl Timer {
    /// A fresh timer: nothing elapsed, not finished.
    pub open spec fn fresh(duration: u64, repeating: bool) -> Timer {
        Timer { duration, elapsed: 0, repeating, finished: false, times_finished_this_tick: 0 }
    }

    /// Can the timer be advanced by `delta`? A timer that does not repeat
    /// always can. A repeating timer counts how often it finished on a tick:
    /// it needs a duration to count by, and the count must fit 32 bits.
    pub open spec fn tickable(self, delta: u64) -> bool {
        self.repeating ==> self.duration > 0 && (self.elapsed + delta) / (self.duration as int)
            <= u32::MAX
    }

    /// The timer after `delta` more nanoseconds.
    ///
    /// * A timer that does not repeat and is finished stays as it is, but no
    ///   longer counts as having finished on this tick.
    /// * A timer that stays short of its duration only adds `delta`.
    /// * A timer that reaches its duration finishes. If it repeats, it counts
    ///   the whole durations that fit into the elapsed time and keeps the
    ///   remainder; if not, it stops at its duration.
    pub open spec fn ticked(self, delta: u64) -> Timer
        recommends
            self.tickable(delta),
    {
        let total = self.elapsed + delta;
        if !self.repeating && self.finished {
            Timer { times_finished_this_tick: 0, ..self }
        } else if total < self.duration {
            Timer {
                elapsed: total as u64,
                finished: false,
                times_finished_this_tick: 0,
                ..self
            }
        } else if self.repeating {
            Timer {
                elapsed: (total % (self.duration as int)) as u64,
                finished: true,
                times_finished_this_tick: (total / (self.duration as int)) as u32,
                ..self
            }
        } else {
            Timer {
                elapsed: self.duration,
                finished: true,
                times_finished_this_tick: 1,
                ..self
            }
        }
    }

    /// The timer with nothing elapsed and not finished; duration and mode stay.
    pub open spec fn restarted(self) -> Timer {
        Timer { elapsed: 0, finished: false, times_finished_this_tick: 0, ..self }
    }

    /// Did the timer reach its duration on the last tick?
    pub open spec fn finished_this_tick(self) -> bool {
        self.times_finished_this_tick > 0
    }

    /// A new timer with the given duration.
    pub fn new(duration: u64, repeating: bool) -> (timer: Timer)
        ensures
            timer == Self::fresh(duration, repeating),
    {
        Timer { duration, elapsed: 0, repeating, finished: false, times_finished_this_tick: 0 }
    }

    /// Has the timer reached its duration?
    pub fn finished(&self) -> (done: bool)
        ensures
            done == self.finished,
    {
        self.finished
    }

    /// Did the timer reach its duration on the last tick?
    pub fn just_finished(&self) -> (done: bool)
        ensures
            done == self.finished_this_tick(),
    {
        self.times_finished_this_tick > 0
    }

    /// The time counted so far.
    pub fn elapsed(&self) -> (nanos: u64)
        ensures
            nanos == self.elapsed,
    {
        self.elapsed
    }

    /// The time after which the timer finishes.
    pub fn duration(&self) -> (nanos: u64)
        ensures
            nanos == self.duration,
    {
        self.duration
    }

    /// Does the timer start over when it finishes?
    pub fn repeating(&self) -> (repeats: bool)
        ensures
            repeats == self.repeating,
    {
        self.repeating
    }

    /// Changes the duration and nothing else: the elapsed time and the
    /// finished state are kept until the next tick.
    pub fn set_duration(&mut self, duration: u64)
        ensures
            *final(self) == (Timer { duration, ..*old(self) }),
    {
        self.duration = duration;
    }

    /// Starts the timer over.
    pub fn reset(&mut self)
        ensures
            *final(self) == old(self).restarted(),
    {
        self.elapsed = 0;
        self.finished = false;
        self.times_finished_this_tick = 0;
    }

    /// Tells whether the timer can be advanced by `delta`.
    pub fn is_tickable(&self, delta: u64) -> (can: bool)
        ensures
            can == self.tickable(delta),
    {
        if !self.repeating {
            true
        } else if self.duration == 0 {
            false
        } else {
            let total: u128 = self.elapsed as u128 + delta as u128;
            total / (self.duration as u128) <= u32::MAX as u128
        }
    }

    /// Advances the timer by `delta` nanoseconds.
    pub fn tick(&mut self, delta: u64)
        requires
            old(self).tickable(delta),
        ensures
            *final(self) == old(self).ticked(delta),
    {
        *self = engine_tick(*self, delta);
    }
}

/// Advances a timer with the engine's `bevy::time::Timer::tick`.
///
/// The body puts the five values into an engine timer, ticks it and reads
/// the five values back. The contract says what the engine's `tick` does to
/// a timer that is not paused: a finished timer that does not repeat only
/// clears its count; otherwise `delta` is added, the timer is finished if the
/// sum has reached the duration, a repeating timer then keeps the remainder
/// and counts the whole durations, and any other stops at its duration.
///
/// Left out by `requires` are the repeating timers on which the engine
/// divides by a duration of zero, and those whose count does not fit the
/// engine's 32 bits.
#[verifier::external_body]
fn engine_tick(timer: Timer, delta: u64) -> (after: Timer)
    requires
        timer.tickable(delta),
    ensures
        after == timer.ticked(delta),
{
    let mut engine = bevy::time::Timer::new(Duration::from_nanos(timer.duration), timer.repeating);
    engine.set_elapsed(Duration::from_nanos(timer.elapsed));
    *bevy::reflect::GetField::get_field_mut::<bool>(&mut engine, "finished").unwrap() =
        timer.finished;
    engine.tick(Duration::from_nanos(delta));
    Timer {
        duration: engine.duration().as_nanos() as u64,
        elapsed: engine.elapsed().as_nanos() as u64,
        repeating: engine.repeating(),
        finished: engine.finished(),
        times_finished_this_tick: engine.times_finished_this_tick(),
    }
}

/// A tick that reaches the duration finishes the timer on that very tick, and
/// one that falls short of it does not: the boundary itself counts as reached.
pub proof fn lemma_tick_finishes_at_duration(timer: Timer, delta: u64)
    requires
        timer.tickable(delta),
        timer.repeating || !timer.finished,
    ensures
        timer.ticked(delta).finished <==> timer.elapsed + delta >= timer.duration,
        timer.ticked(delta).finished_this_tick() <==> timer.elapsed + delta >= timer.duration,
{
    let total = timer.elapsed + delta;
    if total >= timer.duration && timer.repeating {
        assert(total / (timer.duration as int) >= 1) by (nonlinear_arith)
            requires
                total >= timer.duration,
                timer.duration > 0,
        ;
    }
}

/// A timer that cannot be advanced by `delta` would reach its duration on
/// that tick.
pub proof fn lemma_untickable_reaches_duration(timer: Timer, delta: u64)
    requires
        !timer.tickable(delta),
    ensures
        timer.elapsed + delta >= timer.duration,
{
    let total = timer.elapsed + delta;
    if timer.duration > 0 && total < timer.duration {
        assert(total / (timer.duration as int) == 0) by (nonlinear_arith)
            requires
                0 <= total < timer.duration,
        ;
    }
}

/// A timer that does not repeat finishes once: after the tick on which it
/// finished, further ticks leave it finished and change nothing else.
pub proof fn lemma_finished_timer_rests(timer: Timer, delta: u64)
    requires
        !timer.repeating,
        timer.finished,
    ensures
        timer.tickable(delta),
        timer.ticked(delta).finished,
        !timer.ticked(delta).finished_this_tick(),
        timer.ticked(delta).elapsed == timer.elapsed,
        timer.ticked(delta).duration == timer.duration,
{
}

/// After a tick the elapsed time of a timer never exceeds its duration,
/// provided it did not before.
pub proof fn lemma_elapsed_within_duration(timer: Timer, delta: u64)
    requires
        timer.tickable(delta),
        timer.elapsed <= timer.duration,
    ensures
        timer.ticked(delta).elapsed <= timer.duration,
        timer.repeating ==> timer.ticked(delta).elapsed < timer.duration,
{
    let total = timer.elapsed + delta;
    if timer.duration > 0 {
        assert(0 <= total % (timer.duration as int) < timer.duration) by (nonlinear_arith)
            requires
                timer.duration > 0,
        ;
    }
}

} // verus!
