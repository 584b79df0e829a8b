//! A frame timer held as plain numbers, advanced by the engine's own timer.

use std::time::Duration;
use vstd::prelude::*;

verus! {

/// Nanoseconds in one millisecond.
pub const NANOS_PER_MILLI: u128 = 1_000_000;

/// Nanoseconds in one second.
pub const NANOS_PER_SEC: u128 = 1_000_000_000;

/// What a timer does once its period has elapsed.
#[derive(Clone, Copy, Debug, PartialEq, Eq, Structural)]
pub enum TimerMode {
    /// Finish once and stay finished.
    Once,
    /// Start the next period at once.
    Repeating,
}

/// The state of a timer after one tick.
#[derive(Clone, Copy, Debug, PartialEq, Eq, Structural)]
pub struct Ticked {
    /// Time into the current period, in nanoseconds.
    pub elapsed_ns: u128,
    /// Whether the period was reached by this tick.
    pub finished: bool,
    /// How many periods this tick completed.
    pub times_finished: u32,
}

/// What one tick of `delta_ns` makes of a running timer that has not finished
/// and has `elapsed_ns` behind it.
pub open spec fn tick_model(mode: TimerMode, period_ms: u64, elapsed_ns: u128, delta_ns: u64) -> Ticked {
    let period = period_ms as int * 1_000_000;
    let total = elapsed_ns as int + delta_ns as int;
    if total < period {
        Ticked { elapsed_ns: total as u128, finished: false, times_finished: 0 }
    } else if mode == TimerMode::Once {
        Ticked { elapsed_ns: period as u128, finished: true, times_finished: 1 }
    } else if period == 0 {
        Ticked { elapsed_ns: 0, finished: true, times_finished: u32::MAX }
    } else {
        Ticked {
            elapsed_ns: ((total % period) % 0x1_0000_0000_0000_0000) as u128,
            finished: true,
            times_finished: ((total / period) % 0x1_0000_0000) as u32,
        }
    }
}

/// Runs `bevy::time::Timer::tick` on a newly made timer of the given mode and
/// period whose elapsed time was set to `elapsed_secs` seconds and
/// `elapsed_subsec_ns` nanoseconds, and reads the timer back.
///
/// The contract restates `Timer::tick` for a timer that is neither paused nor
/// finished: the elapsed time grows by `delta_ns`; below the period nothing
/// else happens; from the period on a one-shot timer stops at its period,
/// while a repeating timer keeps the remainder and counts the whole periods,
/// the count cut to 32 bits and the remainder to 64 bits of nanoseconds as
/// the engine cuts them.
#[verifier::external_body]
fn tick_engine_timer(
    mode: TimerMode,
    period_ms: u64,
    elapsed_secs: u64,
    elapsed_subsec_ns: u32,
    delta_ns: u64,
) -> (out: Ticked)
    requires
        elapsed_subsec_ns < 1_000_000_000,
        elapsed_secs * 1_000_000_000 + elapsed_subsec_ns <= period_ms * 1_000_000,
    ensures
        out == tick_model(
            mode,
            period_ms,
            (elapsed_secs * 1_000_000_000 + elapsed_subsec_ns) as u128,
            delta_ns,
        ),
{
    let engine_mode = match mode {
        TimerMode::Once => bevy::time::TimerMode::Once,
        TimerMode::Repeating => bevy::time::TimerMode::Repeating,
    };
    let mut timer = bevy::time::Timer::new(Duration::from_millis(period_ms), engine_mode);
    timer.set_elapsed(Duration::new(elapsed_secs, elapsed_subsec_ns));
    timer.tick(Duration::from_nanos(delta_ns));
    Ticked {
        elapsed_ns: timer.elapsed().as_nanos(),
        finished: timer.finished(),
        times_finished: timer.times_finished_this_tick(),
    }
}

/// A timer that measures one period, once or over and over.
#[derive(Clone, Copy, Debug, PartialEq, Eq, Structural)]
pub struct FrameTimer {
    /// Whether the timer stops at its period or starts over.
    pub mode: TimerMode,
    /// Length of one period, in milliseconds.
    pub period_ms: u64,
    /// Time into the current period, in nanoseconds.
    pub elapsed_ns: u128,
    /// Whether the latest tick reached the period; a one-shot timer keeps it.
    pub finished: bool,
    /// How many periods the latest tick completed.
    pub times_finished: u32,
}

impl FrameTimer {
    /// The elapsed time never passes the period.
    pub open spec fn wf(self) -> bool {
        self.elapsed_ns <= self.period_ms * 1_000_000
    }

    /// The timer after a tick of `delta_ns` nanoseconds. A one-shot timer
    /// that has finished only forgets that it finished on the tick before.
    pub open spec fn ticked(self, delta_ns: u64) -> FrameTimer {
        if self.mode == TimerMode::Once && self.finished {
            FrameTimer { times_finished: 0, ..self }
        } else {
            let t = tick_model(self.mode, self.period_ms, self.elapsed_ns, delta_ns);
            FrameTimer {
                elapsed_ns: t.elapsed_ns,
                finished: t.finished,
                times_finished: t.times_finished,
                ..self
            }
        }
    }

    /// A timer at the start of its first period.
    pub open spec fn fresh(period_ms: u64, mode: TimerMode) -> FrameTimer {
        FrameTimer { mode, period_ms, elapsed_ns: 0, finished: false, times_finished: 0 }
    }

    /// A timer at the start of its first period.
    pub fn new(period_ms: u64, mode: TimerMode) -> (timer: FrameTimer)
        ensures
            timer == FrameTimer::fresh(period_ms, mode),
            timer.wf(),
    {
        FrameTimer { mode, period_ms, elapsed_ns: 0, finished: false, times_finished: 0 }
    }

    /// Whether the timer is well formed, for callers that cannot prove it.
    pub fn is_valid(&self) -> (valid: bool)
        ensures
            valid == self.wf(),
    {
        let period: u128 = self.period_ms as u128 * NANOS_PER_MILLI;
        self.elapsed_ns <= period
    }

    /// Advances the timer by `delta_ns` nanoseconds.
    pub fn tick(&mut self, delta_ns: u64)
        requires
            old(self).wf(),
        ensures
            *final(self) == old(self).ticked(delta_ns),
            final(self).wf(),
    {
        if self.mode == TimerMode::Once && self.finished {
            self.times_finished = 0;
        } else {
            let secs: u64 = (self.elapsed_ns / NANOS_PER_SEC) as u64;
            let subsec: u32 = (self.elapsed_ns % NANOS_PER_SEC) as u32;
            let out = tick_engine_timer(self.mode, self.period_ms, secs, subsec, delta_ns);
            proof {
                lemma_tick_model_bounded(self.mode, self.period_ms, self.elapsed_ns, delta_ns);
            }
            self.elapsed_ns = out.elapsed_ns;
            self.finished = out.finished;
            self.times_finished = out.times_finished;
        }
    }

    /// Whether the timer has reached its period.
    pub fn finished(&self) -> (done: bool)
        ensures
            done == self.finished,
    {
        self.finished
    }

    /// Whether the latest tick completed a period.
    pub fn just_finished(&self) -> (done: bool)
        ensures
            done == (self.times_finished > 0),
    {
        self.times_finished > 0
    }
}

/// A tick never leaves more elapsed time than one period.
pub proof fn lemma_tick_model_bounded(mode: TimerMode, period_ms: u64, elapsed_ns: u128, delta_ns: u64)
    requires
        elapsed_ns <= period_ms * 1_000_000,
    ensures
        tick_model(mode, period_ms, elapsed_ns, delta_ns).elapsed_ns <= period_ms * 1_000_000,
{
    let period = period_ms as int * 1_000_000;
    let total = elapsed_ns as int + delta_ns as int;
    if total >= period && mode == TimerMode::Repeating && period != 0 {
        let rest = total % period;
        assert(0 <= rest < period) by (nonlinear_arith)
            requires
                rest == total % period,
                period > 0,
        ;
        assert(0 <= rest % 0x1_0000_0000_0000_0000 <= rest);
    }
}

} // verus!
