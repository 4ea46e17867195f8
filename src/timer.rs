use vstd::prelude::*;

verus! {

/// Whether a timer stops at its duration or wraps around and keeps counting.
#[derive(Debug, Clone, Copy, PartialEq, Eq, Structural)]
pub enum TimerMode {
    Once,
    Repeating,
}

/// A timer driven by frame time, measured in microseconds.
///
/// A `Once` timer counts up to its duration and stays there; a `Repeating`
/// timer wraps around and records how many intervals completed during the
/// last tick. A zero-length `Repeating` timer completes once on every tick;
/// a zero-length `Once` timer has run out from the start.
#[derive(Debug, Clone, Copy)]
pub struct Timer {
    pub duration: u64,
    pub elapsed: u64,
    pub mode: TimerMode,
    pub times_finished_this_tick: u64,
}

/// `a + b`, saturated at `u64::MAX`.
pub open spec fn saturating_sum(a: u64, b: u64) -> int {
    if a + b > u64::MAX {
        u64::MAX as int
    } else {
        a + b
    }
}

impl Timer {
    pub open spec fn wf(self) -> bool {
        &&& self.elapsed <= self.duration
        &&& self.mode == TimerMode::Repeating && self.duration > 0 ==> self.elapsed < self.duration
    }

    /// The timer after `delta` more microseconds have passed.
    pub open spec fn ticked(self, delta: u64) -> Timer {
        let total = saturating_sum(self.elapsed, delta);
        match self.mode {
            TimerMode::Once => {
                if self.elapsed >= self.duration {
                    Timer { times_finished_this_tick: 0, ..self }
                } else if total >= self.duration {
                    Timer { elapsed: self.duration, times_finished_this_tick: 1, ..self }
                } else {
                    Timer { elapsed: total as u64, times_finished_this_tick: 0, ..self }
                }
            },
            TimerMode::Repeating => if self.duration == 0 {
                Timer { elapsed: 0, times_finished_this_tick: 1, ..self }
            } else {
                Timer {
                    elapsed: (total % (self.duration as int)) as u64,
                    times_finished_this_tick: (total / (self.duration as int)) as u64,
                    ..self
                }
            },
        }
    }

    pub open spec fn is_finished(self) -> bool {
        match self.mode {
            TimerMode::Once => self.elapsed >= self.duration,
            TimerMode::Repeating => self.times_finished_this_tick > 0,
        }
    }

    /// A fresh timer of `duration` microseconds.
    pub fn new(duration: u64, mode: TimerMode) -> (r: Timer)
        ensures
            r.wf(),
            r.duration == duration,
            r.elapsed == 0,
            r.mode == mode,
            r.times_finished_this_tick == 0,
    {
        Timer { duration, elapsed: 0, mode, times_finished_this_tick: 0 }
    }

    /// Advances the timer by `delta` microseconds.
    pub fn tick(&mut self, delta: u64)
        requires
            old(self).wf(),
        ensures
            final(self).wf(),
            *final(self) == old(self).ticked(delta),
    {
        let total: u64 = if self.elapsed > u64::MAX - delta {
            u64::MAX
        } else {
            self.elapsed + delta
        };
        match self.mode {
            TimerMode::Once => {
                if self.elapsed >= self.duration {
                    self.times_finished_this_tick = 0;
                } else if total >= self.duration {
                    self.elapsed = self.duration;
                    self.times_finished_this_tick = 1;
                } else {
                    self.elapsed = total;
                    self.times_finished_this_tick = 0;
                }
            },
            TimerMode::Repeating => {
                if self.duration == 0 {
                    self.elapsed = 0;
                    self.times_finished_this_tick = 1;
                } else {
                    self.elapsed = total % self.duration;
                    self.times_finished_this_tick = total / self.duration;
                }
            },
        }
    }

    /// True once a `Once` timer has run out, or on a tick in which a
    /// `Repeating` timer completed at least one interval.
    pub fn finished(&self) -> (r: bool)
        ensures
            r == self.is_finished(),
    {
        match self.mode {
            TimerMode::Once => self.elapsed >= self.duration,
            TimerMode::Repeating => self.times_finished_this_tick > 0,
        }
    }

    /// True when the last tick completed at least one interval.
    pub fn just_finished(&self) -> (r: bool)
        ensures
            r == (self.times_finished_this_tick > 0),
    {
        self.times_finished_this_tick > 0
    }

    /// Opacity of a fade driven by this timer, in millionths:
    /// `1 - elapsed / duration`, rounded down, within `[0, 1_000_000]`; a
    /// zero-length fade is fully faded.
    pub fn remaining_millionths(&self) -> (r: u64)
        requires
            self.wf(),
        ensures
            r <= 1_000_000,
            self.duration == 0 ==> r == 0,
            self.duration > 0 ==> r == ((self.duration - self.elapsed) * 1_000_000) / (
            self.duration as int),
    {
        if self.duration == 0 {
            return 0;
        }
        let rest = (self.duration - self.elapsed) as u128;
        let r = rest * 1_000_000 / (self.duration as u128);
        proof {
            let d = self.duration as int;
            vstd::arithmetic::mul::lemma_mul_inequality(rest as int, d, 1_000_000);
            vstd::arithmetic::div_mod::lemma_div_is_ordered(rest * 1_000_000, d * 1_000_000, d);
            vstd::arithmetic::div_mod::lemma_div_multiples_vanish(1_000_000, d);
        }
        r as u64
    }
}

} // verus!
