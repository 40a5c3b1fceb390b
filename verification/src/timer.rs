//! Countdown/repeat timer used by every rate-limited behaviour: the player
//! fire gate, the enemy fire schedule and the hit-marker flash.
//!
//! Time is measured in microseconds. A `Once` timer saturates at its duration
//! and stays finished until reset; a `Repeating` timer wraps around and
//! reports how many period boundaries were crossed by the last tick, which
//! the recoil pattern phase depends on under frame-rate variation.

use vstd::prelude::*;

verus! {

#[derive(Clone, Copy, PartialEq, Eq, Structural, Debug)]
pub enum TimerMode {
    Once,
    Repeating,
}

#[derive(Clone, Copy, PartialEq, Eq, Structural, Debug)]
pub struct Timer {
    pub elapsed_us: u64,
    pub duration_us: u64,
    pub mode: TimerMode,
    pub finished: bool,
    /// Number of period boundaries crossed during the most recent tick.
    pub times_finished: u64,
}

impl Timer {
    /// Validity: the duration is positive, the stored elapsed time never
    /// exceeds one period, and for a `Once` timer `finished` is exactly
    /// "the elapsed time has reached the duration".
    pub open spec fn wf(self) -> bool {
        &&& self.duration_us > 0
        &&& self.elapsed_us <= self.duration_us
        &&& (self.mode is Repeating ==> self.elapsed_us < self.duration_us)
        &&& (self.mode is Once ==> (self.finished <==> self.elapsed_us == self.duration_us))
    }

    /// Functional model of one `tick(dt_us)` call.
    pub open spec fn spec_tick(self, dt_us: int) -> Timer {
        let total = self.elapsed_us + dt_us;
        match self.mode {
            TimerMode::Once => {
                if total >= self.duration_us {
                    Timer {
                        elapsed_us: self.duration_us,
                        finished: true,
                        times_finished: if self.finished { 0 } else { 1 },
                        ..self
                    }
                } else {
                    Timer { elapsed_us: total as u64, times_finished: 0, ..self }
                }
            },
            TimerMode::Repeating => {
                Timer {
                    elapsed_us: (total % (self.duration_us as int)) as u64,
                    finished: total >= self.duration_us,
                    times_finished: (total / (self.duration_us as int)) as u64,
                    ..self
                }
            },
        }
    }

    pub fn new(duration_us: u64, mode: TimerMode) -> (t: Timer)
        requires
            duration_us > 0,
        ensures
            t.wf(),
            t.duration_us == duration_us,
            t.mode == mode,
            t.elapsed_us == 0,
            !t.finished,
            t.times_finished == 0,
    {
        Timer { elapsed_us: 0, duration_us, mode, finished: false, times_finished: 0 }
    }

    /// Advance the timer by `dt_us` microseconds of wall-clock time.
    ///
    /// `Once`: elapsed time saturates at the duration; `finished` becomes and
    /// stays true the first time it is reached. `Repeating`: the elapsed time
    /// wraps, `times_finished` counts the boundaries crossed within this one
    /// call, and `finished` reports whether at least one was crossed.
    pub fn tick(&mut self, dt_us: u64)
        requires
            old(self).wf(),
            dt_us <= u64::MAX - old(self).duration_us,
        ensures
            final(self).wf(),
            *final(self) == old(self).spec_tick(dt_us as int),
    {
        match self.mode {
            TimerMode::Once => {
                let total = self.elapsed_us + dt_us;
                if total >= self.duration_us {
                    self.times_finished = if self.finished { 0 } else { 1 };
                    self.elapsed_us = self.duration_us;
                    self.finished = true;
                } else {
                    self.elapsed_us = total;
                    self.times_finished = 0;
                }
            },
            TimerMode::Repeating => {
                let total = self.elapsed_us + dt_us;
                self.times_finished = total / self.duration_us;
                self.elapsed_us = total % self.duration_us;
                self.finished = total >= self.duration_us;
                proof {
                    if total >= self.duration_us {
                        assert(total as int / self.duration_us as int >= 1) by {
                            vstd::arithmetic::div_mod::lemma_div_is_ordered(
                                self.duration_us as int,
                                total as int,
                                self.duration_us as int,
                            );
                            vstd::arithmetic::div_mod::lemma_div_by_multiple(
                                1,
                                self.duration_us as int,
                            );
                        }
                    }
                }
            },
        }
    }

    /// Zero the timer: elapsed time, `finished` and the boundary count all
    /// return to their initial state.
    pub fn reset(&mut self)
        requires
            old(self).wf(),
        ensures
            final(self).wf(),
            *final(self) == (Timer {
                elapsed_us: 0,
                finished: false,
                times_finished: 0,
                ..*old(self)
            }),
    {
        self.elapsed_us = 0;
        self.finished = false;
        self.times_finished = 0;
    }

    pub fn finished(&self) -> (r: bool)
        ensures
            r == self.finished,
    {
        self.finished
    }
}

} // verus!
