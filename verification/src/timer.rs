//! Timers counted in microseconds: a one-shot countdown and a repeating
//! interval.

use vstd::prelude::*;
use crate::model::COOLDOWN_US;

verus! {

/// A countdown that finishes once and then stays finished until it is reset.
#[derive(Clone, Copy, Debug, PartialEq, Eq)]
pub struct Timer {
    pub duration_us: u64,
    pub elapsed_us: u64,
    pub paused: bool,
    pub finished: bool,
}

impl Timer {
    /// The timer after `delta_us` more microseconds. A paused or finished
    /// timer stands still; a running one finishes as soon as it has counted
    /// its whole duration, and never counts past it.
    pub open spec fn ticked(self, delta_us: u64) -> Timer {
        if self.paused || self.finished {
            self
        } else if self.elapsed_us + delta_us >= self.duration_us {
            Timer { elapsed_us: self.duration_us, finished: true, ..self }
        } else {
            Timer { elapsed_us: (self.elapsed_us + delta_us) as u64, ..self }
        }
    }

    /// The timer as it stands after a reset: nothing counted, not finished.
    pub open spec fn rewound(self) -> Timer {
        Timer { elapsed_us: 0, finished: false, ..self }
    }

    /// A running countdown of the given length.
    pub fn from_micros(duration_us: u64) -> (t: Timer)
        ensures
            t == (Timer { duration_us, elapsed_us: 0, paused: false, finished: false }),
    {
        Timer { duration_us, elapsed_us: 0, paused: false, finished: false }
    }

    /// Lets `delta_us` microseconds pass.
    pub fn tick(&mut self, delta_us: u64)
        ensures
            *final(self) == old(self).ticked(delta_us),
    {
        if self.paused || self.finished {
            return ;
        }
        if self.elapsed_us >= self.duration_us || delta_us >= self.duration_us
            - self.elapsed_us {
            self.elapsed_us = self.duration_us;
            self.finished = true;
        } else {
            self.elapsed_us = self.elapsed_us + delta_us;
        }
    }

    /// Whether the countdown has run out.
    pub fn finished(&self) -> (b: bool)
        ensures
            b == self.finished,
    {
        self.finished
    }

    /// Whether the countdown stands still.
    pub fn paused(&self) -> (b: bool)
        ensures
            b == self.paused,
    {
        self.paused
    }

    /// Stops the countdown where it is.
    pub fn pause(&mut self)
        ensures
            *final(self) == (Timer { paused: true, ..*old(self) }),
    {
        self.paused = true;
    }

    /// Lets the countdown run on.
    pub fn unpause(&mut self)
        ensures
            *final(self) == (Timer { paused: false, ..*old(self) }),
    {
        self.paused = false;
    }

    /// Rewinds the countdown; whether it is paused stays as it is.
    pub fn reset(&mut self)
        ensures
            *final(self) == old(self).rewound(),
    {
        self.elapsed_us = 0;
        self.finished = false;
    }
}

/// The interval that paces the spawner. It fires whenever the time it has
/// gathered reaches its period, and keeps what is left over.
#[derive(Clone, Copy, Debug, PartialEq, Eq)]
pub struct DropTimer {
    pub period_us: u64,
    pub elapsed_us: u64,
}

impl DropTimer {
    /// The interval has a period and has gathered less than one.
    pub open spec fn wf(self) -> bool {
        self.period_us > 0 && self.elapsed_us < self.period_us
    }

    /// Whether `delta_us` more microseconds make the interval fire.
    pub open spec fn fires(self, delta_us: u64) -> bool {
        self.elapsed_us + delta_us >= self.period_us
    }

    /// The interval after `delta_us` more microseconds.
    pub open spec fn ticked(self, delta_us: u64) -> DropTimer {
        DropTimer {
            period_us: self.period_us,
            elapsed_us: ((self.elapsed_us + delta_us) % (self.period_us as int)) as u64,
        }
    }

    /// Tells whether the interval has a period and less than one period
    /// gathered.
    pub fn is_wf(&self) -> (b: bool)
        ensures
            b == self.wf(),
    {
        self.period_us > 0 && self.elapsed_us < self.period_us
    }

    /// An interval of the given period with nothing gathered yet.
    pub fn new(period_us: u64) -> (t: DropTimer)
        requires
            period_us > 0,
        ensures
            t == (DropTimer { period_us, elapsed_us: 0 }),
            t.wf(),
    {
        DropTimer { period_us, elapsed_us: 0 }
    }

    /// Lets `delta_us` microseconds pass and says whether the interval fired.
    /// A frame longer than several periods still fires once.
    pub fn tick(&mut self, delta_us: u64) -> (fired: bool)
        requires
            old(self).wf(),
        ensures
            fired == old(self).fires(delta_us),
            *final(self) == old(self).ticked(delta_us),
            final(self).wf(),
    {
        let total: u128 = self.elapsed_us as u128 + delta_us as u128;
        let period: u128 = self.period_us as u128;
        let rest: u128 = total % period;
        self.elapsed_us = rest as u64;
        total >= period
    }
}

/// What a falling object remembers of its contact with the bucket: a stone
/// carries a countdown and the push it has given; the others carry nothing.
#[derive(Clone, Copy, Debug, PartialEq, Eq)]
pub struct CollisionTracker {
    pub time: Option<Timer>,
    pub force: i64,
}

impl Default for CollisionTracker {
    fn default() -> (t: CollisionTracker)
        ensures
            t == (CollisionTracker { time: None, force: 0 }),
    {
        CollisionTracker { time: None, force: 0 }
    }
}

impl CollisionTracker {
    /// The push is bounded by the knock-back of one stone.
    pub open spec fn wf(self) -> bool {
        -600 <= self.force <= 600
    }

    /// The part of the bucket's speed that this object has added and not yet
    /// taken back: its force while its countdown runs, nothing otherwise.
    pub open spec fn pending(self) -> int {
        match self.time {
            Some(t) => if t.paused { 0 } else { self.force as int },
            None => 0,
        }
    }

    /// Whether `delta_us` more microseconds complete the countdown.
    pub open spec fn completes(self, delta_us: u64) -> bool {
        match self.time {
            Some(t) => t.ticked(delta_us).finished,
            None => false,
        }
    }

    /// The tracker after the countdown has been advanced by `delta_us`: a
    /// countdown that completes is paused and rewound at once.
    pub open spec fn advanced(self, delta_us: u64) -> CollisionTracker {
        match self.time {
            Some(t) => if t.ticked(delta_us).finished {
                CollisionTracker {
                    time: Some(Timer { paused: true, ..t.ticked(delta_us).rewound() }),
                    force: self.force,
                }
            } else {
                CollisionTracker { time: Some(t.ticked(delta_us)), force: self.force }
            },
            None => self,
        }
    }

    /// The tracker of a stone: a paused countdown and no push yet.
    pub fn new() -> (t: CollisionTracker)
        ensures
            t == (CollisionTracker {
                time: Some(
                    Timer { duration_us: 200_000, elapsed_us: 0, paused: true, finished: false },
                ),
                force: 0,
            }),
            t.wf(),
            t.pending() == 0,
    {
        let mut timer = Timer::from_micros(COOLDOWN_US);
        timer.pause();
        CollisionTracker { time: Some(timer), force: 0 }
    }

    /// Advances the countdown and says whether it completed just now.
    pub fn advance(&mut self, delta_us: u64) -> (done: bool)
        ensures
            done == old(self).completes(delta_us),
            *final(self) == old(self).advanced(delta_us),
    {
        match self.time {
            Some(mut timer) => {
                timer.tick(delta_us);
                let done = timer.finished();
                if done {
                    timer.pause();
                    timer.reset();
                }
                self.time = Some(timer);
                done
            },
            None => false,
        }
    }
}

} // verus!
