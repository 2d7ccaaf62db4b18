use vstd::prelude::*;

verus! {

/// A one-shot countdown measured in milliseconds. It counts `elapsed` up
/// to `duration` and then stays finished until it is reset.
#[derive(Clone, Copy, Debug, PartialEq, Eq, Structural)]
pub struct Timer {
    pub duration: u64,
    pub elapsed: u64,
}

/// `t` after `delta` more milliseconds have passed.
pub open spec fn ticked(t: Timer, delta: u64) -> Timer {
    Timer {
        duration: t.duration,
        elapsed: if t.elapsed + delta >= t.duration {
            t.duration
        } else {
            (t.elapsed + delta) as u64
        },
    }
}

impl Timer {
    pub open spec fn wf(self) -> bool {
        self.elapsed <= self.duration
    }

    pub open spec fn is_finished(self) -> bool {
        self.elapsed >= self.duration
    }

    /// A timer of `duration` milliseconds that has just started.
    pub fn from_millis(duration: u64) -> (r: Timer)
        ensures
            r == (Timer { duration, elapsed: 0 }),
            r.wf(),
    {
        Timer { duration, elapsed: 0 }
    }

    /// Advances the timer by `delta` milliseconds, stopping at its duration.
    pub fn tick(&mut self, delta: u64)
        requires
            old(self).wf(),
        ensures
            *final(self) == ticked(*old(self), delta),
            final(self).wf(),
    {
        if delta >= self.duration - self.elapsed {
            self.elapsed = self.duration;
        } else {
            self.elapsed = self.elapsed + delta;
        }
    }

    pub fn finished(&self) -> (r: bool)
        ensures
            r == self.is_finished(),
    {
        self.elapsed >= self.duration
    }

    /// Starts the countdown over.
    pub fn reset(&mut self)
        ensures
            *final(self) == (Timer { duration: old(self).duration, elapsed: 0 }),
    {
        self.elapsed = 0;
    }
}

} // verus!
