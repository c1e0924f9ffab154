use vstd::prelude::*;

verus! {

/// A countdown advanced by elapsed milliseconds. A one-shot timer stays
/// finished once it has run out until it is reset; a repeating one starts
/// over, carrying the time past its end.
#[derive(Clone, Copy, Debug, PartialEq, Eq, Structural)]
pub struct Timer {
    pub duration_ms: u64,
    pub elapsed_ms: u64,
    pub repeating: bool,
    pub finished: bool,
    /// How many times the timer ran out during the last tick.
    pub times_finished: u64,
}

/// The timer after `delta_ms` more milliseconds.
pub open spec fn ticked(t: Timer, delta_ms: u64) -> Timer {
    if !t.repeating && t.finished {
        Timer { times_finished: 0, ..t }
    } else {
        let elapsed = if t.elapsed_ms + delta_ms <= u64::MAX {
            (t.elapsed_ms + delta_ms) as u64
        } else {
            u64::MAX
        };
        if elapsed < t.duration_ms {
            Timer { elapsed_ms: elapsed, finished: false, times_finished: 0, ..t }
        } else if t.repeating {
            if t.duration_ms == 0 {
                Timer { elapsed_ms: 0, finished: true, times_finished: u64::MAX, ..t }
            } else {
                Timer {
                    elapsed_ms: (elapsed % t.duration_ms) as u64,
                    finished: true,
                    times_finished: (elapsed / t.duration_ms) as u64,
                    ..t
                }
            }
        } else {
            Timer { elapsed_ms: t.duration_ms, finished: true, times_finished: 1, ..t }
        }
    }
}

/// The timer started over.
pub open spec fn reset_of(t: Timer) -> Timer {
    Timer { elapsed_ms: 0, finished: false, times_finished: 0, ..t }
}

impl Timer {
    /// A timer at rest.
    pub open spec fn new_spec(duration_ms: u64, repeating: bool) -> Timer {
        Timer { duration_ms, elapsed_ms: 0, repeating, finished: false, times_finished: 0 }
    }

    pub fn new(duration_ms: u64, repeating: bool) -> (r: Timer)
        ensures
            r == Timer::new_spec(duration_ms, repeating),
    {
        Timer { duration_ms, elapsed_ms: 0, repeating, finished: false, times_finished: 0 }
    }

    /// Advances the timer by `delta_ms` milliseconds.
    pub fn tick(&mut self, delta_ms: u64)
        ensures
            *final(self) == ticked(*old(self), delta_ms),
    {
        if !self.repeating && self.finished {
            self.times_finished = 0;
            return;
        }
        self.elapsed_ms = self.elapsed_ms.saturating_add(delta_ms);
        if self.elapsed_ms < self.duration_ms {
            self.finished = false;
            self.times_finished = 0;
        } else if self.repeating {
            self.finished = true;
            if self.duration_ms == 0 {
                self.times_finished = u64::MAX;
                self.elapsed_ms = 0;
            } else {
                self.times_finished = self.elapsed_ms / self.duration_ms;
                self.elapsed_ms = self.elapsed_ms % self.duration_ms;
            }
        } else {
            self.finished = true;
            self.times_finished = 1;
            self.elapsed_ms = self.duration_ms;
        }
    }

    /// Whether the timer has run out (for a repeating one: during the last tick).
    pub fn finished(&self) -> (r: bool)
        ensures
            r == self.finished,
    {
        self.finished
    }

    /// Whether the timer ran out during the last tick.
    pub fn just_finished(&self) -> (r: bool)
        ensures
            r == (self.times_finished > 0),
    {
        self.times_finished > 0
    }

    /// Starts the timer over.
    pub fn reset(&mut self)
        ensures
            *final(self) == reset_of(*old(self)),
    {
        self.elapsed_ms = 0;
        self.finished = false;
        self.times_finished = 0;
    }
}

} // verus!
