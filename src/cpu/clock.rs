//! The cycle counter.
use vstd::prelude::*;

verus! {

/// Cycles that one machine step takes.
pub const CYCLE_INCREMENT: usize = 4;

/// Clock speed modes.
#[derive(Clone, Copy, Debug, PartialEq, Eq, Structural)]
pub enum Frequency {
    Single,
    Double,
}

/// A cycle counter running at a given speed.
pub struct Clock {
    freq: Frequency,
    time: usize,
}

impl Clock {
    /// The cycles counted so far.
    pub closed spec fn time_spec(&self) -> nat {
        self.time as nat
    }

    /// The speed mode.
    pub closed spec fn freq_spec(&self) -> Frequency {
        self.freq
    }

    pub fn new(freq: Frequency) -> (r: Clock)
        ensures
            r.time_spec() == 0,
            r.freq_spec() == freq,
    {
        Clock::new_start_time(0, freq)
    }

    pub fn new_start_time(time: usize, freq: Frequency) -> (r: Clock)
        ensures
            r.time_spec() == time,
            r.freq_spec() == freq,
    {
        Clock { time, freq }
    }

    /// Advances by one machine step.
    pub fn incr(&mut self)
        requires
            old(self).time_spec() + CYCLE_INCREMENT <= usize::MAX,
        ensures
            final(self).time_spec() == old(self).time_spec() + CYCLE_INCREMENT,
            final(self).freq_spec() == old(self).freq_spec(),
    {
        self.time = self.time + CYCLE_INCREMENT;
    }

    /// Advances by `n` machine steps.
    pub fn incr_n(&mut self, n: usize)
        requires
            old(self).time_spec() + CYCLE_INCREMENT * n <= usize::MAX,
        ensures
            final(self).time_spec() == old(self).time_spec() + CYCLE_INCREMENT * n,
            final(self).freq_spec() == old(self).freq_spec(),
    {
        self.time = self.time + CYCLE_INCREMENT * n;
    }

    pub fn time(&self) -> (r: usize)
        ensures
            r == self.time_spec(),
    {
        self.time
    }
}

} // verus!
