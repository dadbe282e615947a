//! Interrupt-driven elapsed-time counter.
//!
//! The hardware arranges for [`Timer::on_interrupt`] to run at a fixed period;
//! between interrupts the main loop pauses, resumes, resets and reads the
//! counter. On the device every one of these accesses happens inside a
//! critical section (the interrupt source is disabled for its duration), so
//! the interleaving is equivalent to the sequential calls modelled here. The
//! fields are private: consumers go through the synchronized accessors, never
//! through the shared state itself.
//!
//! No wraparound handling beyond the natural range of the counter type:
//! sessions run on the order of tens of minutes.

use vstd::prelude::*;

verus! {

pub const PRESCALER: u16 = 64;
pub const TIMER_COUNTS: u16 = 250;

/// Milliseconds that one hardware interrupt period covers
pub const MILLIS_INCREMENT: u16 = PRESCALER * TIMER_COUNTS / 16000;

pub struct Timer {
    paused: bool,
    millis: u16,
    seconds: u16,
}

impl Timer {
    /// Whether the counter is paused: a paused timer ignores interrupts.
    pub closed spec fn paused(&self) -> bool {
        self.paused
    }

    /// The millisecond accumulator.
    pub closed spec fn millis(&self) -> u16 {
        self.millis
    }

    /// The second accumulator.
    pub closed spec fn seconds(&self) -> u16 {
        self.seconds
    }

    /// The millisecond accumulator never runs past the point where the next
    /// interrupt folds it into the second accumulator.
    pub open spec fn wf(&self) -> bool {
        self.millis() <= 1000
    }

    /// A fresh timer: zeroed and paused until something starts timing.
    pub fn new() -> (r: Self)
        ensures
            r.paused(),
            r.millis() == 0,
            r.seconds() == 0,
            r.wf(),
    {
        Self { paused: true, millis: 0, seconds: 0 }
    }

    /// Stop counting; the accumulators keep their values.
    pub fn pause(&mut self)
        ensures
            final(self).paused(),
            final(self).millis() == old(self).millis(),
            final(self).seconds() == old(self).seconds(),
    {
        self.paused = true;
    }

    /// Start counting again from the accumulated values.
    pub fn resume(&mut self)
        ensures
            !final(self).paused(),
            final(self).millis() == old(self).millis(),
            final(self).seconds() == old(self).seconds(),
    {
        self.paused = false;
    }

    /// Zero both accumulators; the pause flag keeps its value.
    pub fn reset(&mut self)
        ensures
            final(self).paused() == old(self).paused(),
            final(self).millis() == 0,
            final(self).seconds() == 0,
            final(self).wf(),
    {
        self.millis = 0;
        self.seconds = 0;
    }

    /// Whether the counter is currently paused.
    pub fn is_paused(&self) -> (r: bool)
        ensures
            r == self.paused(),
    {
        self.paused
    }

    /// Seconds elapsed since the last reset, not counting paused stretches.
    pub fn elapsed_s(&self) -> (r: u16)
        ensures
            r == self.seconds(),
    {
        self.seconds
    }

    /// One hardware interrupt period: when not paused, advance the
    /// millisecond accumulator by the per-period amount, folding a full
    /// second into the second accumulator once a thousand have gathered.
    pub fn on_interrupt(&mut self)
        requires
            old(self).wf(),
            old(self).seconds() < u16::MAX,
        ensures
            final(self).wf(),
            final(self).paused() == old(self).paused(),
            old(self).paused() ==> *final(self) == *old(self),
            !old(self).paused() && old(self).millis() >= 1000 ==> final(self).millis() == 0
                && final(self).seconds() == old(self).seconds() + 1,
            !old(self).paused() && old(self).millis() < 1000 ==> final(self).millis() == old(
                self,
            ).millis() + MILLIS_INCREMENT && final(self).seconds() == old(self).seconds(),
    {
        if !self.paused {
            if self.millis >= 1000 {
                self.millis = 0;
                self.seconds = self.seconds + 1;
            } else {
                self.millis = self.millis + MILLIS_INCREMENT;
            }
        }
    }
}

} // verus!
