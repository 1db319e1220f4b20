use vstd::prelude::*;

verus! {

/// A repeating timer: it counts elapsed time up to `duration`, fires when
/// the duration is reached and carries the excess over into the next
/// round. Both fields are counted in the same unit, which the user of the
/// timer chooses.
#[derive(Clone, Copy, Debug, PartialEq, Eq, Structural)]
pub struct Timer {
    pub duration: u64,
    pub elapsed: u64,
}

impl Timer {
    /// A timer of the given duration on which no time has elapsed.
    pub open spec fn spec_new(duration: u64) -> Timer {
        Timer { duration, elapsed: 0 }
    }

    /// Whether a tick of `delta` makes the timer fire.
    pub open spec fn fires(self, delta: u64) -> bool {
        self.elapsed + delta >= self.duration
    }

    /// The time on the timer after a tick of `delta`: the sum where the
    /// timer does not fire, the sum modulo the duration where it does
    /// (zero for a timer of duration zero, which fires on every tick).
    pub open spec fn elapsed_after(self, delta: u64) -> int {
        if !self.fires(delta) {
            self.elapsed + delta
        } else if self.duration == 0 {
            0
        } else {
            (self.elapsed + delta) % (self.duration as int)
        }
    }

    /// The timer after a tick of `delta`.
    pub open spec fn after(self, delta: u64) -> Timer {
        Timer { duration: self.duration, elapsed: self.elapsed_after(delta) as u64 }
    }

    /// Creates a timer of the given duration.
    pub fn new(duration: u64) -> (timer: Timer)
        ensures
            timer == Timer::spec_new(duration),
    {
        Timer { duration, elapsed: 0 }
    }

    /// Advances the timer by `delta` and returns whether it fired.
    pub fn tick(&mut self, delta: u64) -> (fired: bool)
        ensures
            fired == old(self).fires(delta),
            *final(self) == old(self).after(delta),
            final(self).elapsed == old(self).elapsed_after(delta),
            fired && old(self).duration > 0 ==> final(self).elapsed < old(self).duration,
    {
        let total: u128 = self.elapsed as u128 + delta as u128;
        if total < self.duration as u128 {
            self.elapsed = total as u64;
            false
        } else if self.duration == 0 {
            self.elapsed = 0;
            true
        } else {
            let rest: u128 = total % (self.duration as u128);
            self.elapsed = rest as u64;
            true
        }
    }
}

} // verus!
