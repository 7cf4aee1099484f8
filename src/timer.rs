use vstd::prelude::*;

verus! {

/// A repeating countdown measured in milliseconds. Each tick adds the
/// elapsed time; every full `duration_ms` reached counts as one completion
/// and is taken off, so the remainder carries over to the next round.
#[derive(Clone, Copy, Debug)]
pub struct Timer {
    pub duration_ms: u64,
    pub elapsed_ms: u64,
    pub times_finished: u64,
}

impl Timer {
    /// A duration that is positive and fits in 32 bits, and an elapsed time
    /// below it.
    pub open spec fn wf(self) -> bool {
        &&& 0 < self.duration_ms <= u32::MAX
        &&& self.elapsed_ms < self.duration_ms
    }

    /// The timer after `delta_ms` more milliseconds.
    pub open spec fn ticked(self, delta_ms: int) -> Timer {
        Timer {
            duration_ms: self.duration_ms,
            elapsed_ms: ((self.elapsed_ms + delta_ms) % (self.duration_ms as int)) as u64,
            times_finished: ((self.elapsed_ms + delta_ms) / (self.duration_ms as int)) as u64,
        }
    }

    /// A fresh timer that completes every `duration_ms` milliseconds.
    pub fn from_millis(duration_ms: u32) -> (r: Timer)
        requires
            duration_ms > 0,
        ensures
            r.wf(),
            r.duration_ms == duration_ms,
            r.elapsed_ms == 0,
            r.times_finished == 0,
    {
        Timer { duration_ms: duration_ms as u64, elapsed_ms: 0, times_finished: 0 }
    }

    /// Advances the timer by `delta_ms`.
    pub fn tick(&mut self, delta_ms: u32)
        requires
            old(self).wf(),
        ensures
            final(self).wf(),
            *final(self) == old(self).ticked(delta_ms as int),
            final(self).times_finished > 0 <==> old(self).elapsed_ms + delta_ms >= old(
                self,
            ).duration_ms,
    {
        let total: u64 = self.elapsed_ms + delta_ms as u64;
        proof {
            let d = self.duration_ms as int;
            let total = total as int;
            assert(total / d > 0 <==> total >= d) by (nonlinear_arith)
                requires
                    d > 0,
                    total >= 0,
            ;
            assert(total / d <= total) by (nonlinear_arith)
                requires
                    d > 0,
                    total >= 0,
            ;
        }
        self.times_finished = total / self.duration_ms;
        self.elapsed_ms = total % self.duration_ms;
    }

    /// Whether the last tick completed at least one round.
    pub fn just_finished(&self) -> (r: bool)
        ensures
            r == (self.times_finished > 0),
    {
        self.times_finished > 0
    }
}

} // verus!
