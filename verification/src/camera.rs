//! Tick bookkeeping for the camera's eased glide.
//!
//! When the local player's derived position changes, the camera starts a
//! time-parameterized ease from its current position to the new target.
//! The curve itself is a generic ease the renderer evaluates; this module
//! owns the integer timing: when the glide started, how long it runs, and
//! how far along it is, clamped once the duration has passed.

use vstd::prelude::*;

verus! {

/// The timing window of one camera ease.
pub struct CameraEase {
    start_tick: u64,
    duration_ticks: u64,
}

impl CameraEase {
    #[verifier::type_invariant]
    spec fn type_wf(self) -> bool {
        self.start_tick + self.duration_ticks <= u64::MAX
    }

    /// The tick the current ease started on.
    pub closed spec fn spec_start(&self) -> u64 {
        self.start_tick
    }

    /// How many ticks the current ease runs.
    pub closed spec fn spec_duration(&self) -> u64 {
        self.duration_ticks
    }

    /// A camera at rest: its ease is already over.
    pub fn new() -> (r: CameraEase)
        ensures
            r.spec_start() == 0,
            r.spec_duration() == 0,
    {
        CameraEase { start_tick: 0, duration_ticks: 0 }
    }

    /// Starts a fresh ease at `current_tick`, running `duration_ticks`.
    pub fn begin_ease(&mut self, current_tick: u64, duration_ticks: u64)
        requires
            current_tick + duration_ticks <= u64::MAX,
        ensures
            final(self).spec_start() == current_tick,
            final(self).spec_duration() == duration_ticks,
    {
        *self = CameraEase { start_tick: current_tick, duration_ticks };
    }

    /// Whether the ease has run its full duration by `current_tick`; from
    /// then on the camera sits on the target.
    pub fn is_settled(&self, current_tick: u64) -> (r: bool)
        ensures
            r == (current_tick >= self.spec_start() + self.spec_duration()),
    {
        proof {
            use_type_invariant(self);
        }
        current_tick >= self.start_tick + self.duration_ticks
    }

    /// How far along the ease is at `current_tick`: the elapsed ticks,
    /// clamped into the duration, and the duration itself. The renderer
    /// evaluates its curve at this fraction.
    pub fn phase(&self, current_tick: u64) -> (r: (u64, u64))
        ensures
            r.1 == self.spec_duration(),
            r.0 == if current_tick <= self.spec_start() {
                0u64
            } else if current_tick >= self.spec_start() + self.spec_duration() {
                self.spec_duration()
            } else {
                (current_tick - self.spec_start()) as u64
            },
            r.0 <= r.1,
    {
        proof {
            use_type_invariant(self);
        }
        if current_tick <= self.start_tick {
            (0, self.duration_ticks)
        } else if current_tick - self.start_tick >= self.duration_ticks {
            (self.duration_ticks, self.duration_ticks)
        } else {
            (current_tick - self.start_tick, self.duration_ticks)
        }
    }
}

} // verus!
