//! The projectile fuse: a monotonic countdown timer that reaches a terminal
//! finished state exactly once.

use vstd::prelude::*;
use crate::params::DT_LIMIT_MS;

verus! {

/// A countdown timer. It accumulates elapsed time, capped at its duration,
/// and is finished once the accumulated time reaches the duration.
#[derive(Clone, Copy, Debug, PartialEq, Eq, Structural)]
pub struct Fuse {
    pub elapsed_ms: u64,
    pub duration_ms: u64,
}

/// The elapsed time never exceeds the duration, and both stay within the
/// tick-time guard.
pub open spec fn fuse_wf(f: Fuse) -> bool {
    &&& f.elapsed_ms <= f.duration_ms
    &&& f.duration_ms <= DT_LIMIT_MS
}

/// The fuse after one tick of `dt` milliseconds.
pub open spec fn fuse_after_spec(f: Fuse, dt: u64) -> Fuse {
    Fuse {
        elapsed_ms: vstd::math::min(f.elapsed_ms + dt, f.duration_ms as int) as u64,
        duration_ms: f.duration_ms,
    }
}

/// The fuse has reached its terminal state.
pub open spec fn fuse_finished(f: Fuse) -> bool {
    f.elapsed_ms >= f.duration_ms
}

impl Fuse {
    pub fn new(duration_ms: u64) -> (f: Fuse)
        requires
            duration_ms <= DT_LIMIT_MS,
        ensures
            f == (Fuse { elapsed_ms: 0u64, duration_ms }),
            fuse_wf(f),
    {
        Fuse { elapsed_ms: 0, duration_ms }
    }

    /// Advance the fuse by `dt`. The elapsed time is non-decreasing, a
    /// finished fuse stays finished, and the fuse finishes on exactly the
    /// tick where the accumulated elapsed time first reaches the duration.
    pub fn tick(&mut self, dt: u64)
        requires
            fuse_wf(*old(self)),
            dt <= DT_LIMIT_MS,
        ensures
            *final(self) == fuse_after_spec(*old(self), dt),
            fuse_wf(*final(self)),
            old(self).elapsed_ms <= final(self).elapsed_ms,
            fuse_finished(*final(self)) <==> old(self).elapsed_ms + dt >= old(self).duration_ms,
    {
        let sum = self.elapsed_ms + dt;
        if sum >= self.duration_ms {
            self.elapsed_ms = self.duration_ms;
        } else {
            self.elapsed_ms = sum;
        }
    }

    pub fn finished(&self) -> (b: bool)
        ensures
            b == fuse_finished(*self),
    {
        self.elapsed_ms >= self.duration_ms
    }
}

/// One fuse tick is monotone and terminal: the elapsed time never
/// decreases, finishing happens exactly when the accumulated time reaches
/// the duration, and a finished fuse stays finished.
pub proof fn lemma_fuse_monotone_terminal(f: Fuse, dt: u64)
    requires
        fuse_wf(f),
    ensures
        f.elapsed_ms <= fuse_after_spec(f, dt).elapsed_ms,
        fuse_finished(fuse_after_spec(f, dt)) <==> f.elapsed_ms + dt >= f.duration_ms,
        fuse_finished(f) ==> fuse_finished(fuse_after_spec(f, dt)),
        fuse_after_spec(f, dt).duration_ms == f.duration_ms,
{
}

} // verus!
