//! Frame timing: the previous frame's timestamp and the delta time derived
//! from it. Timestamps are integer milliseconds from a monotonic clock that
//! the caller samples.

use vstd::prelude::*;

verus! {

/// The delta time the very first frame runs with, in milliseconds, before any
/// real interval has been measured.
pub const INITIAL_DT_MS: u64 = 2;

/// Timing state carried across frames: the timestamp taken at the end of the
/// last frame and the length of the last measured interval.
#[derive(Clone, Copy, PartialEq, Eq, Structural, Debug)]
pub struct Timing {
    /// Timestamp, in milliseconds, sampled at the end of the previous frame.
    pub curr_ms: u64,
    /// Length of the interval between the two most recent samples, in
    /// milliseconds.
    pub dt_ms: u64,
}

/// The timing state that results from sampling the clock at `now_ms`:
/// the delta becomes the distance from the previous sample, and `now_ms`
/// becomes the new reference point.
pub open spec fn ticked(t: Timing, now_ms: u64) -> Timing {
    Timing { curr_ms: now_ms, dt_ms: (now_ms - t.curr_ms) as u64 }
}

impl Timing {
    /// Timing state at startup: the clock has just been sampled once, and the
    /// delta holds its fixed initial value.
    pub fn new(start_ms: u64) -> (t: Timing)
        ensures
            t == (Timing { curr_ms: start_ms, dt_ms: INITIAL_DT_MS }),
    {
        Timing { curr_ms: start_ms, dt_ms: INITIAL_DT_MS }
    }

    /// End-of-frame update: measure the interval since the previous sample
    /// and remember `now_ms` for the next frame. The clock is monotonic, so
    /// `now_ms` is never behind the previous sample.
    pub fn tick(&mut self, now_ms: u64)
        requires
            old(self).curr_ms <= now_ms,
        ensures
            *final(self) == ticked(*old(self), now_ms),
    {
        let prev_ms = self.curr_ms;
        self.curr_ms = now_ms;
        self.dt_ms = now_ms - prev_ms;
    }
}

/// The delta after the second of two updates spans only the last interval:
/// ticking at `t1` and then at `t2` leaves a delta of `t2 - t1`, however the
/// state started out.
pub proof fn lemma_dt_is_last_interval(t: Timing, t1: u64, t2: u64)
    requires
        t.curr_ms <= t1,
        t1 <= t2,
    ensures
        ticked(ticked(t, t1), t2).dt_ms == t2 - t1,
{
}

} // verus!
