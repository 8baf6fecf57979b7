//! The animation: a progress scalar that grows with elapsed time, and the
//! linear interpolation that slides the quad from its start position toward
//! its end position.
//!
//! Progress is kept in thousandths: it grows by a thousandth per elapsed
//! millisecond, which counted in thousandths is the elapsed milliseconds
//! themselves, so no rounding ever happens.

use vstd::prelude::*;

use crate::vec3::Vec3Milli;

verus! {

/// Where the quad starts, x in milliunits: the point (5, 0, 0).
pub const START_X_MILLI: i64 = 5000;

/// Where the quad heads, x in milliunits: the point (-5, 0, 0).
pub const END_X_MILLI: i64 = -5000;

/// A bound on progress, in thousandths, under which the interpolation
/// arithmetic stays within 64-bit signed range. It is reached only after
/// millions of years of accumulated frame time.
pub const MAX_PROGRESS_MILLI: u64 = 922_337_203_685_477_580;

/// Animation progress in thousandths: 0 is the start position, 1000 the end
/// position, and it keeps growing past 1000 without clamping or looping.
#[derive(Clone, Copy, PartialEq, Eq, Structural, Debug)]
pub struct Progress {
    pub milli: u64,
}

impl Progress {
    /// Progress at startup: zero, the quad at its start position.
    pub fn new() -> (p: Progress)
        ensures
            p.milli == 0,
    {
        Progress { milli: 0 }
    }

    /// Advance by one frame's elapsed time: a thousandth of a unit per
    /// millisecond, which in thousandths is the milliseconds themselves.
    /// The bound keeps every later interpolation within machine range.
    pub fn advance(&mut self, dt_ms: u64)
        requires
            old(self).milli + dt_ms <= MAX_PROGRESS_MILLI,
        ensures
            final(self).milli == old(self).milli + dt_ms,
    {
        self.milli = self.milli + dt_ms;
    }
}

/// The x-coordinate, in milliunits, of the affine blend
/// `(1 - progress) * start + progress * end` at a progress given in
/// thousandths: with start x 5 and end x -5 it is `5 - 10 * progress`,
/// scaled to milliunits.
pub open spec fn blend_x_milli(progress_milli: int) -> int {
    START_X_MILLI - 10 * progress_milli
}

/// The translation the frame renders with: the blend of the start point and
/// the end point at the given progress. Both endpoints lie on the x-axis, so
/// y and z stay zero for every progress.
pub fn interpolated_translation(progress_milli: u64) -> (t: Vec3Milli)
    requires
        progress_milli <= MAX_PROGRESS_MILLI,
    ensures
        t.x == blend_x_milli(progress_milli as int),
        t.y == 0,
        t.z == 0,
{
    let x: i64 = START_X_MILLI - 10 * (progress_milli as i64);
    Vec3Milli { x, y: 0, z: 0 }
}

/// The simplified x-coordinate really is the component-wise affine blend:
/// for every progress, `1000 * blend_x` equals
/// `(1000 - progress) * start_x + progress * end_x`, all in thousandths.
pub proof fn lemma_blend_is_affine(progress_milli: int)
    ensures
        1000 * blend_x_milli(progress_milli) == (1000 - progress_milli) * START_X_MILLI
            + progress_milli * END_X_MILLI,
{
    assert(1000 * (START_X_MILLI - 10 * progress_milli) == (1000 - progress_milli) * 5000
        + progress_milli * (-5000)) by (nonlinear_arith);
}

} // verus!
