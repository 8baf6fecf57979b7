//! A three-component vector in milliunits: each coordinate is an integer
//! count of thousandths of a world unit, so the positions the program works
//! with are held exactly.

use vstd::prelude::*;

verus! {

/// How many milliunits make one world unit.
pub const MILLI_PER_UNIT: i64 = 1000;

/// A point or direction in world space, each coordinate in milliunits.
#[derive(Clone, Copy, PartialEq, Eq, Structural, Debug)]
pub struct Vec3Milli {
    pub x: i64,
    pub y: i64,
    pub z: i64,
}

impl Vec3Milli {
    /// Build a vector from its three milliunit coordinates.
    pub fn new(x: i64, y: i64, z: i64) -> (v: Vec3Milli)
        ensures
            v == (Vec3Milli { x, y, z }),
    {
        Vec3Milli { x, y, z }
    }
}

} // verus!
