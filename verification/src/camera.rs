//! The fixed camera: a perspective projection and a look-at view, each
//! computed once at startup from constants and never changed. The
//! configurations are held exactly — the field of view as a rational multiple
//! of pi, lengths in milliunits — so that every frame provably builds its
//! matrices from the same numbers.

use vstd::prelude::*;

use crate::vec3::Vec3Milli;

verus! {

/// Parameters of the perspective projection. The vertical field of view is
/// `pi * fovy_pi_num / fovy_pi_den` radians; the aspect ratio and the two
/// clip planes are in thousandths.
#[derive(Clone, Copy, PartialEq, Eq, Structural, Debug)]
pub struct ProjectionConfig {
    pub fovy_pi_num: u32,
    pub fovy_pi_den: u32,
    pub aspect_milli: u32,
    pub znear_milli: u32,
    pub zfar_milli: u32,
}

/// The one projection the program uses: field of view pi/4, aspect 1.78,
/// near plane 1, far plane 100.
pub open spec fn projection_spec() -> ProjectionConfig {
    ProjectionConfig {
        fovy_pi_num: 1,
        fovy_pi_den: 4,
        aspect_milli: 1780,
        znear_milli: 1000,
        zfar_milli: 100_000,
    }
}

/// The projection parameters, the same on every call.
pub fn projection_config() -> (p: ProjectionConfig)
    ensures
        p == projection_spec(),
{
    ProjectionConfig {
        fovy_pi_num: 1,
        fovy_pi_den: 4,
        aspect_milli: 1780,
        znear_milli: 1000,
        zfar_milli: 100_000,
    }
}

/// Parameters of the right-handed look-at view: the eye position, the point
/// looked at, and the up direction, all in milliunits.
#[derive(Clone, Copy, PartialEq, Eq, Structural, Debug)]
pub struct ViewConfig {
    pub eye: Vec3Milli,
    pub target: Vec3Milli,
    pub up: Vec3Milli,
}

/// The one view the program uses: eye at (0, 0, 10) looking at the origin
/// with up (0, 1, 0).
pub open spec fn view_spec() -> ViewConfig {
    ViewConfig {
        eye: Vec3Milli { x: 0, y: 0, z: 10_000 },
        target: Vec3Milli { x: 0, y: 0, z: 0 },
        up: Vec3Milli { x: 0, y: 1000, z: 0 },
    }
}

/// The view parameters, the same on every call.
pub fn view_config() -> (v: ViewConfig)
    ensures
        v == view_spec(),
{
    ViewConfig {
        eye: Vec3Milli { x: 0, y: 0, z: 10_000 },
        target: Vec3Milli { x: 0, y: 0, z: 0 },
        up: Vec3Milli { x: 0, y: 1000, z: 0 },
    }
}

/// The projection is constant across frames: the parameters any two frames
/// build their projection matrix from are identical, so the matrices are
/// bit-identical too.
pub proof fn lemma_projection_constant(a: ProjectionConfig, b: ProjectionConfig)
    requires
        a == projection_spec(),
        b == projection_spec(),
    ensures
        a == b,
{
}

/// The view is constant across frames: the parameters any two frames build
/// their view matrix from are identical, so the matrices are bit-identical
/// too.
pub proof fn lemma_view_constant(a: ViewConfig, b: ViewConfig)
    requires
        a == view_spec(),
        b == view_spec(),
    ensures
        a == b,
{
}

} // verus!
