//! The one piece of geometry: a quad in local space, written as two
//! triangles over four corners and uploaded once at startup.

use vstd::prelude::*;

use crate::vec3::Vec3Milli;

verus! {

/// The quad's top-right corner, in milliunits: the corners span a square two
/// units on a side, centered on the origin in the z = 0 plane.
pub open spec fn corner_tr() -> Vec3Milli {
    Vec3Milli { x: 1000, y: 1000, z: 0 }
}

/// The quad's top-left corner, in milliunits.
pub open spec fn corner_tl() -> Vec3Milli {
    Vec3Milli { x: -1000i64, y: 1000, z: 0 }
}

/// The quad's bottom-left corner, in milliunits.
pub open spec fn corner_bl() -> Vec3Milli {
    Vec3Milli { x: -1000i64, y: -1000i64, z: 0 }
}

/// The quad's bottom-right corner, in milliunits.
pub open spec fn corner_br() -> Vec3Milli {
    Vec3Milli { x: 1000, y: -1000i64, z: 0 }
}

/// The six vertices of the quad as a triangle list: the triangle
/// top-right, top-left, bottom-left, then the triangle top-right,
/// bottom-left, bottom-right. The two triangles share the diagonal from
/// top-right to bottom-left.
pub fn quad_vertices() -> (v: Vec<Vec3Milli>)
    ensures
        v@.len() == 6,
        v@[0] == corner_tr(),
        v@[1] == corner_tl(),
        v@[2] == corner_bl(),
        v@[3] == corner_tr(),
        v@[4] == corner_bl(),
        v@[5] == corner_br(),
{
    let tr = Vec3Milli { x: 1000, y: 1000, z: 0 };
    let tl = Vec3Milli { x: -1000, y: 1000, z: 0 };
    let bl = Vec3Milli { x: -1000, y: -1000, z: 0 };
    let br = Vec3Milli { x: 1000, y: -1000, z: 0 };
    let mut v: Vec<Vec3Milli> = Vec::new();
    v.push(tr);
    v.push(tl);
    v.push(bl);
    v.push(tr);
    v.push(bl);
    v.push(br);
    v
}

} // verus!
