//! Integer coordinate vectors.
//!
//! All positions in this crate are triples of `i64` world units.  Keeping the
//! coordinates integral makes every statement about them exact: a rebase
//! moves an entity by precisely one cell span, and a reconstruction of an
//! absolute position from its frame record has no rounding error at all.

use vstd::prelude::*;

verus! {

/// A three-component integer vector: a position, an offset, or a macro-cell
/// index along each axis.
#[derive(Clone, Copy, Debug, PartialEq, Eq, Structural)]
pub struct Vec3i {
    pub x: i64,
    pub y: i64,
    pub z: i64,
}

impl Vec3i {
    /// Every component lies in `[-limit, limit]`.
    pub open spec fn within(self, limit: int) -> bool {
        &&& -limit <= self.x <= limit
        &&& -limit <= self.y <= limit
        &&& -limit <= self.z <= limit
    }

    pub fn new(x: i64, y: i64, z: i64) -> (v: Vec3i)
        ensures
            v.x == x,
            v.y == y,
            v.z == z,
    {
        Vec3i { x, y, z }
    }

    pub fn zero() -> (v: Vec3i)
        ensures
            v.x == 0,
            v.y == 0,
            v.z == 0,
    {
        Vec3i { x: 0, y: 0, z: 0 }
    }
}

} // verus!
