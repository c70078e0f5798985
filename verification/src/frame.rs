//! Spatial frame records.
//!
//! A `SpatialFrame` locates an entity by a macro-cell index and a local
//! position inside that cell; the absolute ("world") position along an axis
//! is always `cell_index * CELL_SPAN + local_position`.  Exactly one entity
//! carries the `Reference` role at a time; all others are `Dependent`.

use vstd::prelude::*;

use crate::vec3::Vec3i;

verus! {

/// Half-width of a macro cell: local positions are kept within
/// `[-BOUND, BOUND]` along each axis.
pub const BOUND: i64 = 1000;

/// Full width of a macro cell; a rebase moves a position by exactly one span.
pub const CELL_SPAN: i64 = 2 * BOUND;

/// Render-distance radius of the compressor, by convention ten local cells.
pub const HORIZON: i64 = 10 * BOUND;

/// Largest magnitude accepted for a local position or a cell index.  Keeps
/// all frame arithmetic comfortably inside `i64`.
pub const COORD_LIMIT: i64 = 1_000_000_000_000;

/// Largest magnitude of a world position reachable from a well-formed frame.
pub const WORLD_LIMIT: i64 = COORD_LIMIT * CELL_SPAN + COORD_LIMIT;

/// The role an entity plays in the moving frame: the single frame-defining
/// entity, or one of the entities tracked relative to it.
#[derive(Clone, Copy, Debug, PartialEq, Eq, Structural)]
pub enum Role {
    Reference,
    Dependent,
}

/// Per-entity frame record: where the entity is within its current macro
/// cell, which macro cell that is, and which role the entity plays.
#[derive(Clone, Copy, Debug, PartialEq, Eq, Structural)]
pub struct SpatialFrame {
    pub local_position: Vec3i,
    pub cell_index: Vec3i,
    pub role: Role,
}

impl SpatialFrame {
    /// Well-formedness: every coordinate is small enough that frame
    /// arithmetic (rebasing, reconstruction, distances) cannot overflow.
    pub open spec fn wf(self) -> bool {
        &&& self.local_position.within(COORD_LIMIT as int)
        &&& self.cell_index.within(COORD_LIMIT as int)
    }

    /// The absolute position this record stands for, along `x`.
    pub open spec fn world_x(self) -> int {
        self.cell_index.x * CELL_SPAN + self.local_position.x
    }

    /// The absolute position this record stands for, along `y`.
    pub open spec fn world_y(self) -> int {
        self.cell_index.y * CELL_SPAN + self.local_position.y
    }

    /// The absolute position this record stands for, along `z`.
    pub open spec fn world_z(self) -> int {
        self.cell_index.z * CELL_SPAN + self.local_position.z
    }

    /// Seeds a frame record from an absolute position: the cell index and
    /// local position are derived once, so that reconstructing the absolute
    /// position from the record gives back `p` exactly, with the local
    /// position inside `(-BOUND, BOUND]` on every axis.
    pub fn from_position(p: Vec3i, role: Role) -> (f: SpatialFrame)
        requires
            p.within(COORD_LIMIT as int),
        ensures
            f.wf(),
            f.role == role,
            f.world_x() == p.x,
            f.world_y() == p.y,
            f.world_z() == p.z,
            -BOUND < f.local_position.x <= BOUND,
            -BOUND < f.local_position.y <= BOUND,
            -BOUND < f.local_position.z <= BOUND,
    {
        let (cx, lx) = split_axis(p.x);
        let (cy, ly) = split_axis(p.y);
        let (cz, lz) = split_axis(p.z);
        SpatialFrame {
            local_position: Vec3i { x: lx, y: ly, z: lz },
            cell_index: Vec3i { x: cx, y: cy, z: cz },
            role,
        }
    }

    /// Reconstructs the absolute position from the record.
    pub fn world_position(&self) -> (w: Vec3i)
        requires
            self.wf(),
        ensures
            w.x == self.world_x(),
            w.y == self.world_y(),
            w.z == self.world_z(),
            w.within(WORLD_LIMIT as int),
    {
        Vec3i {
            x: self.cell_index.x * CELL_SPAN + self.local_position.x,
            y: self.cell_index.y * CELL_SPAN + self.local_position.y,
            z: self.cell_index.z * CELL_SPAN + self.local_position.z,
        }
    }

    /// The write access the surrounding motion systems have: replaces the
    /// local position, leaving cell index and role untouched.
    pub fn set_local_position(&mut self, p: Vec3i)
        requires
            p.within(COORD_LIMIT as int),
        ensures
            final(self).local_position == p,
            final(self).cell_index == old(self).cell_index,
            final(self).role == old(self).role,
            old(self).wf() ==> final(self).wf(),
    {
        self.local_position = p;
    }
}

/// Decomposes one axis of an absolute position into a cell index and a local
/// position, the canonical way: the local part falls in `(-BOUND, BOUND]`.
fn split_axis(p: i64) -> (r: (i64, i64))
    requires
        -COORD_LIMIT <= p <= COORD_LIMIT,
    ensures
        r.0 * CELL_SPAN + r.1 == p,
        -BOUND < r.1 <= BOUND,
        -COORD_LIMIT <= r.0 <= COORD_LIMIT,
{
    // Shift into the non-negative range so that unsigned division (which is
    // Euclidean) picks the floor; the offset is a whole number of cells, so
    // it drops back out of the cell index.
    let offset_cells: i64 = COORD_LIMIT / CELL_SPAN + 1;
    let n: i64 = p + (BOUND - 1) + offset_cells * CELL_SPAN;
    let q: u64 = (n as u64) / (CELL_SPAN as u64);
    let c: i64 = (q as i64) - offset_cells;
    let l: i64 = p - c * CELL_SPAN;
    (c, l)
}

} // verus!
