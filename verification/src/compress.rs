//! Distance-based position and scale compression.
//!
//! A stateless per-entity mapping from true positions to render-safe ones:
//! each axis of the position is clamped into `[-HORIZON, HORIZON]`, and the
//! entity is scaled uniformly by `HORIZON / distance` (clamped to one inside
//! the horizon), so a far-away entity drawn at the horizon keeps its true
//! apparent size.  The scale factor is kept as the exact ratio of squares:
//! the squared distance between integer positions is an integer, while the
//! distance itself need not be.

use vstd::prelude::*;

use crate::frame::{SpatialFrame, CELL_SPAN, COORD_LIMIT, HORIZON, WORLD_LIMIT};
use crate::vec3::Vec3i;

verus! {

/// Squared Euclidean distance between two positions.
pub open spec fn dist_sq(e: Vec3i, r: Vec3i) -> int {
    let dx = e.x - r.x;
    let dy = e.y - r.y;
    let dz = e.z - r.z;
    dx * dx + dy * dy + dz * dz
}

/// Squared Euclidean distance between the absolute positions of two frame
/// records.
pub open spec fn frame_dist_sq(e: SpatialFrame, r: SpatialFrame) -> int {
    let dx = e.world_x() - r.world_x();
    let dy = e.world_y() - r.world_y();
    let dz = e.world_z() - r.world_z();
    dx * dx + dy * dy + dz * dz
}

/// One axis of a render position: pulled to the horizon boundary, sign
/// preserved, when its magnitude exceeds the horizon; untouched otherwise.
pub open spec fn clamped(x: int) -> int {
    if x < -HORIZON {
        -HORIZON
    } else if x > HORIZON {
        HORIZON as int
    } else {
        x
    }
}

/// A uniform scale factor, stored exactly as the ratio of two squares: the
/// factor itself is the non-negative square root of `num_sq / den_sq`.
#[derive(Clone, Copy, Debug, PartialEq, Eq, Structural)]
pub struct ScaleFactor {
    pub num_sq: u128,
    pub den_sq: u128,
}

impl ScaleFactor {
    /// The ratio is a genuine fraction of at most one: compression only
    /// ever shrinks.
    pub open spec fn wf(self) -> bool {
        0 < self.num_sq <= self.den_sq
    }

    /// The factor is exactly one: no compression.
    pub open spec fn is_one(self) -> bool {
        self.num_sq == self.den_sq
    }

    /// The identity scale.
    pub fn one() -> (s: ScaleFactor)
        ensures
            s == (ScaleFactor { num_sq: 1u128, den_sq: 1u128 }),
    {
        ScaleFactor { num_sq: 1, den_sq: 1 }
    }
}

/// The scale for a squared distance: one inside the horizon (no compression
/// needed there), `HORIZON / distance` beyond it — squared, so the ratio is
/// exact.
pub open spec fn scale_of(d_sq: int) -> ScaleFactor {
    if d_sq <= HORIZON * HORIZON {
        ScaleFactor { num_sq: 1u128, den_sq: 1u128 }
    } else {
        ScaleFactor { num_sq: (HORIZON * HORIZON) as u128, den_sq: d_sq as u128 }
    }
}

/// The numeric value of the squared horizon, spelled out once.
proof fn lemma_horizon_sq()
    ensures
        HORIZON * HORIZON == 100_000_000,
{
    assert(HORIZON == 10_000);
    assert(HORIZON * HORIZON == 100_000_000) by (nonlinear_arith)
        requires
            HORIZON == 10_000i64,
    ;
}

/// A square of a value bounded by twice the world limit is non-negative and
/// far below the `i128` range, with room for the three-axis sum.
proof fn lemma_square_bounds(a: int)
    requires
        -(2 * WORLD_LIMIT) <= a <= 2 * WORLD_LIMIT,
    ensures
        0 <= a * a <= 0x1000_0000_0000_0000_0000_0000_0000_0000,
{
    assert(WORLD_LIMIT == COORD_LIMIT * CELL_SPAN + COORD_LIMIT);
    assert(WORLD_LIMIT == 2_001_000_000_000_000) by (nonlinear_arith)
        requires
            WORLD_LIMIT == COORD_LIMIT * CELL_SPAN + COORD_LIMIT,
            COORD_LIMIT == 1_000_000_000_000i64,
            CELL_SPAN == 2000i64,
    ;
    assert(0 <= a * a <= 0x1000_0000_0000_0000_0000_0000_0000_0000) by (nonlinear_arith)
        requires
            -4_002_000_000_000_000 <= a <= 4_002_000_000_000_000,
    ;
}

/// Computes the exact squared distance between two world positions.
pub fn distance_sq(e: &Vec3i, r: &Vec3i) -> (d: u128)
    requires
        e.within(WORLD_LIMIT as int),
        r.within(WORLD_LIMIT as int),
    ensures
        d == dist_sq(*e, *r),
{
    let dx = e.x - r.x;
    let dy = e.y - r.y;
    let dz = e.z - r.z;
    proof {
        lemma_square_bounds((dx as i128) as int);
        lemma_square_bounds((dy as i128) as int);
        lemma_square_bounds((dz as i128) as int);
    }
    let sx: i128 = (dx as i128) * (dx as i128);
    let sy: i128 = (dy as i128) * (dy as i128);
    let sz: i128 = (dz as i128) * (dz as i128);
    (sx + sy + sz) as u128
}

/// Clamps one axis of a render position into `[-HORIZON, HORIZON]`.
pub fn clamp_axis(x: i64) -> (r: i64)
    ensures
        r == clamped(x as int),
{
    if x < -HORIZON {
        -HORIZON
    } else if x > HORIZON {
        HORIZON
    } else {
        x
    }
}

/// Builds the scale factor for a squared distance.
pub fn scale_for(d_sq: u128) -> (s: ScaleFactor)
    ensures
        s == scale_of(d_sq as int),
        s.wf(),
{
    proof {
        lemma_horizon_sq();
    }
    let h_sq: u128 = (HORIZON as u128) * (HORIZON as u128);
    if d_sq <= h_sq {
        ScaleFactor { num_sq: 1, den_sq: 1 }
    } else {
        ScaleFactor { num_sq: h_sq, den_sq: d_sq }
    }
}

/// A render-safe transform: the clamped position and the uniform scale to
/// draw an entity with.
#[derive(Clone, Copy, Debug, PartialEq, Eq, Structural)]
pub struct RenderTransform {
    pub position: Vec3i,
    pub scale: ScaleFactor,
}

/// Scale compressor on world positions.  Given the entity's position `e`
/// and the reference's position `r`, returns the position clamped per axis
/// into the render horizon and the uniform scale `HORIZON / |e - r|`
/// clamped to one.  An entity at the reference itself (zero distance) is
/// passed through untouched at scale one rather than divided by zero.
pub fn compress(entity: &Vec3i, reference: &Vec3i) -> (t: RenderTransform)
    requires
        entity.within(WORLD_LIMIT as int),
        reference.within(WORLD_LIMIT as int),
    ensures
        t.scale.wf(),
        t.scale == scale_of(dist_sq(*entity, *reference)),
        dist_sq(*entity, *reference) == 0 ==> t.position == *entity,
        dist_sq(*entity, *reference) != 0 ==> {
            &&& t.position.x == clamped(entity.x as int)
            &&& t.position.y == clamped(entity.y as int)
            &&& t.position.z == clamped(entity.z as int)
        },
{
    let d_sq = distance_sq(entity, reference);
    if d_sq == 0 {
        RenderTransform { position: *entity, scale: ScaleFactor::one() }
    } else {
        let position = Vec3i {
            x: clamp_axis(entity.x),
            y: clamp_axis(entity.y),
            z: clamp_axis(entity.z),
        };
        RenderTransform { position, scale: scale_for(d_sq) }
    }
}

/// Scale compressor on frame records: reconstructs the two absolute
/// positions and compresses the entity's against the reference's.
pub fn compress_frames(entity: &SpatialFrame, reference: &SpatialFrame) -> (t: RenderTransform)
    requires
        entity.wf(),
        reference.wf(),
    ensures
        t.scale.wf(),
        t.scale == scale_of(frame_dist_sq(*entity, *reference)),
        frame_dist_sq(*entity, *reference) == 0 ==> {
            &&& t.position.x == entity.world_x()
            &&& t.position.y == entity.world_y()
            &&& t.position.z == entity.world_z()
        },
        frame_dist_sq(*entity, *reference) != 0 ==> {
            &&& t.position.x == clamped(entity.world_x())
            &&& t.position.y == clamped(entity.world_y())
            &&& t.position.z == clamped(entity.world_z())
        },
{
    let we = entity.world_position();
    let wr = reference.world_position();
    compress(&we, &wr)
}

/// The offset of an entity relative to the reference, from the two frame
/// records' absolute positions.
pub fn relative_position(entity: &SpatialFrame, reference: &SpatialFrame) -> (d: Vec3i)
    requires
        entity.wf(),
        reference.wf(),
    ensures
        d.x == entity.world_x() - reference.world_x(),
        d.y == entity.world_y() - reference.world_y(),
        d.z == entity.world_z() - reference.world_z(),
{
    let we = entity.world_position();
    let wr = reference.world_position();
    Vec3i { x: we.x - wr.x, y: we.y - wr.y, z: we.z - wr.z }
}

/// Scale compression law, inner half: at exactly the horizon distance the
/// factor is exactly one.
pub proof fn lemma_scale_at_horizon()
    ensures
        scale_of(HORIZON * HORIZON).is_one(),
{
}

/// Scale compression law, outer half: at exactly twice the horizon distance
/// the stored ratio of squares is one quarter, so the factor — its
/// non-negative square root — is exactly one half.
pub proof fn lemma_scale_at_double_horizon()
    ensures
        4 * scale_of((2 * HORIZON) * (2 * HORIZON)).num_sq == scale_of(
            (2 * HORIZON) * (2 * HORIZON),
        ).den_sq,
{
    lemma_horizon_sq();
    assert((2 * HORIZON) * (2 * HORIZON) == 400_000_000) by (nonlinear_arith)
        requires
            HORIZON == 10_000i64,
    ;
}

/// Scale compression law, clamp half: an axis magnitude beyond the horizon
/// is pulled to exactly the horizon with its sign preserved; one within it
/// is untouched.
pub proof fn lemma_clamp_exact(x: int)
    ensures
        x > HORIZON ==> clamped(x) == HORIZON,
        x < -HORIZON ==> clamped(x) == -HORIZON,
        -HORIZON <= x <= HORIZON ==> clamped(x) == x,
{
}

} // verus!
