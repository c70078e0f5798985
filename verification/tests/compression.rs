use floating_origin::compress::{
    clamp_axis, compress, compress_frames, distance_sq, relative_position, scale_for, ScaleFactor,
};
use floating_origin::frame::{Role, SpatialFrame, HORIZON};
use floating_origin::vec3::Vec3i;

/// The real-valued scale factor a `ScaleFactor` stands for.
fn factor(s: ScaleFactor) -> f64 {
    ((s.num_sq as f64) / (s.den_sq as f64)).sqrt()
}

#[test]
fn scale_is_one_at_the_horizon() {
    let entity = Vec3i::new(HORIZON, 0, 0);
    let origin = Vec3i::zero();
    let t = compress(&entity, &origin);
    assert_eq!(t.scale, ScaleFactor { num_sq: 1, den_sq: 1 });
    assert_eq!(factor(t.scale), 1.0);
    assert_eq!(t.position, entity);
}

#[test]
fn scale_is_half_at_twice_the_horizon() {
    let entity = Vec3i::new(2 * HORIZON, 0, 0);
    let origin = Vec3i::zero();
    let t = compress(&entity, &origin);
    let h = HORIZON as u128;
    assert_eq!(t.scale, ScaleFactor { num_sq: h * h, den_sq: 4 * h * h });
    assert_eq!(factor(t.scale), 0.5);
    assert_eq!(t.position, Vec3i { x: HORIZON, y: 0, z: 0 });
}

#[test]
fn axes_beyond_the_horizon_clamp_with_sign() {
    let entity = Vec3i { x: 30_000, y: -25_000, z: 5 };
    let origin = Vec3i { x: 0, y: 0, z: 0 };
    let t = compress(&entity, &origin);
    assert_eq!(t.position, Vec3i { x: HORIZON, y: -HORIZON, z: 5 });
    assert!(factor(t.scale) < 1.0);
}

#[test]
fn zero_distance_passes_the_position_through() {
    let p = Vec3i { x: 123, y: -4, z: 5 };
    let t = compress(&p, &p);
    assert_eq!(t.position, p);
    assert_eq!(t.scale, ScaleFactor { num_sq: 1, den_sq: 1 });
}

#[test]
fn inside_the_horizon_nothing_changes() {
    let entity = Vec3i { x: 300, y: 400, z: 0 };
    let origin = Vec3i { x: 0, y: 0, z: 0 };
    let t = compress(&entity, &origin);
    assert_eq!(t.position, entity);
    assert_eq!(t.scale, ScaleFactor { num_sq: 1, den_sq: 1 });
}

#[test]
fn clamp_axis_matches_the_horizon_exactly() {
    assert_eq!(clamp_axis(HORIZON), HORIZON);
    assert_eq!(clamp_axis(HORIZON + 1), HORIZON);
    assert_eq!(clamp_axis(-HORIZON), -HORIZON);
    assert_eq!(clamp_axis(-HORIZON - 1), -HORIZON);
    assert_eq!(clamp_axis(42), 42);
}

#[test]
fn distance_sq_is_exact() {
    let a = Vec3i { x: 3, y: 4, z: 0 };
    let b = Vec3i { x: 0, y: 0, z: 0 };
    assert_eq!(distance_sq(&a, &b), 25);
    let c = Vec3i { x: -2, y: 7, z: 11 };
    let d = Vec3i { x: 1, y: 3, z: -1 };
    assert_eq!(distance_sq(&c, &d), 9 + 16 + 144);
}

#[test]
fn scale_for_keeps_the_exact_ratio() {
    let h = HORIZON as u128;
    assert_eq!(scale_for(0), ScaleFactor { num_sq: 1, den_sq: 1 });
    assert_eq!(scale_for(h * h), ScaleFactor { num_sq: 1, den_sq: 1 });
    assert_eq!(scale_for(h * h + 1), ScaleFactor { num_sq: h * h, den_sq: h * h + 1 });
}

#[test]
fn frames_compress_via_their_world_positions() {
    // An entity one cell away from the reference: the combined positions,
    // not the raw locals, decide the distance.
    let entity = SpatialFrame::from_position(Vec3i { x: 2 * HORIZON, y: 0, z: 0 }, Role::Dependent);
    let reference = SpatialFrame::from_position(Vec3i { x: 0, y: 0, z: 0 }, Role::Reference);
    let t = compress_frames(&entity, &reference);
    assert_eq!(factor(t.scale), 0.5);
    assert_eq!(t.position, Vec3i { x: HORIZON, y: 0, z: 0 });
}

#[test]
fn relative_position_subtracts_world_positions() {
    let entity = SpatialFrame::from_position(Vec3i { x: 2500, y: -100, z: 0 }, Role::Dependent);
    let reference = SpatialFrame::from_position(Vec3i { x: 500, y: 100, z: -3000 }, Role::Reference);
    let d = relative_position(&entity, &reference);
    assert_eq!(d, Vec3i { x: 2000, y: -200, z: 3000 });
}
