use floating_origin::frame::{Role, SpatialFrame, BOUND, CELL_SPAN};
use floating_origin::rebase::{advance_tick, apply_shift, detect, net_shift, RebaseEvent, RoleError};
use floating_origin::vec3::Vec3i;

fn frame_at(x: i64, y: i64, z: i64, role: Role) -> SpatialFrame {
    SpatialFrame {
        local_position: Vec3i { x, y, z },
        cell_index: Vec3i { x: 0, y: 0, z: 0 },
        role,
    }
}

#[test]
fn reconstruction_after_construction() {
    let samples = [
        (0i64, 0i64, 0i64),
        (999, -999, 1000),
        (-1000, 1001, -1001),
        (123_456_789, -987_654_321, 5),
        (1_000_000_000_000, -1_000_000_000_000, 2000),
    ];
    for &(x, y, z) in samples.iter() {
        let p = Vec3i { x, y, z };
        let f = SpatialFrame::from_position(p, Role::Dependent);
        let w = f.world_position();
        assert_eq!(w, p);
        assert!(-BOUND < f.local_position.x && f.local_position.x <= BOUND);
        assert!(-BOUND < f.local_position.y && f.local_position.y <= BOUND);
        assert!(-BOUND < f.local_position.z && f.local_position.z <= BOUND);
    }
}

#[test]
fn interior_positions_produce_no_events() {
    let mut f = frame_at(999, -999, 0, Role::Reference);
    let before = f;
    let events = detect(&mut f);
    assert!(events.is_empty());
    assert_eq!(f, before);
}

#[test]
fn boundary_value_produces_no_event() {
    let mut f = frame_at(BOUND, 0, 0, Role::Reference);
    let before = f;
    let events = detect(&mut f);
    assert!(events.is_empty());
    assert_eq!(f, before);

    let mut g = frame_at(-BOUND, 0, 0, Role::Reference);
    let before_g = g;
    let events_g = detect(&mut g);
    assert!(events_g.is_empty());
    assert_eq!(g, before_g);
}

#[test]
fn one_past_boundary_produces_one_event() {
    let mut f = frame_at(BOUND + 1, 0, 0, Role::Reference);
    let events = detect(&mut f);
    assert_eq!(events.len(), 1);
    assert_eq!(events[0].shift, Vec3i { x: -CELL_SPAN, y: 0, z: 0 });
    assert_eq!(f.local_position.x, BOUND + 1 - CELL_SPAN);
    assert_eq!(f.cell_index.x, 1);
}

#[test]
fn crossing_below_produces_positive_shift() {
    let mut f = frame_at(-1500, 0, 0, Role::Reference);
    let events = detect(&mut f);
    assert_eq!(events.len(), 1);
    assert_eq!(events[0].shift, Vec3i { x: CELL_SPAN, y: 0, z: 0 });
    assert_eq!(f.local_position.x, -1500 + CELL_SPAN);
    assert_eq!(f.cell_index.x, -1);
}

#[test]
fn two_axes_cross_in_one_tick() {
    let mut frames = vec![
        frame_at(1500, 0, -1200, Role::Reference),
        frame_at(10, 20, 30, Role::Dependent),
        frame_at(-40, -50, -60, Role::Dependent),
    ];
    let events = advance_tick(&mut frames).expect("one reference present");
    assert_eq!(events.len(), 2);
    assert_eq!(events[0].shift, Vec3i { x: -CELL_SPAN, y: 0, z: 0 });
    assert_eq!(events[1].shift, Vec3i { x: 0, y: 0, z: CELL_SPAN });
    // The vector sum of both events reached every dependent in the same tick.
    assert_eq!(frames[1].local_position, Vec3i { x: 10 - CELL_SPAN, y: 20, z: 30 + CELL_SPAN });
    assert_eq!(frames[2].local_position, Vec3i { x: -40 - CELL_SPAN, y: -50, z: -60 + CELL_SPAN });
    // The reference itself was rebased on both axes.
    assert_eq!(frames[0].local_position, Vec3i { x: 1500 - CELL_SPAN, y: 0, z: -1200 + CELL_SPAN });
    assert_eq!(frames[0].cell_index, Vec3i { x: 1, y: 0, z: -1 });
}

#[test]
fn end_to_end_single_tick() {
    // The reference starts at local (999, 0, 0) and the motion systems move
    // it to (1001, 0, 0) within one tick.
    let mut frames = vec![
        frame_at(999, 0, 0, Role::Reference),
        frame_at(500, 500, 500, Role::Dependent),
        frame_at(-700, 0, 900, Role::Dependent),
    ];
    frames[0].set_local_position(Vec3i { x: 1001, y: 0, z: 0 });
    let events = advance_tick(&mut frames).expect("one reference present");
    assert_eq!(events.len(), 1);
    assert_eq!(events[0].shift, Vec3i { x: -2000, y: 0, z: 0 });
    assert_eq!(frames[0].cell_index.x, 1);
    assert_eq!(frames[0].local_position.x, -999);
    assert_eq!(frames[1].local_position, Vec3i { x: 500 - 2000, y: 500, z: 500 });
    assert_eq!(frames[2].local_position, Vec3i { x: -700 - 2000, y: 0, z: 900 });
}

#[test]
fn interior_tick_is_a_no_op() {
    let mut frames = vec![
        frame_at(0, 0, 0, Role::Reference),
        frame_at(500, -500, 999, Role::Dependent),
    ];
    let before = frames.clone();
    let events = advance_tick(&mut frames).expect("one reference present");
    assert!(events.is_empty());
    assert_eq!(frames, before);
}

#[test]
fn missing_reference_is_fatal() {
    let mut frames = vec![
        frame_at(1, 2, 3, Role::Dependent),
        frame_at(4, 5, 6, Role::Dependent),
    ];
    let before = frames.clone();
    let r = advance_tick(&mut frames);
    assert_eq!(r, Err(RoleError::NoReference));
    assert_eq!(frames, before);
}

#[test]
fn duplicated_reference_is_fatal() {
    let mut frames = vec![
        frame_at(1, 2, 3, Role::Reference),
        frame_at(4, 5, 6, Role::Reference),
        frame_at(7, 8, 9, Role::Dependent),
    ];
    let before = frames.clone();
    let r = advance_tick(&mut frames);
    assert_eq!(r, Err(RoleError::MultipleReferences));
    assert_eq!(frames, before);
}

#[test]
fn empty_world_has_no_reference() {
    let mut frames: Vec<SpatialFrame> = Vec::new();
    assert_eq!(advance_tick(&mut frames), Err(RoleError::NoReference));
}

#[test]
fn dependent_cell_index_goes_stale() {
    // Propagation moves only the dependents' local positions; their cell
    // indices are not maintained, so after repeated rebases a dependent's
    // recorded macro cell no longer matches its true one.  This pins the
    // carried-forward behavior so any change to it is visible.
    let mut frames = vec![
        frame_at(1500, 0, 0, Role::Reference),
        frame_at(900, 0, 0, Role::Dependent),
    ];
    advance_tick(&mut frames).expect("one reference present");
    assert_eq!(frames[1].local_position.x, 900 - 2000);
    assert_eq!(frames[1].cell_index, Vec3i { x: 0, y: 0, z: 0 });
    // A second crossing drifts the dependent further while its cell index
    // still claims the original macro cell.
    frames[0].set_local_position(Vec3i { x: 1200, y: 0, z: 0 });
    advance_tick(&mut frames).expect("one reference present");
    assert_eq!(frames[1].local_position.x, 900 - 4000);
    assert_eq!(frames[1].cell_index, Vec3i { x: 0, y: 0, z: 0 });
}

#[test]
fn net_shift_sums_component_wise_in_any_order() {
    let a = RebaseEvent::new(Vec3i { x: -CELL_SPAN, y: 0, z: 0 });
    let b = RebaseEvent::new(Vec3i { x: 0, y: 0, z: CELL_SPAN });
    let forward = net_shift(&vec![a, b]);
    let backward = net_shift(&vec![b, a]);
    assert_eq!(forward, Vec3i { x: -CELL_SPAN, y: 0, z: CELL_SPAN });
    assert_eq!(forward, backward);
}

#[test]
fn apply_shift_leaves_cell_index_alone() {
    let mut f = frame_at(10, 20, 30, Role::Dependent);
    apply_shift(&mut f, &Vec3i { x: -2000, y: 0, z: 2000 });
    assert_eq!(f.local_position, Vec3i { x: -1990, y: 20, z: 2030 });
    assert_eq!(f.cell_index, Vec3i { x: 0, y: 0, z: 0 });
    assert_eq!(f.role, Role::Dependent);
}
