//! Rebase detection and propagation.
//!
//! Each tick the detector inspects the reference entity's frame record: any
//! axis whose local position has left the open interval `(-BOUND, BOUND)`
//! beyond the boundary value itself is shifted back by one cell span, the
//! cell index is stepped to compensate, and one shift event per crossed axis
//! is emitted.  The propagator sums the tick's events and adds the net shift
//! to every dependent entity's local position within the same tick, so all
//! relative positions are preserved exactly.  `advance_tick` sequences the
//! two as one atomic step.

use vstd::prelude::*;

use crate::frame::{Role, SpatialFrame, BOUND, CELL_SPAN, COORD_LIMIT};
use crate::vec3::Vec3i;

verus! {

/// Ephemeral per-tick message: the compensating shift the rest of the world
/// receives for one crossed axis.
#[derive(Clone, Copy, Debug, PartialEq, Eq, Structural)]
pub struct RebaseEvent {
    pub shift: Vec3i,
}

impl RebaseEvent {
    pub fn new(shift: Vec3i) -> (e: RebaseEvent)
        ensures
            e.shift == shift,
    {
        RebaseEvent { shift }
    }
}

/// The compensating shift for one axis of a local position: one full cell
/// span back toward the interior, or zero when the position is within
/// bounds.  The boundary values themselves trigger nothing, so a position
/// sitting exactly on `BOUND` cannot oscillate.
pub open spec fn axis_shift(p: i64) -> i64 {
    if p < -BOUND {
        CELL_SPAN
    } else if p > BOUND {
        ((-CELL_SPAN) as i64)
    } else {
        0
    }
}

/// How the cell index moves when an axis rebases: opposite the local shift,
/// one whole cell.
pub open spec fn axis_step(p: i64) -> i64 {
    if p < -BOUND {
        ((-1) as i64)
    } else if p > BOUND {
        1
    } else {
        0
    }
}

/// The events a tick emits for a reference at `local`: one per crossed
/// axis, in axis order, each shifting along its own axis only.
pub open spec fn rebase_events(local: Vec3i) -> Seq<RebaseEvent> {
    let ex = if axis_shift(local.x) != 0 {
        seq![RebaseEvent { shift: Vec3i { x: axis_shift(local.x), y: 0, z: 0 } }]
    } else {
        Seq::<RebaseEvent>::empty()
    };
    let ey = if axis_shift(local.y) != 0 {
        seq![RebaseEvent { shift: Vec3i { x: 0, y: axis_shift(local.y), z: 0 } }]
    } else {
        Seq::<RebaseEvent>::empty()
    };
    let ez = if axis_shift(local.z) != 0 {
        seq![RebaseEvent { shift: Vec3i { x: 0, y: 0, z: axis_shift(local.z) } }]
    } else {
        Seq::<RebaseEvent>::empty()
    };
    ex + ey + ez
}

/// The net shift of a tick, component-wise: what every dependent receives.
pub open spec fn net_of(local: Vec3i) -> Vec3i {
    Vec3i { x: axis_shift(local.x), y: axis_shift(local.y), z: axis_shift(local.z) }
}

/// A reference frame after detection: each axis rebased independently, the
/// cell index stepped to compensate, the role untouched.
pub open spec fn detected_frame(f: SpatialFrame) -> SpatialFrame {
    SpatialFrame {
        local_position: Vec3i {
            x: (f.local_position.x + axis_shift(f.local_position.x)) as i64,
            y: (f.local_position.y + axis_shift(f.local_position.y)) as i64,
            z: (f.local_position.z + axis_shift(f.local_position.z)) as i64,
        },
        cell_index: Vec3i {
            x: (f.cell_index.x + axis_step(f.local_position.x)) as i64,
            y: (f.cell_index.y + axis_step(f.local_position.y)) as i64,
            z: (f.cell_index.z + axis_step(f.local_position.z)) as i64,
        },
        role: f.role,
    }
}

/// A dependent frame after propagation: the net shift added to the local
/// position; the cell index is deliberately left alone (dependents' cell
/// indices are not maintained by propagation).
pub open spec fn shifted_dependent(f: SpatialFrame, shift: Vec3i) -> SpatialFrame {
    SpatialFrame {
        local_position: Vec3i {
            x: (f.local_position.x + shift.x) as i64,
            y: (f.local_position.y + shift.y) as i64,
            z: (f.local_position.z + shift.z) as i64,
        },
        cell_index: f.cell_index,
        role: f.role,
    }
}

/// Component-wise sum of a tick's event shifts, along `x`.
pub open spec fn sum_x(s: Seq<RebaseEvent>) -> int
    decreases s.len(),
{
    if s.len() == 0 {
        0
    } else {
        sum_x(s.drop_last()) + s.last().shift.x
    }
}

/// Component-wise sum of a tick's event shifts, along `y`.
pub open spec fn sum_y(s: Seq<RebaseEvent>) -> int
    decreases s.len(),
{
    if s.len() == 0 {
        0
    } else {
        sum_y(s.drop_last()) + s.last().shift.y
    }
}

/// Component-wise sum of a tick's event shifts, along `z`.
pub open spec fn sum_z(s: Seq<RebaseEvent>) -> int
    decreases s.len(),
{
    if s.len() == 0 {
        0
    } else {
        sum_z(s.drop_last()) + s.last().shift.z
    }
}

/// Event shifts bounded by one cell span have sums bounded by one cell span
/// per event.
proof fn lemma_sum_bounded(s: Seq<RebaseEvent>)
    requires
        forall|i: int| 0 <= i < s.len() ==> (#[trigger] s[i]).shift.within(CELL_SPAN as int),
    ensures
        -(s.len() as int) * CELL_SPAN <= sum_x(s) <= (s.len() as int) * CELL_SPAN,
        -(s.len() as int) * CELL_SPAN <= sum_y(s) <= (s.len() as int) * CELL_SPAN,
        -(s.len() as int) * CELL_SPAN <= sum_z(s) <= (s.len() as int) * CELL_SPAN,
    decreases s.len(),
{
    if s.len() == 0 {
        assert((s.len() as int) * CELL_SPAN == 0);
    } else {
        let n = s.len() as int;
        assert(forall|j: int|
            0 <= j < s.drop_last().len() ==> (#[trigger] s.drop_last()[j]).shift.within(
                CELL_SPAN as int,
            ));
        lemma_sum_bounded(s.drop_last());
        assert(s.last() == s[n - 1]);
        assert(s[n - 1].shift.within(CELL_SPAN as int));
        assert((n - 1) * CELL_SPAN + CELL_SPAN == n * CELL_SPAN) by (nonlinear_arith);
    }
}

/// Summing event shifts distributes over concatenation; with commutativity
/// of addition this is why the net shift of a tick does not depend on the
/// order its events are consumed in.
pub proof fn lemma_sum_concat(a: Seq<RebaseEvent>, b: Seq<RebaseEvent>)
    ensures
        sum_x(a + b) == sum_x(a) + sum_x(b),
        sum_y(a + b) == sum_y(a) + sum_y(b),
        sum_z(a + b) == sum_z(a) + sum_z(b),
    decreases b.len(),
{
    if b.len() == 0 {
        assert(a + b =~= a);
    } else {
        assert((a + b).drop_last() =~= a + b.drop_last());
        lemma_sum_concat(a, b.drop_last());
    }
}

/// The cumulative shift is order-independent: consuming the same events in
/// two blocks in either order sums to the same vector.
pub proof fn lemma_sum_order_independent(a: Seq<RebaseEvent>, b: Seq<RebaseEvent>)
    ensures
        sum_x(a + b) == sum_x(b + a),
        sum_y(a + b) == sum_y(b + a),
        sum_z(a + b) == sum_z(b + a),
{
    lemma_sum_concat(a, b);
    lemma_sum_concat(b, a);
}

/// The shifts of a one-event tick sum to that event's shift.
proof fn lemma_sum_single(e: RebaseEvent)
    ensures
        sum_x(seq![e]) == e.shift.x,
        sum_y(seq![e]) == e.shift.y,
        sum_z(seq![e]) == e.shift.z,
{
    assert(seq![e].drop_last() =~= Seq::<RebaseEvent>::empty());
    assert(seq![e].last() == e);
    assert(sum_x(Seq::<RebaseEvent>::empty()) == 0);
    assert(sum_y(Seq::<RebaseEvent>::empty()) == 0);
    assert(sum_z(Seq::<RebaseEvent>::empty()) == 0);
}

/// The sum of the events a tick emits is exactly the per-axis shift of the
/// reference's local position.
pub proof fn lemma_net_of_rebase_events(local: Vec3i)
    ensures
        sum_x(rebase_events(local)) == net_of(local).x,
        sum_y(rebase_events(local)) == net_of(local).y,
        sum_z(rebase_events(local)) == net_of(local).z,
{
    let ex = if axis_shift(local.x) != 0 {
        seq![RebaseEvent { shift: Vec3i { x: axis_shift(local.x), y: 0, z: 0 } }]
    } else {
        Seq::<RebaseEvent>::empty()
    };
    let ey = if axis_shift(local.y) != 0 {
        seq![RebaseEvent { shift: Vec3i { x: 0, y: axis_shift(local.y), z: 0 } }]
    } else {
        Seq::<RebaseEvent>::empty()
    };
    let ez = if axis_shift(local.z) != 0 {
        seq![RebaseEvent { shift: Vec3i { x: 0, y: 0, z: axis_shift(local.z) } }]
    } else {
        Seq::<RebaseEvent>::empty()
    };
    assert(rebase_events(local) == ex + ey + ez);
    lemma_sum_concat(ex + ey, ez);
    lemma_sum_concat(ex, ey);
    assert(sum_x(Seq::<RebaseEvent>::empty()) == 0);
    assert(sum_y(Seq::<RebaseEvent>::empty()) == 0);
    assert(sum_z(Seq::<RebaseEvent>::empty()) == 0);
    if axis_shift(local.x) != 0 {
        lemma_sum_single(RebaseEvent { shift: Vec3i { x: axis_shift(local.x), y: 0, z: 0 } });
    }
    if axis_shift(local.y) != 0 {
        lemma_sum_single(RebaseEvent { shift: Vec3i { x: 0, y: axis_shift(local.y), z: 0 } });
    }
    if axis_shift(local.z) != 0 {
        lemma_sum_single(RebaseEvent { shift: Vec3i { x: 0, y: 0, z: axis_shift(local.z) } });
    }
}

/// A tick emits at most one event per axis, each shifting by exactly one
/// cell span along its own axis.
pub proof fn lemma_rebase_events_bounded(local: Vec3i)
    ensures
        rebase_events(local).len() <= 3,
        forall|i: int|
            0 <= i < rebase_events(local).len() ==> (#[trigger] rebase_events(
                local,
            )[i]).shift.within(CELL_SPAN as int),
{
}

/// Rebase detector.  Runs once per tick on the reference entity's record:
/// every axis is checked independently, so a tick may emit zero, one, two,
/// or three events.  Crossing `BOUND` itself does not count; only positions
/// strictly beyond a bound are pulled back.
pub fn detect(frame: &mut SpatialFrame) -> (events: Vec<RebaseEvent>)
    requires
        old(frame).wf(),
        old(frame).cell_index.within(COORD_LIMIT - 1),
    ensures
        *final(frame) == detected_frame(*old(frame)),
        final(frame).wf(),
        events@ == rebase_events(old(frame).local_position),
{
    let mut events: Vec<RebaseEvent> = Vec::new();
    if frame.local_position.x < -BOUND {
        frame.local_position.x = frame.local_position.x + CELL_SPAN;
        frame.cell_index.x = frame.cell_index.x - 1;
        events.push(RebaseEvent { shift: Vec3i { x: CELL_SPAN, y: 0, z: 0 } });
    } else if frame.local_position.x > BOUND {
        frame.local_position.x = frame.local_position.x - CELL_SPAN;
        frame.cell_index.x = frame.cell_index.x + 1;
        events.push(RebaseEvent { shift: Vec3i { x: -CELL_SPAN, y: 0, z: 0 } });
    }
    if frame.local_position.y < -BOUND {
        frame.local_position.y = frame.local_position.y + CELL_SPAN;
        frame.cell_index.y = frame.cell_index.y - 1;
        events.push(RebaseEvent { shift: Vec3i { x: 0, y: CELL_SPAN, z: 0 } });
    } else if frame.local_position.y > BOUND {
        frame.local_position.y = frame.local_position.y - CELL_SPAN;
        frame.cell_index.y = frame.cell_index.y + 1;
        events.push(RebaseEvent { shift: Vec3i { x: 0, y: -CELL_SPAN, z: 0 } });
    }
    if frame.local_position.z < -BOUND {
        frame.local_position.z = frame.local_position.z + CELL_SPAN;
        frame.cell_index.z = frame.cell_index.z - 1;
        events.push(RebaseEvent { shift: Vec3i { x: 0, y: 0, z: CELL_SPAN } });
    } else if frame.local_position.z > BOUND {
        frame.local_position.z = frame.local_position.z - CELL_SPAN;
        frame.cell_index.z = frame.cell_index.z + 1;
        events.push(RebaseEvent { shift: Vec3i { x: 0, y: 0, z: -CELL_SPAN } });
    }
    proof {
        assert(events@ =~= rebase_events(old(frame).local_position));
    }
    events
}

/// Rebase propagator, summing step: folds the tick's events into one
/// cumulative shift vector.
pub fn net_shift(events: &Vec<RebaseEvent>) -> (net: Vec3i)
    requires
        events@.len() <= 3,
        forall|i: int|
            0 <= i < events@.len() ==> (#[trigger] events@[i]).shift.within(CELL_SPAN as int),
    ensures
        net.x == sum_x(events@),
        net.y == sum_y(events@),
        net.z == sum_z(events@),
{
    let mut x: i64 = 0;
    let mut y: i64 = 0;
    let mut z: i64 = 0;
    let mut i: usize = 0;
    while i < events.len()
        invariant
            0 <= i <= events@.len(),
            events@.len() <= 3,
            forall|j: int|
                0 <= j < events@.len() ==> (#[trigger] events@[j]).shift.within(CELL_SPAN as int),
            x == sum_x(events@.take(i as int)),
            y == sum_y(events@.take(i as int)),
            z == sum_z(events@.take(i as int)),
        decreases events@.len() - i,
    {
        proof {
            let t = events@.take(i as int);
            assert(events@.take(i as int + 1).drop_last() =~= t);
            assert(events@.take(i as int + 1).last() == events@[i as int]);
            assert(events@[i as int].shift.within(CELL_SPAN as int));
            assert(forall|j: int|
                0 <= j < t.len() ==> (#[trigger] t[j]).shift.within(CELL_SPAN as int));
            lemma_sum_bounded(t);
            assert(-3 * CELL_SPAN <= sum_x(t) <= 3 * CELL_SPAN);
            assert(-3 * CELL_SPAN <= sum_y(t) <= 3 * CELL_SPAN);
            assert(-3 * CELL_SPAN <= sum_z(t) <= 3 * CELL_SPAN);
        }
        x = x + events[i].shift.x;
        y = y + events[i].shift.y;
        z = z + events[i].shift.z;
        i = i + 1;
    }
    proof {
        assert(events@.take(events@.len() as int) =~= events@);
    }
    Vec3i { x, y, z }
}

/// Rebase propagator, application step: adds the tick's net shift to one
/// dependent's local position.  The dependent's cell index is deliberately
/// not updated; after repeated rebases it goes stale relative to the true
/// macro cell, which callers needing long-range precision must account for.
pub fn apply_shift(frame: &mut SpatialFrame, shift: &Vec3i)
    requires
        old(frame).wf(),
        -COORD_LIMIT <= old(frame).local_position.x + shift.x <= COORD_LIMIT,
        -COORD_LIMIT <= old(frame).local_position.y + shift.y <= COORD_LIMIT,
        -COORD_LIMIT <= old(frame).local_position.z + shift.z <= COORD_LIMIT,
    ensures
        *final(frame) == shifted_dependent(*old(frame), *shift),
        final(frame).wf(),
{
    frame.local_position.x = frame.local_position.x + shift.x;
    frame.local_position.y = frame.local_position.y + shift.y;
    frame.local_position.z = frame.local_position.z + shift.z;
}

/// The one fatal condition of the model: the reference role is missing or
/// duplicated, so there is no single frame origin to rebase around.
#[derive(Clone, Copy, Debug, PartialEq, Eq, Structural)]
pub enum RoleError {
    NoReference,
    MultipleReferences,
}

/// How many records carry the reference role.
pub open spec fn reference_count(s: Seq<SpatialFrame>) -> nat
    decreases s.len(),
{
    if s.len() == 0 {
        0
    } else {
        reference_count(s.drop_last()) + (if s.last().role is Reference {
            1nat
        } else {
            0nat
        })
    }
}

/// A record with the reference role forces the count to at least one.
pub proof fn lemma_reference_count_at_least_one(s: Seq<SpatialFrame>, j: int)
    requires
        0 <= j < s.len(),
        s[j].role is Reference,
    ensures
        reference_count(s) >= 1,
    decreases s.len(),
{
    if j < s.len() - 1 {
        lemma_reference_count_at_least_one(s.drop_last(), j);
    }
}

/// Two distinct records with the reference role force the count to at
/// least two; with a count of one the reference is therefore unique.
pub proof fn lemma_reference_count_at_least_two(s: Seq<SpatialFrame>, j: int, k: int)
    requires
        0 <= j < k < s.len(),
        s[j].role is Reference,
        s[k].role is Reference,
    ensures
        reference_count(s) >= 2,
    decreases s.len(),
{
    if k < s.len() - 1 {
        lemma_reference_count_at_least_two(s.drop_last(), j, k);
    } else {
        lemma_reference_count_at_least_one(s.drop_last(), j);
    }
}

/// Every record is well-formed with enough headroom for one tick: the cell
/// index can step by one and the local position can take a full net shift
/// without leaving the coordinate range.
pub open spec fn tick_ready(s: Seq<SpatialFrame>) -> bool {
    forall|i: int|
        0 <= i < s.len() ==> {
            &&& (#[trigger] s[i]).wf()
            &&& s[i].cell_index.within(COORD_LIMIT - 1)
            &&& s[i].local_position.within(COORD_LIMIT - CELL_SPAN)
        }
}

/// Advances the simulation frame by one tick: validates that exactly one
/// record carries the reference role, runs the detector on it, then applies
/// the tick's net shift to every dependent — detect-then-propagate as one
/// atomic step, so no event ever outlives the tick that produced it.
///
/// On a role violation nothing is touched and the violation is reported;
/// downstream position math has no meaning without a single frame origin.
pub fn advance_tick(frames: &mut Vec<SpatialFrame>) -> (r: Result<
    Vec<RebaseEvent>,
    RoleError,
>)
    requires
        tick_ready(old(frames)@),
    ensures
        final(frames)@.len() == old(frames)@.len(),
        r matches Err(e) ==> {
            &&& final(frames)@ == old(frames)@
            &&& (e is NoReference <==> reference_count(old(frames)@) == 0)
            &&& (e is MultipleReferences <==> reference_count(old(frames)@) >= 2)
        },
        r is Ok <==> reference_count(old(frames)@) == 1,
        r matches Ok(events) ==> forall|k: int|
            0 <= k < old(frames)@.len() && (#[trigger] old(frames)@[k]).role is Reference ==> {
                &&& events@ == rebase_events(old(frames)@[k].local_position)
                &&& final(frames)@[k] == detected_frame(old(frames)@[k])
                &&& forall|i: int|
                    0 <= i < old(frames)@.len() && i != k ==> #[trigger] final(frames)@[i]
                        == shifted_dependent(
                        old(frames)@[i],
                        net_of(old(frames)@[k].local_position),
                    )
            },
{
    let n = frames.len();
    let mut count: usize = 0;
    let mut ref_idx: usize = 0;
    let mut i: usize = 0;
    while i < n
        invariant
            frames@ == old(frames)@,
            n == frames@.len(),
            0 <= i <= n,
            count == reference_count(frames@.take(i as int)),
            count <= i,
            count > 0 ==> ref_idx < i && frames@[ref_idx as int].role is Reference,
        decreases n - i,
    {
        proof {
            assert(frames@.take(i as int + 1).drop_last() =~= frames@.take(i as int));
            assert(frames@.take(i as int + 1).last() == frames@[i as int]);
        }
        if frames[i].role == Role::Reference {
            ref_idx = i;
            count = count + 1;
        }
        i = i + 1;
    }
    proof {
        assert(frames@.take(n as int) =~= frames@);
    }
    if count == 0 {
        return Err(RoleError::NoReference);
    }
    if count >= 2 {
        return Err(RoleError::MultipleReferences);
    }
    let ghost local_r = frames@[ref_idx as int].local_position;
    let mut rframe = frames[ref_idx];
    let events = detect(&mut rframe);
    frames.set(ref_idx, rframe);
    proof {
        lemma_rebase_events_bounded(local_r);
        lemma_net_of_rebase_events(local_r);
    }
    let net = net_shift(&events);
    proof {
        assert(net == net_of(local_r));
    }
    let ghost s0 = frames@;
    let mut j: usize = 0;
    while j < n
        invariant
            tick_ready(old(frames)@),
            old(frames)@.len() == n,
            frames@.len() == n,
            s0.len() == n,
            0 <= j <= n,
            ref_idx < n,
            net == net_of(local_r),
            net.within(CELL_SPAN as int),
            s0[ref_idx as int].role is Reference,
            s0[ref_idx as int] == detected_frame(old(frames)@[ref_idx as int]),
            forall|m: int| 0 <= m < n && m != ref_idx ==> s0[m] == old(frames)@[m],
            forall|m: int| j <= m < n ==> frames@[m] == s0[m],
            forall|m: int|
                0 <= m < j && s0[m].role is Dependent ==> #[trigger] frames@[m]
                    == shifted_dependent(s0[m], net),
            forall|m: int|
                0 <= m < j && s0[m].role is Reference ==> #[trigger] frames@[m] == s0[m],
        decreases n - j,
    {
        if frames[j].role == Role::Dependent {
            proof {
                assert(frames@[j as int] == s0[j as int]);
                assert(j != ref_idx);
                assert(s0[j as int] == old(frames)@[j as int]);
                assert(old(frames)@[j as int].wf());
                assert(old(frames)@[j as int].local_position.within(COORD_LIMIT - CELL_SPAN));
            }
            let mut f = frames[j];
            apply_shift(&mut f, &net);
            frames.set(j, f);
        }
        j = j + 1;
    }
    proof {
        assert forall|k: int|
            0 <= k < old(frames)@.len() && (#[trigger] old(frames)@[k]).role is Reference implies {
            &&& events@ == rebase_events(old(frames)@[k].local_position)
            &&& frames@[k] == detected_frame(old(frames)@[k])
            &&& forall|m: int|
                0 <= m < old(frames)@.len() && m != k ==> #[trigger] frames@[m]
                    == shifted_dependent(old(frames)@[m], net_of(old(frames)@[k].local_position))
        } by {
            if k != ref_idx {
                if k < ref_idx {
                    lemma_reference_count_at_least_two(old(frames)@, k, ref_idx as int);
                } else {
                    lemma_reference_count_at_least_two(old(frames)@, ref_idx as int, k);
                }
            }
            assert(k == ref_idx);
            assert forall|m: int| 0 <= m < old(frames)@.len() && m != k implies #[trigger] frames@[m]
                == shifted_dependent(old(frames)@[m], net_of(old(frames)@[k].local_position)) by {
                assert(s0[m] == old(frames)@[m]);
                assert(!(s0[m].role is Reference)) by {
                    if s0[m].role is Reference {
                        if m < k {
                            lemma_reference_count_at_least_two(old(frames)@, m, k);
                        } else {
                            lemma_reference_count_at_least_two(old(frames)@, k, m);
                        }
                    }
                }
                assert(s0[m].role is Dependent);
            }
        }
    }
    Ok(events)
}

/// Rebasing never moves the reference in absolute terms: detection changes
/// how a position is split between cell index and local position, not the
/// position itself, so a cached absolute position stays valid across it.
pub proof fn lemma_detect_preserves_world(f: SpatialFrame)
    requires
        f.wf(),
        f.cell_index.within(COORD_LIMIT - 1),
    ensures
        detected_frame(f).world_x() == f.world_x(),
        detected_frame(f).world_y() == f.world_y(),
        detected_frame(f).world_z() == f.world_z(),
{
    // Per axis the cell step cancels the local shift exactly:
    // (c + step) * CELL_SPAN + (l + shift) == c * CELL_SPAN + l.
    lemma_axis_cancel(f.cell_index.x, f.local_position.x);
    lemma_axis_cancel(f.cell_index.y, f.local_position.y);
    lemma_axis_cancel(f.cell_index.z, f.local_position.z);
}

/// One axis of the cancellation behind `lemma_detect_preserves_world`.
proof fn lemma_axis_cancel(c: i64, l: i64)
    ensures
        (c + axis_step(l)) * CELL_SPAN + (l + axis_shift(l)) == c * CELL_SPAN + l,
{
    let st = axis_step(l);
    let sh = axis_shift(l);
    assert((st == -1 && sh == CELL_SPAN) || (st == 1 && sh == ((-CELL_SPAN) as i64)) || (st == 0
        && sh == 0));
    assert((c + st) * CELL_SPAN + (l + sh) == c * CELL_SPAN + l) by (nonlinear_arith)
        requires
            (st == -1 && sh == CELL_SPAN) || (st == 1 && sh == ((-CELL_SPAN) as i64)) || (st == 0
                && sh == 0),
    ;
}

/// A tick preserves every dependent's position relative to the reference:
/// the net shift a dependent receives is exactly the shift detection
/// applied to the reference's local position, so their difference does not
/// change by even one unit.
pub proof fn lemma_tick_preserves_relative(reference: SpatialFrame, dependent: SpatialFrame)
    requires
        reference.wf(),
        dependent.local_position.within(COORD_LIMIT - CELL_SPAN),
    ensures
        ({
            let r2 = detected_frame(reference);
            let d2 = shifted_dependent(dependent, net_of(reference.local_position));
            &&& d2.local_position.x - r2.local_position.x == dependent.local_position.x
                - reference.local_position.x
            &&& d2.local_position.y - r2.local_position.y == dependent.local_position.y
                - reference.local_position.y
            &&& d2.local_position.z - r2.local_position.z == dependent.local_position.z
                - reference.local_position.z
        }),
{
}

/// No-op interior: a reference whose local position lies strictly inside
/// `(-BOUND, BOUND)` on every axis produces zero events, and detection
/// leaves its record exactly as it was.
pub proof fn lemma_interior_no_op(f: SpatialFrame)
    requires
        -BOUND < f.local_position.x < BOUND,
        -BOUND < f.local_position.y < BOUND,
        -BOUND < f.local_position.z < BOUND,
    ensures
        rebase_events(f.local_position).len() == 0,
        detected_frame(f) == f,
{
    assert(rebase_events(f.local_position) =~= Seq::<RebaseEvent>::empty());
}

/// Boundary exactness: a local position exactly at `BOUND` on `x` produces
/// no event, while the smallest representable excess beyond it produces
/// exactly one event, on `x` alone, shifting back by one cell span.
pub proof fn lemma_boundary_exact(at_bound: Vec3i, past_bound: Vec3i)
    requires
        at_bound.x == BOUND,
        past_bound.x == BOUND + 1,
        -BOUND < at_bound.y < BOUND,
        -BOUND < at_bound.z < BOUND,
        past_bound.y == at_bound.y,
        past_bound.z == at_bound.z,
    ensures
        rebase_events(at_bound).len() == 0,
        rebase_events(past_bound).len() == 1,
        rebase_events(past_bound)[0].shift == (Vec3i { x: ((-CELL_SPAN) as i64), y: 0, z: 0 }),
{
    assert(rebase_events(at_bound) =~= Seq::<RebaseEvent>::empty());
    assert(rebase_events(past_bound) =~= seq![
        RebaseEvent { shift: Vec3i { x: ((-CELL_SPAN) as i64), y: 0, z: 0 } },
    ]);
}

/// Multi-axis independence: a tick that crosses a bound on `x` and on `z`
/// but not on `y` emits exactly two events, and their component-wise sum —
/// the net shift every dependent receives that same tick, by the contract
/// of `advance_tick` — carries both axis shifts at once.
pub proof fn lemma_two_axis_tick(local: Vec3i)
    requires
        axis_shift(local.x) != 0,
        axis_shift(local.y) == 0,
        axis_shift(local.z) != 0,
    ensures
        rebase_events(local).len() == 2,
        sum_x(rebase_events(local)) == axis_shift(local.x),
        sum_y(rebase_events(local)) == 0,
        sum_z(rebase_events(local)) == axis_shift(local.z),
{
    lemma_net_of_rebase_events(local);
}

} // verus!
