//! The simulation's global guarantees, proved over the tick specifications:
//! the following-distance invariant of lane queues, conservation of
//! vehicles across the transfer boundaries, and the red-light gate.

use vstd::prelude::*;

use crate::geometry::{axis_gap, cross_aligned, next_pos_int, too_close_int, vpos};
use crate::intersection::{exit_index, transit_exits, transit_exits_upto,
    transit_kept, transit_kept_upto};
use crate::lanes::{blocked_by_pred, lane_admitted, lane_completed, lane_completed_upto,
    lane_kept, lane_kept_upto, lanes_admitted, lanes_admitted_upto, vehicle_completes,
    vehicle_waits};
use crate::types::{is_exit_lane, lane_ok, pos_ok, Behavior, Lane, LaneLight, Vehicle,
    VehiclesSpawingFrom, SECURITY_DISTANCE, VEHICLE_SPEED};

verus! {

/// Every vehicle of the queue sits on the lane's axis: its cross
/// coordinate equals the lane start's.
pub open spec fn seq_aligned(
    dir: VehiclesSpawingFrom,
    start: (i32, i32),
    s: Seq<Vehicle>,
) -> bool {
    forall|i: int|
        0 <= i < s.len() ==> cross_aligned(dir, vpos((#[trigger] s[i]).position), vpos(start))
}

/// Consecutive vehicles of the queue keep at least the safety distance
/// along the travel axis, each at least that far behind its predecessor.
pub open spec fn seq_spaced(dir: VehiclesSpawingFrom, s: Seq<Vehicle>) -> bool {
    forall|i: int|
        0 < i < s.len() ==> axis_gap(
            dir,
            vpos(s[i - 1].position),
            vpos((#[trigger] s[i]).position),
        ) >= SECURITY_DISTANCE
}

/// The lane's queue is on the lane's axis.
pub open spec fn lane_aligned(lane: Lane) -> bool {
    seq_aligned(lane.direction, lane.start, lane.vehicles@)
}

/// The lane's queue keeps the safety distance.
pub open spec fn lane_spaced(lane: Lane) -> bool {
    seq_spaced(lane.direction, lane.vehicles@)
}

/// One tick's step moves a position one speed increment ahead along the
/// travel axis and not at all across it; within bounds the concrete step
/// agrees with the mathematical one.
proof fn lemma_step_geometry(p: (i32, i32), dir: VehiclesSpawingFrom)
    requires
        pos_ok(p),
    ensures
        vpos(crate::geometry::next_pos(p, dir)) == next_pos_int(p, dir),
        cross_aligned(dir, next_pos_int(p, dir), vpos(p)),
        axis_gap(dir, next_pos_int(p, dir), vpos(p)) == VEHICLE_SPEED,
{
}

/// The spacing induction: the queue kept by one lane pass, cut off after
/// the first `n` vehicles, is aligned and spaced; and its last vehicle
/// keeps the safety distance ahead of the next unprocessed vehicle, and is
/// no farther back than the previously processed one.
#[verifier::rlimit(100)]
proof fn lemma_kept_spacing_upto(lane: Lane, n: int)
    requires
        lane_ok(lane),
        lane_aligned(lane),
        lane_spaced(lane),
        0 <= n <= lane.vehicles@.len(),
    ensures
        seq_aligned(lane.direction, lane.start, lane_kept_upto(lane, n)),
        seq_spaced(lane.direction, lane_kept_upto(lane, n)),
        lane_kept_upto(lane, n).len() > 0 && n < lane.vehicles@.len() ==> axis_gap(
            lane.direction,
            vpos(lane_kept_upto(lane, n).last().position),
            vpos(lane.vehicles@[n].position),
        ) >= SECURITY_DISTANCE,
        lane_kept_upto(lane, n).len() > 0 && n >= 1 ==> axis_gap(
            lane.direction,
            vpos(lane_kept_upto(lane, n).last().position),
            vpos(lane.vehicles@[n - 1].position),
        ) >= 0,
    decreases n,
{
    if n > 0 {
        lemma_kept_spacing_upto(lane, n - 1);
        let dir = lane.direction;
        let vs = lane.vehicles@;
        let prev = lane_kept_upto(lane, n - 1);
        let cur = lane_kept_upto(lane, n);
        let v = vs[n - 1];
        assert(pos_ok(v.position));
        if vehicle_completes(lane, n - 1) {
            assert(cur == prev);
        } else if vehicle_waits(lane, n - 1) {
            assert(cur == prev.push(v));
            assert forall|i: int| 0 < i < cur.len() implies axis_gap(
                dir,
                vpos(cur[i - 1].position),
                vpos((#[trigger] cur[i]).position),
            ) >= SECURITY_DISTANCE by {
                if i < prev.len() {
                    assert(cur[i] == prev[i] && cur[i - 1] == prev[i - 1]);
                } else {
                    assert(cur[i] == v && cur[i - 1] == prev.last());
                }
            }
        } else {
            let sv = crate::geometry::stepped(v, dir);
            lemma_step_geometry(v.position, dir);
            assert(cur == prev.push(sv));
            // The step keeps the vehicle on the lane's axis.
            assert(cross_aligned(dir, vpos(sv.position), vpos(lane.start)));
            if prev.len() > 0 {
                // Not held back: the predecessor's start-of-tick position is
                // at least the safety distance ahead of the stepped one.
                assert(!blocked_by_pred(lane, n - 1));
                assert(n - 1 > 0);
                let pred = vs[n - 2];
                assert(axis_gap(dir, vpos(pred.position), vpos(sv.position)) >= SECURITY_DISTANCE
                    - VEHICLE_SPEED);
                assert(cross_aligned(dir, vpos(sv.position), vpos(pred.position)));
                assert(!too_close_int(vpos(sv.position), vpos(pred.position)));
                assert(axis_gap(dir, vpos(pred.position), vpos(sv.position))
                    >= SECURITY_DISTANCE);
                assert(axis_gap(dir, vpos(prev.last().position), vpos(pred.position)) >= 0);
            }
            assert forall|i: int| 0 < i < cur.len() implies axis_gap(
                dir,
                vpos(cur[i - 1].position),
                vpos((#[trigger] cur[i]).position),
            ) >= SECURITY_DISTANCE by {
                if i < prev.len() {
                    assert(cur[i] == prev[i] && cur[i - 1] == prev[i - 1]);
                } else {
                    assert(cur[i] == sv && cur[i - 1] == prev.last());
                }
            }
        }
    }
}

/// Following-distance invariant: a lane pass keeps the queue on the lane's
/// axis and keeps every vehicle at least the safety distance behind its
/// predecessor, provided the queue started the tick that way.
#[verifier::rlimit(100)]
pub proof fn lemma_move_preserves_following_distance(lane: Lane)
    requires
        lane_ok(lane),
        lane_aligned(lane),
        lane_spaced(lane),
    ensures
        seq_aligned(lane.direction, lane.start, lane_kept(lane)),
        seq_spaced(lane.direction, lane_kept(lane)),
{
    lemma_kept_spacing_upto(lane, lane.vehicles@.len() as int);
}

/// A spaced queue has no proximity-positive consecutive pair: the axis gap
/// alone already defeats the axis-aligned proximity test.
pub proof fn lemma_spaced_means_apart(dir: VehiclesSpawingFrom, s: Seq<Vehicle>)
    requires
        seq_spaced(dir, s),
    ensures
        forall|i: int|
            0 < i < s.len() ==> !too_close_int(
                vpos((#[trigger] s[i]).position),
                vpos(s[i - 1].position),
            ),
{
}

/// Counting step for one lane: of its first `n` vehicles, those kept and
/// those completing add up to `n`.
proof fn lemma_lane_counts_upto(lane: Lane, n: int)
    requires
        0 <= n <= lane.vehicles@.len(),
    ensures
        lane_kept_upto(lane, n).len() + lane_completed_upto(lane, n).len() == n,
    decreases n,
{
    if n > 0 {
        lemma_lane_counts_upto(lane, n - 1);
    }
}

/// Conservation within one lane: a lane pass neither creates nor destroys
/// vehicles — every vehicle of the queue is either kept or completes the
/// lane, and the completing ones of an inbound lane are exactly those
/// admitted to the transit set.
pub proof fn lemma_lane_conservation(lane: Lane)
    ensures
        lane_kept(lane).len() + lane_completed(lane).len() == lane.vehicles@.len(),
        !is_exit_lane(lane) ==> lane_admitted(lane) == lane_completed(lane),
        is_exit_lane(lane) ==> lane_admitted(lane) == Seq::<Vehicle>::empty(),
{
    lemma_lane_counts_upto(lane, lane.vehicles@.len() as int);
}

/// The number of vehicles queued across the first `n` lanes.
pub open spec fn total_vehicles_upto(lanes: Seq<Lane>, n: int) -> int
    decreases n,
{
    if n <= 0 {
        0
    } else {
        total_vehicles_upto(lanes, n - 1) + lanes[n - 1].vehicles@.len()
    }
}

/// The number of vehicles queued across all lanes.
pub open spec fn total_vehicles(lanes: Seq<Lane>) -> int {
    total_vehicles_upto(lanes, lanes.len() as int)
}

/// The number of vehicles all lanes keep after one lane pass.
pub open spec fn total_kept_upto(lanes: Seq<Lane>, n: int) -> int
    decreases n,
{
    if n <= 0 {
        0
    } else {
        total_kept_upto(lanes, n - 1) + lane_kept(lanes[n - 1]).len()
    }
}

/// The number of vehicles that leave the simulation through the far end of
/// an exit lane during one lane pass.
pub open spec fn total_departed_upto(lanes: Seq<Lane>, n: int) -> int
    decreases n,
{
    if n <= 0 {
        0
    } else {
        total_departed_upto(lanes, n - 1) + if is_exit_lane(lanes[n - 1]) {
            lane_completed(lanes[n - 1]).len() as int
        } else {
            0
        }
    }
}

proof fn lemma_lanes_conservation_upto(lanes: Seq<Lane>, n: int)
    requires
        0 <= n <= lanes.len(),
    ensures
        total_kept_upto(lanes, n) + lanes_admitted_upto(lanes, n).len() + total_departed_upto(
            lanes,
            n,
        ) == total_vehicles_upto(lanes, n),
    decreases n,
{
    if n > 0 {
        lemma_lanes_conservation_upto(lanes, n - 1);
        lemma_lane_conservation(lanes[n - 1]);
    }
}

/// Conservation over a full lane pass: across all lanes, the vehicles
/// kept, the vehicles admitted to the transit set, and the vehicles gone
/// through the far end of an exit lane add up exactly to the vehicles
/// present before the pass — none is duplicated, none is lost, and the
/// count only drops by exit-lane departures.
pub proof fn lemma_lanes_conservation(lanes: Seq<Lane>)
    ensures
        total_kept_upto(lanes, lanes.len() as int) + lanes_admitted(lanes).len()
            + total_departed_upto(lanes, lanes.len() as int) == total_vehicles(lanes),
{
    lemma_lanes_conservation_upto(lanes, lanes.len() as int);
}

/// Every crossing routes to one of the four exit lanes.
proof fn lemma_exit_index_range(o: VehiclesSpawingFrom, b: Behavior)
    ensures
        4 <= exit_index(o, b) <= 7,
{
}

proof fn lemma_transit_counts_upto(s: Seq<Vehicle>, n: int)
    requires
        0 <= n <= s.len(),
    ensures
        transit_kept_upto(s, n).len() + transit_exits_upto(s, n, 4).len() + transit_exits_upto(
            s,
            n,
            5,
        ).len() + transit_exits_upto(s, n, 6).len() + transit_exits_upto(s, n, 7).len() == n,
    decreases n,
{
    if n > 0 {
        lemma_transit_counts_upto(s, n - 1);
        lemma_exit_index_range(s[n - 1].origin, s[n - 1].behavior);
    }
}

/// Conservation across the intersection: one transit pass moves every
/// completing vehicle to exactly one exit lane and keeps the rest — the
/// vehicles kept in transit and those handed to the four exit lanes add up
/// exactly to the vehicles that were crossing.
pub proof fn lemma_transit_conservation(s: Seq<Vehicle>)
    ensures
        transit_kept(s).len() + transit_exits(s, 4).len() + transit_exits(s, 5).len()
            + transit_exits(s, 6).len() + transit_exits(s, 7).len() == s.len(),
{
    lemma_transit_counts_upto(s, s.len() as int);
}

proof fn lemma_red_counts_upto(lane: Lane, n: int)
    requires
        0 <= n <= lane.vehicles@.len(),
        lane.state == LaneLight::Red,
    ensures
        lane_completed_upto(lane, n) == Seq::<Vehicle>::empty(),
        lane_kept_upto(lane, n).len() == n,
    decreases n,
{
    if n > 0 {
        lemma_red_counts_upto(lane, n - 1);
        assert(!vehicle_completes(lane, n - 1));
    }
}

/// The red-light gate: a lane pass on a red lane lets no vehicle out — no
/// vehicle completes the lane, so none enters the transit set, however
/// close to the stop line it stands.
pub proof fn lemma_red_lane_admits_none(lane: Lane)
    requires
        lane.state == LaneLight::Red,
    ensures
        lane_completed(lane) == Seq::<Vehicle>::empty(),
        lane_admitted(lane) == Seq::<Vehicle>::empty(),
        lane_kept(lane).len() == lane.vehicles@.len(),
{
    lemma_red_counts_upto(lane, lane.vehicles@.len() as int);
}

/// Spawning keeps the following distance: when the previous spawn has
/// cleared the safety distance of the start point, appending a fresh
/// vehicle on the start point leaves the queue aligned and spaced —
/// provided the queue never fell behind its own spawn point.
pub proof fn lemma_spawn_keeps_following_distance(lane: Lane, v: Vehicle)
    requires
        lane_aligned(lane),
        lane_spaced(lane),
        !crate::spawn::spawn_blocked(lane),
        v.position == lane.start,
        lane.vehicles@.len() > 0 ==> axis_gap(
            lane.direction,
            vpos(lane.vehicles@.last().position),
            vpos(lane.start),
        ) >= 0,
    ensures
        seq_aligned(lane.direction, lane.start, lane.vehicles@.push(v)),
        seq_spaced(lane.direction, lane.vehicles@.push(v)),
{
    let dir = lane.direction;
    let cur = lane.vehicles@.push(v);
    let prev = lane.vehicles@;
    assert(cross_aligned(dir, vpos(v.position), vpos(lane.start)));
    if prev.len() > 0 {
        let last = prev.last();
        assert(!too_close_int(vpos(last.position), vpos(lane.start)));
        assert(cross_aligned(dir, vpos(last.position), vpos(lane.start)));
        assert(axis_gap(dir, vpos(last.position), vpos(v.position)) >= SECURITY_DISTANCE);
    }
    assert forall|i: int| 0 < i < cur.len() implies axis_gap(
        dir,
        vpos(cur[i - 1].position),
        vpos((#[trigger] cur[i]).position),
    ) >= SECURITY_DISTANCE by {
        if i < prev.len() {
            assert(cur[i] == prev[i] && cur[i - 1] == prev[i - 1]);
        } else {
            assert(cur[i] == v && cur[i - 1] == prev.last());
        }
    }
}

} // verus!
