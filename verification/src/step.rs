//! The simulation step: one tick of the whole crossing. Lanes advance
//! first, then the intersection, and only then does the light controller
//! evaluate — so a vehicle admitted this very tick already counts toward
//! the "intersection occupied" gate.

use vstd::prelude::*;

use crate::intersection::{move_intersection, transit_exits, transit_kept};
use crate::lanes::{lane_admitted, lane_completed_upto, lane_kept, lanes_admitted,
    lanes_admitted_upto, move_lanes};
use crate::lights::{change_lights, interval_elapsed, with_state};
use crate::types::{is_exit_lane, lane_ok, lights_ok, pos_ok, transit_vehicle_ok, Lane, LaneLight,
    Lights, Vehicle, COORD_LIMIT};

verus! {

/// The transit set as it stands between the lane pass and the transit
/// pass of one tick: the old crossings plus this tick's admissions.
pub open spec fn mid_transit(lanes: Seq<Lane>, transit: Seq<Vehicle>) -> Seq<Vehicle> {
    transit + lanes_admitted(lanes)
}

/// Every vehicle a lane's pass completes is one of the lane's own
/// vehicles, so it inherits their bounds.
proof fn lemma_lane_completed_ok(lane: Lane, n: int)
    requires
        0 <= n <= lane.vehicles@.len(),
        lane_ok(lane),
        forall|i: int|
            0 <= i < lane.vehicles@.len() ==> (#[trigger] lane.vehicles@[i]).intersection_progress
                <= COORD_LIMIT,
    ensures
        forall|i: int|
            0 <= i < lane_completed_upto(lane, n).len() ==> transit_vehicle_ok(
                #[trigger] lane_completed_upto(lane, n)[i],
            ),
    decreases n,
{
    if n > 0 {
        lemma_lane_completed_ok(lane, n - 1);
        let prev = lane_completed_upto(lane, n - 1);
        let cur = lane_completed_upto(lane, n);
        assert forall|i: int| 0 <= i < cur.len() implies transit_vehicle_ok(
            #[trigger] cur[i],
        ) by {
            if i < prev.len() {
                assert(cur[i] == prev[i]);
            } else {
                assert(cur[i] == lane.vehicles@[n - 1]);
                assert(pos_ok(lane.vehicles@[n - 1].position));
            }
        }
    }
}

/// Every vehicle the lanes admit this tick is bounded like any crossing
/// vehicle must be.
proof fn lemma_lanes_admitted_ok(lanes: Seq<Lane>, n: int)
    requires
        0 <= n <= lanes.len(),
        forall|k: int| 0 <= k < lanes.len() ==> lane_ok(#[trigger] lanes[k]),
        forall|k: int, i: int|
            0 <= k < lanes.len() && 0 <= i < lanes[k].vehicles@.len() ==> (#[trigger] lanes[k]
                .vehicles@[i]).intersection_progress <= COORD_LIMIT,
    ensures
        forall|i: int|
            0 <= i < lanes_admitted_upto(lanes, n).len() ==> transit_vehicle_ok(
                #[trigger] lanes_admitted_upto(lanes, n)[i],
            ),
    decreases n,
{
    if n > 0 {
        lemma_lanes_admitted_ok(lanes, n - 1);
        let lane = lanes[n - 1];
        lemma_lane_completed_ok(lane, lane.vehicles@.len() as int);
        let prev = lanes_admitted_upto(lanes, n - 1);
        let cur = lanes_admitted_upto(lanes, n);
        assert(cur == prev + lane_admitted(lane));
        assert forall|i: int| 0 <= i < cur.len() implies transit_vehicle_ok(
            #[trigger] cur[i],
        ) by {
            if i < prev.len() {
                assert(cur[i] == prev[i]);
            } else {
                assert(cur[i] == lane_admitted(lane)[i - prev.len()]);
                assert(!is_exit_lane(lane));
                assert(cur[i] == lane_completed_upto(lane, lane.vehicles@.len() as int)[i
                    - prev.len()]);
            }
        }
    }
}

/// One tick of the simulation: advance the lane queues (admitting green
/// stop-line vehicles of inbound lanes into the transit set), advance the
/// intersection (routing completed crossings to their exit lanes), then
/// let the light controller evaluate against the transit set as it stands
/// after both moves.
#[verifier::rlimit(30)]
pub fn simulation_step(
    lanes: &mut Vec<Lane>,
    road_intersection: &mut Vec<Vehicle>,
    l: &mut Lights,
    now: u64,
)
    requires
        old(lanes)@.len() == 8,
        forall|k: int| 0 <= k < 8 ==> lane_ok(#[trigger] old(lanes)@[k]),
        forall|k: int, i: int|
            0 <= k < 8 && 0 <= i < old(lanes)@[k].vehicles@.len() ==> (#[trigger] old(lanes)@[k]
                .vehicles@[i]).intersection_progress <= COORD_LIMIT,
        forall|i: int|
            0 <= i < old(road_intersection)@.len() ==> transit_vehicle_ok(
                #[trigger] old(road_intersection)@[i],
            ),
        lights_ok(*old(l)),
        now >= old(l).last_change_time,
    ensures
        final(lanes)@.len() == 8,
        final(road_intersection)@ == transit_kept(
            mid_transit(old(lanes)@, old(road_intersection)@),
        ),
        forall|k: int|
            0 <= k < 8 ==> {
                let fin = #[trigger] final(lanes)@[k];
                let orig = old(lanes)@[k];
                fin.name == orig.name && fin.start == orig.start && fin.length == orig.length
                    && fin.direction == orig.direction
            },
        forall|k: int|
            0 <= k < 4 ==> (#[trigger] final(lanes)@[k]).vehicles@ == lane_kept(old(lanes)@[k]),
        forall|k: int|
            4 <= k < 8 ==> (#[trigger] final(lanes)@[k]).vehicles@ == lane_kept(old(lanes)@[k])
                + transit_exits(mid_transit(old(lanes)@, old(road_intersection)@), k),
        lights_ok(*final(l)),
        final(l).change_interval == old(l).change_interval,
        // Before the interval elapses the lights stay as they are.
        !interval_elapsed(*old(l), now) ==> *final(l) == *old(l) && forall|k: int|
            0 <= k < 8 ==> (#[trigger] final(lanes)@[k]).state == old(lanes)@[k].state,
        // Elapsed with vehicles still crossing after this tick's moves:
        // the green lane shuts and nothing rotates.
        interval_elapsed(*old(l), now) && transit_kept(
            mid_transit(old(lanes)@, old(road_intersection)@),
        ).len() > 0 ==> *final(l) == *old(l) && forall|k: int|
            0 <= k < 8 ==> (#[trigger] final(lanes)@[k]).state == if k == old(
                l,
            ).current_lane_index as int {
                LaneLight::Red
            } else {
                old(lanes)@[k].state
            },
        // Elapsed with the intersection clear: the green rotates to the
        // next inbound lane and the timer restarts.
        interval_elapsed(*old(l), now) && transit_kept(
            mid_transit(old(lanes)@, old(road_intersection)@),
        ).len() == 0 ==> final(l).current_lane_index as int == (old(l).current_lane_index as int
            + 1) % 4 && final(l).last_change_time == now && forall|k: int|
            0 <= k < 8 ==> (#[trigger] final(lanes)@[k]).state == if k == (old(
                l,
            ).current_lane_index as int + 1) % 4 {
                LaneLight::Green
            } else if k == old(l).current_lane_index as int {
                LaneLight::Red
            } else {
                old(lanes)@[k].state
            },
{
    let ghost lanes0 = lanes@;
    let ghost transit0 = road_intersection@;
    move_lanes(lanes, road_intersection);
    proof {
        lemma_lanes_admitted_ok(lanes0, lanes0.len() as int);
        assert(road_intersection@ == mid_transit(lanes0, transit0));
    }
    let ghost lanes1 = lanes@;
    move_intersection(road_intersection, lanes);
    let ghost lanes2 = lanes@;
    change_lights(l, lanes, road_intersection, now);
    proof {
        let idx = old(l).current_lane_index as int;
        let next = (idx + 1) % 4;
        if interval_elapsed(*old(l), now) {
            if road_intersection@.len() == 0 {
                assert(lanes@ =~= lanes2.update(idx, with_state(lanes2[idx], LaneLight::Red))
                    .update(next, with_state(lanes2[next], LaneLight::Green)));
            } else {
                assert(lanes@ =~= lanes2.update(idx, with_state(lanes2[idx], LaneLight::Red)));
            }
        }
    }
}

} // verus!
