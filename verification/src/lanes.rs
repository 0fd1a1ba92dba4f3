//! Lane-queue advancement: once per tick every lane moves its vehicles one
//! speed increment toward the end of the lane, holding back vehicles that
//! would crowd their predecessor, stopping the lead vehicle at a red light,
//! and letting vehicles that reach a green stop line complete the lane —
//! into the intersection transit set for inbound lanes.
//!
//! A follower is held back by its predecessor's position from the start of
//! the tick, not the predecessor's updated one; the one-tick lag is kept
//! deliberately, so that no vehicle's outcome depends on another's outcome
//! in the same tick.

use vstd::prelude::*;
use vstd::string::StrSliceExecFns;

use crate::geometry::{are_too_close, advance_pos, next_pos_int, stepped, too_close_int, vpos};
use crate::types::{is_exit_lane, lane_geometry_ok, lane_ok, lane_same_shape, Lane, LaneLight,
    Vehicle, SECURITY_DISTANCE, VEHICLE_SIZE};

verus! {

/// The stop-line coordinate of a lane: one safety margin past the far end
/// of the lane, pulled back by half a vehicle.
pub open spec fn end_of_lane(lane: Lane) -> (int, int) {
    match lane.direction {
        crate::types::VehiclesSpawingFrom::Down => (
            lane.start.0 as int,
            lane.start.1 + lane.length + SECURITY_DISTANCE - VEHICLE_SIZE as int / 2,
        ),
        crate::types::VehiclesSpawingFrom::Up => (
            lane.start.0 as int,
            lane.start.1 - lane.length - SECURITY_DISTANCE + VEHICLE_SIZE as int / 2,
        ),
        crate::types::VehiclesSpawingFrom::Right => (
            lane.start.0 - lane.length - SECURITY_DISTANCE + VEHICLE_SIZE as int / 2,
            lane.start.1 as int,
        ),
        crate::types::VehiclesSpawingFrom::Left => (
            lane.start.0 + lane.length + SECURITY_DISTANCE - VEHICLE_SIZE as int / 2,
            lane.start.1 as int,
        ),
    }
}

/// Computes the lane's stop-line coordinate.
pub fn stop_line(lane: &Lane) -> (r: (i32, i32))
    requires
        lane_geometry_ok(*lane),
    ensures
        vpos(r) == end_of_lane(*lane),
{
    let len: i32 = lane.length as i32;
    let half: i32 = VEHICLE_SIZE / 2;
    match lane.direction {
        crate::types::VehiclesSpawingFrom::Down => (
            lane.start.0,
            lane.start.1 + len + SECURITY_DISTANCE - half,
        ),
        crate::types::VehiclesSpawingFrom::Up => (
            lane.start.0,
            lane.start.1 - len - SECURITY_DISTANCE + half,
        ),
        crate::types::VehiclesSpawingFrom::Right => (
            lane.start.0 - len - SECURITY_DISTANCE + half,
            lane.start.1,
        ),
        crate::types::VehiclesSpawingFrom::Left => (
            lane.start.0 + len + SECURITY_DISTANCE - half,
            lane.start.1,
        ),
    }
}

/// Returns true iff the lane is an exit lane (its name starts with "exit").
pub fn lane_is_exit(lane: &Lane) -> (r: bool)
    ensures
        r == is_exit_lane(*lane),
{
    let s = lane.name.as_str();
    if s.unicode_len() < 4 {
        return false;
    }
    s.get_char(0) == 'e' && s.get_char(1) == 'x' && s.get_char(2) == 'i' && s.get_char(3) == 't'
}

/// Vehicle `i` would crowd its predecessor's start-of-tick position if it
/// advanced, so it is held back this tick.
pub open spec fn blocked_by_pred(lane: Lane, i: int) -> bool {
    i > 0 && too_close_int(
        next_pos_int(lane.vehicles@[i].position, lane.direction),
        vpos(lane.vehicles@[i - 1].position),
    )
}

/// Vehicle `i` would reach the lane's stop line if it advanced.
pub open spec fn at_stop_line(lane: Lane, i: int) -> bool {
    too_close_int(next_pos_int(lane.vehicles@[i].position, lane.direction), end_of_lane(lane))
}

/// Vehicle `i` completes the lane this tick: unobstructed, at the stop
/// line, and the light is green.
pub open spec fn vehicle_completes(lane: Lane, i: int) -> bool {
    !blocked_by_pred(lane, i) && at_stop_line(lane, i) && lane.state == LaneLight::Green
}

/// Vehicle `i` stays where it is this tick: held back by its predecessor,
/// or stopped at a red light.
pub open spec fn vehicle_waits(lane: Lane, i: int) -> bool {
    blocked_by_pred(lane, i) || (at_stop_line(lane, i) && lane.state == LaneLight::Red)
}

/// The lane's queue after one tick, considering only its first `n`
/// vehicles: completing vehicles leave, waiting vehicles stay put, all
/// others advance one speed increment; the queue order is kept.
pub open spec fn lane_kept_upto(lane: Lane, n: int) -> Seq<Vehicle>
    decreases n,
{
    if n <= 0 {
        Seq::empty()
    } else {
        let prev = lane_kept_upto(lane, n - 1);
        if vehicle_completes(lane, n - 1) {
            prev
        } else if vehicle_waits(lane, n - 1) {
            prev.push(lane.vehicles@[n - 1])
        } else {
            prev.push(stepped(lane.vehicles@[n - 1], lane.direction))
        }
    }
}

/// The lane's queue after one tick.
pub open spec fn lane_kept(lane: Lane) -> Seq<Vehicle> {
    lane_kept_upto(lane, lane.vehicles@.len() as int)
}

/// The vehicles among the first `n` that complete the lane this tick, in
/// queue order, at their start-of-tick positions.
pub open spec fn lane_completed_upto(lane: Lane, n: int) -> Seq<Vehicle>
    decreases n,
{
    if n <= 0 {
        Seq::empty()
    } else if vehicle_completes(lane, n - 1) {
        lane_completed_upto(lane, n - 1).push(lane.vehicles@[n - 1])
    } else {
        lane_completed_upto(lane, n - 1)
    }
}

/// The vehicles that complete the lane this tick.
pub open spec fn lane_completed(lane: Lane) -> Seq<Vehicle> {
    lane_completed_upto(lane, lane.vehicles@.len() as int)
}

/// The vehicles a lane hands to the intersection transit set this tick:
/// its completing vehicles, unless it is an exit lane, whose completing
/// vehicles leave the simulation.
pub open spec fn lane_admitted(lane: Lane) -> Seq<Vehicle> {
    if is_exit_lane(lane) {
        Seq::empty()
    } else {
        lane_completed(lane)
    }
}

/// What the first `n` lanes together hand to the transit set, lane by lane.
pub open spec fn lanes_admitted_upto(lanes: Seq<Lane>, n: int) -> Seq<Vehicle>
    decreases n,
{
    if n <= 0 {
        Seq::empty()
    } else {
        lanes_admitted_upto(lanes, n - 1) + lane_admitted(lanes[n - 1])
    }
}

/// What all lanes together hand to the transit set this tick.
pub open spec fn lanes_admitted(lanes: Seq<Lane>) -> Seq<Vehicle> {
    lanes_admitted_upto(lanes, lanes.len() as int)
}

/// Advances every lane by one tick. Each lane's queue becomes
/// `lane_kept` of its start-of-tick state, and the vehicles that complete
/// an inbound lane are appended to the transit set in lane order.
#[verifier::loop_isolation(false)]
pub fn move_lanes(lanes: &mut Vec<Lane>, road_intersection: &mut Vec<Vehicle>)
    requires
        forall|k: int| 0 <= k < old(lanes)@.len() ==> lane_ok(#[trigger] old(lanes)@[k]),
    ensures
        final(lanes)@.len() == old(lanes)@.len(),
        forall|k: int|
            0 <= k < old(lanes)@.len() ==> lane_same_shape(
                #[trigger] final(lanes)@[k],
                old(lanes)@[k],
            ),
        forall|k: int|
            0 <= k < old(lanes)@.len() ==> (#[trigger] final(lanes)@[k]).vehicles@ == lane_kept(
                old(lanes)@[k],
            ),
        final(road_intersection)@ == old(road_intersection)@ + lanes_admitted(old(lanes)@),
{
    let ghost ri_start = road_intersection@;
    let n_lanes = lanes.len();
    let mut new_lanes: Vec<Lane> = Vec::new();
    let mut l: usize = 0;
    while l < n_lanes
        invariant
            l <= n_lanes,
            new_lanes@.len() == l as int,
            forall|k: int|
                0 <= k < l as int ==> lane_same_shape(#[trigger] new_lanes@[k], lanes@[k]),
            forall|k: int|
                0 <= k < l as int ==> (#[trigger] new_lanes@[k]).vehicles@ == lane_kept(lanes@[k]),
            road_intersection@ == ri_start + lanes_admitted_upto(lanes@, l as int),
        decreases n_lanes - l,
    {
        let lane = &lanes[l];
        let ghost ri0 = road_intersection@;
        let is_exit = lane_is_exit(lane);
        let stop = stop_line(lane);
        let vn = lane.vehicles.len();
        let mut kept: Vec<Vehicle> = Vec::new();
        let mut i: usize = 0;
        while i < vn
            invariant
                i <= vn,
                kept@ == lane_kept_upto(lanes@[l as int], i as int),
                road_intersection@ == ri0 + if is_exit {
                    Seq::<Vehicle>::empty()
                } else {
                    lane_completed_upto(lanes@[l as int], i as int)
                },
            decreases vn - i,
        {
            let car = lane.vehicles[i];
            let next = advance_pos(car.position, lane.direction);
            let blocked = if i > 0 {
                are_too_close(&next, &lane.vehicles[i - 1].position)
            } else {
                false
            };
            proof {
                assert(blocked == blocked_by_pred(lanes@[l as int], i as int));
            }
            if blocked {
                kept.push(car);
            } else {
                let at_end = are_too_close(&next, &stop);
                proof {
                    assert(at_end == at_stop_line(lanes@[l as int], i as int));
                }
                if at_end {
                    if matches!(lane.state, LaneLight::Green) {
                        if !is_exit {
                            road_intersection.push(car);
                        }
                    } else {
                        kept.push(car);
                    }
                } else {
                    kept.push(
                        Vehicle {
                            position: next,
                            origin: car.origin,
                            behavior: car.behavior,
                            intersection_progress: car.intersection_progress,
                        },
                    );
                }
            }
            i = i + 1;
        }
        let new_lane = Lane {
            name: lane.name.clone(),
            start: lane.start,
            length: lane.length,
            direction: lane.direction,
            state: lane.state,
            vehicles: kept,
        };
        new_lanes.push(new_lane);
        l = l + 1;
    }
    *lanes = new_lanes;
}

} // verus!
