//! Intersection transit: once per tick every crossing vehicle advances along
//! its direction of travel and accumulates progress; once its progress
//! crosses the threshold of its route's path length it is transferred to the
//! exit lane a fixed rotational offset away from its origin.

use vstd::prelude::*;

use crate::geometry::{advance_pos, next_pos, vpos};
use crate::types::{lane_same_shape, transit_vehicle_ok, Behavior, Lane, Vehicle,
    VehiclesSpawingFrom, VEHICLE_SPEED};

verus! {

/// The fixed index of the inbound lane a crossing vehicle came from.
pub open spec fn origin_index(o: VehiclesSpawingFrom) -> int {
    match o {
        VehiclesSpawingFrom::Up => 0,
        VehiclesSpawingFrom::Left => 1,
        VehiclesSpawingFrom::Down => 2,
        VehiclesSpawingFrom::Right => 3,
    }
}

/// Computes the origin lane index.
pub fn origin_lane_index(o: VehiclesSpawingFrom) -> (i: usize)
    ensures
        i as int == origin_index(o),
{
    match o {
        VehiclesSpawingFrom::Up => 0,
        VehiclesSpawingFrom::Left => 1,
        VehiclesSpawingFrom::Down => 2,
        VehiclesSpawingFrom::Right => 3,
    }
}

/// Progress a vehicle must exceed before its crossing completes; the three
/// routes have geometrically different path lengths.
pub open spec fn progress_threshold(b: Behavior) -> int {
    match b {
        Behavior::Straight => 200,
        Behavior::TurnLeft => 69,
        Behavior::TurnRight => 169,
    }
}

/// Computes the route's completion threshold.
pub fn route_threshold(b: Behavior) -> (t: i32)
    ensures
        t as int == progress_threshold(b),
{
    match b {
        Behavior::Straight => 200,
        Behavior::TurnLeft => 69,
        Behavior::TurnRight => 169,
    }
}

/// The lane index a completed crossing exits through: the exit block starts
/// at index 4, the route adds a fixed rotational offset, wrapped back into
/// the exit block.
pub open spec fn exit_index(o: VehiclesSpawingFrom, b: Behavior) -> int {
    let offset = match b {
        Behavior::Straight => 0int,
        Behavior::TurnLeft => 1int,
        Behavior::TurnRight => 3int,
    };
    let e = 4 + origin_index(o) + offset;
    if e > 7 {
        e - 4
    } else {
        e
    }
}

/// Computes the exit lane index of a route; always one of 4 through 7.
pub fn exit_lane_index(o: VehiclesSpawingFrom, b: Behavior) -> (e: usize)
    ensures
        e as int == exit_index(o, b),
        4 <= e < 8,
{
    let offset: usize = match b {
        Behavior::Straight => 0,
        Behavior::TurnLeft => 1,
        Behavior::TurnRight => 3,
    };
    let e = 4 + origin_lane_index(o) + offset;
    if e > 7 {
        e - 4
    } else {
        e
    }
}

/// A crossing vehicle after one tick: moved one speed increment along its
/// origin direction, its progress counter up by the same increment.
pub open spec fn crossed(v: Vehicle) -> Vehicle {
    Vehicle {
        position: next_pos(v.position, v.origin),
        intersection_progress: (v.intersection_progress + VEHICLE_SPEED) as i32,
        ..v
    }
}

/// The vehicle's crossing completes this tick: its updated progress exceeds
/// its route's threshold.
pub open spec fn completes_crossing(v: Vehicle) -> bool {
    v.intersection_progress + VEHICLE_SPEED > progress_threshold(v.behavior)
}

/// The transit set after one tick, considering only its first `n` vehicles:
/// every vehicle advances, and those whose crossing completes leave.
pub open spec fn transit_kept_upto(s: Seq<Vehicle>, n: int) -> Seq<Vehicle>
    decreases n,
{
    if n <= 0 {
        Seq::empty()
    } else {
        let prev = transit_kept_upto(s, n - 1);
        if completes_crossing(s[n - 1]) {
            prev
        } else {
            prev.push(crossed(s[n - 1]))
        }
    }
}

/// The transit set after one tick.
pub open spec fn transit_kept(s: Seq<Vehicle>) -> Seq<Vehicle> {
    transit_kept_upto(s, s.len() as int)
}

/// The vehicles among the first `n` whose crossing completes this tick and
/// routes them to exit lane `e`, in transit order, in their updated state.
pub open spec fn transit_exits_upto(s: Seq<Vehicle>, n: int, e: int) -> Seq<Vehicle>
    decreases n,
{
    if n <= 0 {
        Seq::empty()
    } else {
        let prev = transit_exits_upto(s, n - 1, e);
        if completes_crossing(s[n - 1]) && exit_index(s[n - 1].origin, s[n - 1].behavior) == e {
            prev.push(crossed(s[n - 1]))
        } else {
            prev
        }
    }
}

/// The vehicles the transit set hands to exit lane `e` this tick.
pub open spec fn transit_exits(s: Seq<Vehicle>, e: int) -> Seq<Vehicle> {
    transit_exits_upto(s, s.len() as int, e)
}

/// Advances the intersection by one tick: every crossing vehicle moves one
/// speed increment and, once its progress exceeds its route's threshold, is
/// transferred to its route's exit lane. Inbound lanes are untouched; each
/// exit lane receives its completed crossings in transit order.
#[verifier::loop_isolation(false)]
pub fn move_intersection(intersection: &mut Vec<Vehicle>, lanes: &mut Vec<Lane>)
    requires
        old(lanes)@.len() == 8,
        forall|i: int|
            0 <= i < old(intersection)@.len() ==> transit_vehicle_ok(
                #[trigger] old(intersection)@[i],
            ),
    ensures
        final(intersection)@ == transit_kept(old(intersection)@),
        final(lanes)@.len() == 8,
        forall|k: int| 0 <= k < 4 ==> final(lanes)@[k] == old(lanes)@[k],
        forall|k: int|
            4 <= k < 8 ==> lane_same_shape(#[trigger] final(lanes)@[k], old(lanes)@[k]),
        forall|k: int|
            4 <= k < 8 ==> (#[trigger] final(lanes)@[k]).vehicles@ == old(lanes)@[k].vehicles@
                + transit_exits(old(intersection)@, k),
{
    let n = intersection.len();
    let mut kept: Vec<Vehicle> = Vec::new();
    let mut exits4: Vec<Vehicle> = Vec::new();
    let mut exits5: Vec<Vehicle> = Vec::new();
    let mut exits6: Vec<Vehicle> = Vec::new();
    let mut exits7: Vec<Vehicle> = Vec::new();
    let mut i: usize = 0;
    while i < n
        invariant
            i <= n,
            kept@ == transit_kept_upto(intersection@, i as int),
            exits4@ == transit_exits_upto(intersection@, i as int, 4),
            exits5@ == transit_exits_upto(intersection@, i as int, 5),
            exits6@ == transit_exits_upto(intersection@, i as int, 6),
            exits7@ == transit_exits_upto(intersection@, i as int, 7),
        decreases n - i,
    {
        let car = intersection[i];
        let next = advance_pos(car.position, car.origin);
        let moved = Vehicle {
            position: next,
            origin: car.origin,
            behavior: car.behavior,
            intersection_progress: car.intersection_progress + VEHICLE_SPEED,
        };
        proof {
            assert(moved == crossed(intersection@[i as int]));
        }
        let threshold = route_threshold(car.behavior);
        if moved.intersection_progress > threshold {
            let e = exit_lane_index(car.origin, car.behavior);
            if e == 4 {
                exits4.push(moved);
            } else if e == 5 {
                exits5.push(moved);
            } else if e == 6 {
                exits6.push(moved);
            } else {
                exits7.push(moved);
            }
        } else {
            kept.push(moved);
        }
        i = i + 1;
    }
    *intersection = kept;
    let mut lane = lanes.remove(4);
    lane.vehicles.append(&mut exits4);
    lanes.insert(4, lane);
    let mut lane = lanes.remove(5);
    lane.vehicles.append(&mut exits5);
    lanes.insert(5, lane);
    let mut lane = lanes.remove(6);
    lane.vehicles.append(&mut exits6);
    lanes.insert(6, lane);
    let mut lane = lanes.remove(7);
    lane.vehicles.append(&mut exits7);
    lanes.insert(7, lane);
    proof {
        assert(lanes@.len() == 8);
    }
}

} // verus!
