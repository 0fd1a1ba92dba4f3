//! The data entities of the simulation: vehicles, lanes and the light
//! controller, together with the well-formedness predicates that the
//! tick operations rely on.

use vstd::prelude::*;

verus! {

/// Visual extent of a vehicle, in world units.
pub const VEHICLE_SIZE: i32 = 40;

/// Distance a vehicle travels in one tick.
pub const VEHICLE_SPEED: i32 = 3;

/// Minimal axis-aligned separation between vehicles.
pub const SECURITY_DISTANCE: i32 = VEHICLE_SIZE * 2;

/// Bound on world coordinates and lane lengths; keeps every position
/// computation inside `i32` with room for one speed increment.
pub const COORD_LIMIT: i32 = 1000000000;

/// State of a traffic light on an inbound lane.
#[derive(Clone, Copy, Debug, PartialEq, Eq, Structural)]
pub enum LaneLight {
    Green,
    Red,
}

/// Travel direction of a lane's vehicles, named for the screen edge the
/// vehicles head toward.
#[derive(Clone, Copy, Debug, PartialEq, Eq, Structural)]
pub enum VehiclesSpawingFrom {
    Up,
    Down,
    Right,
    Left,
}

/// Route a vehicle takes through the intersection, fixed at spawn time.
#[derive(Clone, Copy, Debug, PartialEq, Eq, Structural)]
pub enum Behavior {
    Straight,
    TurnRight,
    TurnLeft,
}

/// A single vehicle: its center position, its travel direction, its route
/// through the intersection, and the distance accumulated while crossing.
#[derive(Clone, Copy, Debug, PartialEq)]
pub struct Vehicle {
    pub position: (i32, i32),
    pub origin: VehiclesSpawingFrom,
    pub behavior: Behavior,
    pub intersection_progress: i32,
}

/// A lane: an ordered queue of vehicles (index 0 spawned first, hence
/// closest to the end of the lane) plus the lane's geometry and light.
pub struct Lane {
    pub name: String,
    pub start: (i32, i32),
    pub length: u32,
    pub direction: VehiclesSpawingFrom,
    pub state: LaneLight,
    pub vehicles: Vec<Vehicle>,
}

/// The round-robin light controller's state. Times are in milliseconds of
/// some monotone clock supplied by the caller.
#[derive(Clone, Copy, Debug, PartialEq)]
pub struct Lights {
    pub current_lane_index: usize,
    pub last_change_time: u64,
    pub change_interval: u64,
}

/// A coordinate small enough that one speed increment cannot overflow.
pub open spec fn coord_ok(c: i32) -> bool {
    -COORD_LIMIT <= c && c <= COORD_LIMIT
}

/// Both coordinates of a position are within bounds.
pub open spec fn pos_ok(p: (i32, i32)) -> bool {
    coord_ok(p.0) && coord_ok(p.1)
}

/// The lane's start and length are small enough that its stop-line
/// coordinate fits in `i32`.
pub open spec fn lane_geometry_ok(lane: Lane) -> bool {
    pos_ok(lane.start) && lane.length as int <= COORD_LIMIT as int
}

/// Every vehicle queued in the lane sits at a bounded position.
pub open spec fn lane_vehicles_ok(lane: Lane) -> bool {
    forall|i: int|
        0 <= i < lane.vehicles@.len() ==> pos_ok(#[trigger] lane.vehicles@[i].position)
}

/// Bounds needed to advance the lane by one tick without overflow.
pub open spec fn lane_ok(lane: Lane) -> bool {
    lane_geometry_ok(lane) && lane_vehicles_ok(lane)
}

/// Bounds needed to advance a crossing vehicle by one tick without overflow.
pub open spec fn transit_vehicle_ok(v: Vehicle) -> bool {
    pos_ok(v.position) && v.intersection_progress <= COORD_LIMIT
}

/// The controller points at one of the four inbound lanes.
pub open spec fn lights_ok(l: Lights) -> bool {
    l.current_lane_index < 4
}

/// A lane is an exit lane exactly when its name starts with "exit".
pub open spec fn is_exit_lane(lane: Lane) -> bool {
    lane.name@.len() >= 4 && lane.name@[0] == 'e' && lane.name@[1] == 'x'
        && lane.name@[2] == 'i' && lane.name@[3] == 't'
}

/// Two lanes that agree on everything but their vehicle queues.
pub open spec fn lane_same_shape(a: Lane, b: Lane) -> bool {
    a.name == b.name && a.start == b.start && a.length == b.length
        && a.direction == b.direction && a.state == b.state
}

} // verus!
