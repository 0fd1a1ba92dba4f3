//! Geometry of vehicle motion: the axis-aligned proximity predicate and the
//! one-tick step along a travel direction.

use vstd::prelude::*;

use crate::types::{coord_ok, pos_ok, Vehicle, VehiclesSpawingFrom, SECURITY_DISTANCE,
    VEHICLE_SPEED};

verus! {

/// Absolute difference of two mathematical integers.
pub open spec fn abs_diff(a: int, b: int) -> int {
    if a >= b {
        a - b
    } else {
        b - a
    }
}

/// Axis-aligned proximity over mathematical positions: both the x-gap and
/// the y-gap are strictly below the safety distance.
pub open spec fn too_close_int(a: (int, int), b: (int, int)) -> bool {
    abs_diff(a.0, b.0) < SECURITY_DISTANCE && abs_diff(a.1, b.1) < SECURITY_DISTANCE
}

/// The mathematical value of a concrete position.
pub open spec fn vpos(p: (i32, i32)) -> (int, int) {
    (p.0 as int, p.1 as int)
}

/// Axis-aligned proximity of two concrete positions.
pub open spec fn too_close(a: (i32, i32), b: (i32, i32)) -> bool {
    too_close_int(vpos(a), vpos(b))
}

/// Returns true iff both axis-aligned distances between the two positions
/// are strictly below the safety distance.
pub fn are_too_close(car1_pos: &(i32, i32), car2_pos: &(i32, i32)) -> (r: bool)
    ensures
        r == too_close(*car1_pos, *car2_pos),
{
    let dx: i64 = car1_pos.0 as i64 - car2_pos.0 as i64;
    let dy: i64 = car1_pos.1 as i64 - car2_pos.1 as i64;
    let ax: i64 = if dx >= 0 {
        dx
    } else {
        -dx
    };
    let ay: i64 = if dy >= 0 {
        dy
    } else {
        -dy
    };
    ax < SECURITY_DISTANCE as i64 && ay < SECURITY_DISTANCE as i64
}

/// Where one speed increment along `dir` takes a position, mathematically.
pub open spec fn next_pos_int(p: (i32, i32), dir: VehiclesSpawingFrom) -> (int, int) {
    match dir {
        VehiclesSpawingFrom::Down => (p.0 as int, p.1 + VEHICLE_SPEED),
        VehiclesSpawingFrom::Up => (p.0 as int, p.1 - VEHICLE_SPEED),
        VehiclesSpawingFrom::Right => (p.0 - VEHICLE_SPEED, p.1 as int),
        VehiclesSpawingFrom::Left => (p.0 + VEHICLE_SPEED, p.1 as int),
    }
}

/// The concrete position one speed increment along `dir`; agrees with
/// `next_pos_int` whenever the coordinates are within bounds.
pub open spec fn next_pos(p: (i32, i32), dir: VehiclesSpawingFrom) -> (i32, i32) {
    (next_pos_int(p, dir).0 as i32, next_pos_int(p, dir).1 as i32)
}

/// A vehicle moved one speed increment along `dir`; all other fields kept.
pub open spec fn stepped(v: Vehicle, dir: VehiclesSpawingFrom) -> Vehicle {
    Vehicle { position: next_pos(v.position, dir), ..v }
}

/// Computes the position one speed increment along `dir`.
pub fn advance_pos(p: (i32, i32), dir: VehiclesSpawingFrom) -> (r: (i32, i32))
    requires
        pos_ok(p),
    ensures
        r == next_pos(p, dir),
        vpos(r) == next_pos_int(p, dir),
{
    match dir {
        VehiclesSpawingFrom::Down => (p.0, p.1 + VEHICLE_SPEED),
        VehiclesSpawingFrom::Up => (p.0, p.1 - VEHICLE_SPEED),
        VehiclesSpawingFrom::Right => (p.0 - VEHICLE_SPEED, p.1),
        VehiclesSpawingFrom::Left => (p.0 + VEHICLE_SPEED, p.1),
    }
}

/// How far position `a` is ahead of position `b` along travel direction
/// `dir` (negative when `a` is behind `b`).
pub open spec fn axis_gap(dir: VehiclesSpawingFrom, a: (int, int), b: (int, int)) -> int {
    match dir {
        VehiclesSpawingFrom::Down => a.1 - b.1,
        VehiclesSpawingFrom::Up => b.1 - a.1,
        VehiclesSpawingFrom::Right => b.0 - a.0,
        VehiclesSpawingFrom::Left => a.0 - b.0,
    }
}

/// The two positions agree on the coordinate orthogonal to `dir`.
pub open spec fn cross_aligned(dir: VehiclesSpawingFrom, a: (int, int), b: (int, int)) -> bool {
    match dir {
        VehiclesSpawingFrom::Down => a.0 == b.0,
        VehiclesSpawingFrom::Up => a.0 == b.0,
        VehiclesSpawingFrom::Right => a.1 == b.1,
        VehiclesSpawingFrom::Left => a.1 == b.1,
    }
}

} // verus!
