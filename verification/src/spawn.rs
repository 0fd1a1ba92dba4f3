//! Spawning: the single entry point that introduces vehicles. A spawn on a
//! lane whose last-queued vehicle still crowds the lane's start point is
//! silently dropped; otherwise a vehicle with a randomly drawn route is
//! appended at the lane's start.

use vstd::prelude::*;

use crate::geometry::{are_too_close, too_close};
use crate::types::{Behavior, Lane, Vehicle};

verus! {

/// A spawn on this lane is suppressed: the last-queued vehicle is still
/// within the safety distance of the lane's start point.
pub open spec fn spawn_blocked(lane: Lane) -> bool {
    lane.vehicles@.len() > 0 && too_close(lane.vehicles@.last().position, lane.start)
}

/// Relies on rand::thread_rng and rand::Rng::gen_range: gen_range returns a
/// value inside the given non-empty range.
#[verifier::external_body]
fn random_route_choice() -> (r: u32)
    ensures
        r < 3,
{
    rand::Rng::gen_range(&mut rand::thread_rng(), 0..3u32)
}

/// Draws a route uniformly at random for a freshly spawned vehicle.
fn random_behavior() -> Behavior {
    let r = random_route_choice();
    if r == 0 {
        Behavior::Straight
    } else if r == 1 {
        Behavior::TurnRight
    } else {
        Behavior::TurnLeft
    }
}

/// Spawns one vehicle at the lane's start point, traveling in the lane's
/// direction with a randomly drawn route and zero crossing progress — a
/// no-op when the previous spawn is still too close to the start point.
pub fn spawn_vehicle(lane: &mut Lane)
    ensures
        spawn_blocked(*old(lane)) ==> *final(lane) == *old(lane),
        !spawn_blocked(*old(lane)) ==> {
            &&& final(lane).vehicles@.len() == old(lane).vehicles@.len() + 1
            &&& final(lane).vehicles@.drop_last() == old(lane).vehicles@
            &&& final(lane).vehicles@.last().position == old(lane).start
            &&& final(lane).vehicles@.last().origin == old(lane).direction
            &&& final(lane).vehicles@.last().intersection_progress == 0
            &&& final(lane).name == old(lane).name
            &&& final(lane).start == old(lane).start
            &&& final(lane).length == old(lane).length
            &&& final(lane).direction == old(lane).direction
            &&& final(lane).state == old(lane).state
        },
{
    if lane.vehicles.len() > 0 {
        let last_vehicle = &lane.vehicles[lane.vehicles.len() - 1];
        if are_too_close(&last_vehicle.position, &lane.start) {
            return ;
        }
    }
    let behavior = random_behavior();
    lane.vehicles.push(
        Vehicle {
            position: lane.start,
            origin: lane.direction,
            behavior,
            intersection_progress: 0,
        },
    );
}

} // verus!
