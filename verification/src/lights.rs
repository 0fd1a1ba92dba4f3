//! The round-robin light controller: when its interval has elapsed it shuts
//! the current green lane, and only once the intersection is clear does it
//! hand the green to the next inbound lane and restart its timer.

use vstd::prelude::*;

use crate::types::{lights_ok, Lane, LaneLight, Lights, Vehicle};

verus! {

/// The lane `lane` with its light set to `state`, all else kept.
pub open spec fn with_state(lane: Lane, state: LaneLight) -> Lane {
    Lane { state, ..lane }
}

/// Every inbound lane except possibly `idx` shows red: at most one green.
pub open spec fn inbound_red_except(lanes: Seq<Lane>, idx: int) -> bool {
    forall|i: int| 0 <= i < 4 && i != idx ==> (#[trigger] lanes[i]).state == LaneLight::Red
}

/// Exactly one inbound lane shows green: the one at `idx`.
pub open spec fn single_green(lanes: Seq<Lane>, idx: int) -> bool {
    0 <= idx < 4 && lanes[idx].state == LaneLight::Green && inbound_red_except(lanes, idx)
}

/// The controller's rotation fires this call: its interval has elapsed.
pub open spec fn interval_elapsed(l: Lights, now: u64) -> bool {
    now - l.last_change_time >= l.change_interval
}

/// Evaluates the light controller at time `now` (milliseconds on the
/// caller's monotone clock). Once the interval has elapsed the current
/// lane's light turns red; if the intersection is clear the green rotates
/// to the next inbound lane and the timer restarts, otherwise the
/// controller keeps waiting — with the timer left running — so that no red
/// lane turns green while vehicles are still crossing.
pub fn change_lights(
    l: &mut Lights,
    lanes: &mut Vec<Lane>,
    road_intersection: &Vec<Vehicle>,
    now: u64,
)
    requires
        lights_ok(*old(l)),
        old(lanes)@.len() == 8,
        now >= old(l).last_change_time,
    ensures
        lights_ok(*final(l)),
        final(l).change_interval == old(l).change_interval,
        final(lanes)@.len() == 8,
        // Before the interval elapses nothing changes.
        !interval_elapsed(*old(l), now) ==> *final(l) == *old(l) && final(lanes)@ == old(lanes)@,
        // Elapsed, vehicles still crossing: the green lane shuts, nothing rotates.
        interval_elapsed(*old(l), now) && road_intersection@.len() > 0 ==> *final(l) == *old(l)
            && final(lanes)@ == old(lanes)@.update(
            old(l).current_lane_index as int,
            with_state(old(lanes)@[old(l).current_lane_index as int], LaneLight::Red),
        ),
        // Elapsed, intersection clear: the green rotates and the timer restarts.
        interval_elapsed(*old(l), now) && road_intersection@.len() == 0 ==> {
            let prev = old(l).current_lane_index as int;
            let next = ((prev + 1) % 4) as int;
            &&& final(l).current_lane_index as int == next
            &&& final(l).last_change_time == now
            &&& final(lanes)@ == old(lanes)@.update(
                prev,
                with_state(old(lanes)@[prev], LaneLight::Red),
            ).update(next, with_state(old(lanes)@[next], LaneLight::Green))
        },
        // A red inbound lane never turns green while the intersection is occupied.
        road_intersection@.len() > 0 ==> forall|i: int|
            0 <= i < 8 && old(lanes)@[i].state == LaneLight::Red
                ==> (#[trigger] final(lanes)@[i]).state == LaneLight::Red,
        // At most one inbound lane is ever green, and after a rotation exactly one.
        inbound_red_except(old(lanes)@, old(l).current_lane_index as int) ==> inbound_red_except(
            final(lanes)@,
            final(l).current_lane_index as int,
        ),
        interval_elapsed(*old(l), now) && road_intersection@.len() == 0 && inbound_red_except(
            old(lanes)@,
            old(l).current_lane_index as int,
        ) ==> single_green(final(lanes)@, final(l).current_lane_index as int),
{
    if now - l.last_change_time >= l.change_interval {
        let idx = l.current_lane_index;
        let mut lane = lanes.remove(idx);
        lane.state = LaneLight::Red;
        lanes.insert(idx, lane);
        proof {
            assert(lanes@ =~= old(lanes)@.update(
                idx as int,
                with_state(old(lanes)@[idx as int], LaneLight::Red),
            ));
        }
        if road_intersection.is_empty() {
            let next = (idx + 1) % 4;
            l.current_lane_index = next;
            let mut lane = lanes.remove(next);
            lane.state = LaneLight::Green;
            lanes.insert(next, lane);
            l.last_change_time = now;
            proof {
                assert(lanes@ =~= old(lanes)@.update(
                    idx as int,
                    with_state(old(lanes)@[idx as int], LaneLight::Red),
                ).update(next as int, with_state(old(lanes)@[next as int], LaneLight::Green)));
            }
        }
    }
}

} // verus!
