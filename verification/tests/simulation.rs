use road_intersection::are_too_close;
use road_intersection::change_lights;
use road_intersection::move_intersection;
use road_intersection::move_lanes;
use road_intersection::spawn_vehicle;
use road_intersection::Behavior;
use road_intersection::Lane;
use road_intersection::LaneLight;
use road_intersection::Lights;
use road_intersection::Vehicle;
use road_intersection::types::VehiclesSpawingFrom;

fn lane(
    name: &str,
    start: (i32, i32),
    direction: VehiclesSpawingFrom,
    state: LaneLight,
) -> Lane {
    Lane {
        name: String::from(name),
        start,
        length: 400,
        direction,
        state,
        vehicles: Vec::new(),
    }
}

/// The eight lanes of the standard crossing: four inbound, four exit, in
/// the fixed order the exit-routing arithmetic relies on.
fn standard_lanes() -> Vec<Lane> {
    vec![
        lane("south", (550, 1000), VehiclesSpawingFrom::Up, LaneLight::Red),
        lane("east", (0, 550), VehiclesSpawingFrom::Left, LaneLight::Red),
        lane("north", (450, 0), VehiclesSpawingFrom::Down, LaneLight::Red),
        lane("west", (1000, 450), VehiclesSpawingFrom::Right, LaneLight::Red),
        lane("exit_north", (550, 400), VehiclesSpawingFrom::Up, LaneLight::Green),
        lane("exit_west", (600, 550), VehiclesSpawingFrom::Left, LaneLight::Green),
        lane("exit_south", (450, 600), VehiclesSpawingFrom::Down, LaneLight::Green),
        lane("exit_east", (400, 450), VehiclesSpawingFrom::Right, LaneLight::Green),
    ]
}

fn vehicle(position: (i32, i32), origin: VehiclesSpawingFrom, behavior: Behavior) -> Vehicle {
    Vehicle { position, origin, behavior, intersection_progress: 0 }
}

fn total_count(lanes: &Vec<Lane>, transit: &Vec<Vehicle>) -> usize {
    lanes.iter().map(|l| l.vehicles.len()).sum::<usize>() + transit.len()
}

#[test]
fn proximity_is_axis_aligned() {
    assert!(are_too_close(&(0, 0), &(79, 79)));
    assert!(!are_too_close(&(0, 0), &(80, 79)));
    assert!(!are_too_close(&(0, 0), &(79, 80)));
    assert!(are_too_close(&(500, 500), &(500, 500)));
    // Far apart diagonally yet both axis gaps small: still too close.
    assert!(are_too_close(&(-10, -10), &(60, 60)));
    // One large axis gap is enough to be clear, whatever the other.
    assert!(!are_too_close(&(0, 0), &(200, 10)));
}

#[test]
fn vehicle_advances_one_increment() {
    let mut lanes = vec![lane("south", (550, 1000), VehiclesSpawingFrom::Up, LaneLight::Red)];
    lanes[0].vehicles.push(vehicle((550, 900), VehiclesSpawingFrom::Up, Behavior::Straight));
    let mut transit = Vec::new();
    move_lanes(&mut lanes, &mut transit);
    assert_eq!(lanes[0].vehicles.len(), 1);
    assert_eq!(lanes[0].vehicles[0].position, (550, 897));
    assert!(transit.is_empty());
}

#[test]
fn follower_held_back_by_predecessor() {
    let mut lanes = vec![lane("south", (550, 1000), VehiclesSpawingFrom::Up, LaneLight::Red)];
    lanes[0].vehicles.push(vehicle((550, 700), VehiclesSpawingFrom::Up, Behavior::Straight));
    lanes[0].vehicles.push(vehicle((550, 781), VehiclesSpawingFrom::Up, Behavior::Straight));
    let mut transit = Vec::new();
    move_lanes(&mut lanes, &mut transit);
    // The leader advances; the follower's next step would come within the
    // safety distance of the leader's start-of-tick position, so it waits.
    assert_eq!(lanes[0].vehicles[0].position, (550, 697));
    assert_eq!(lanes[0].vehicles[1].position, (550, 781));
    // Post-tick the pair still keeps the safety distance.
    let gap = lanes[0].vehicles[1].position.1 - lanes[0].vehicles[0].position.1;
    assert!(gap >= 80);
}

#[test]
fn red_lane_gates_vehicle_at_stop_line() {
    // The "south" lane ends at y = 1000 - 400 - 80 + 20 = 540; a vehicle at
    // y = 600 is within the safety distance of the stop line after one step.
    let mut lanes = vec![lane("south", (550, 1000), VehiclesSpawingFrom::Up, LaneLight::Red)];
    lanes[0].vehicles.push(vehicle((550, 600), VehiclesSpawingFrom::Up, Behavior::Straight));
    let mut transit = Vec::new();
    for _ in 0..5 {
        move_lanes(&mut lanes, &mut transit);
        assert_eq!(lanes[0].vehicles.len(), 1);
        assert_eq!(lanes[0].vehicles[0].position, (550, 600));
        assert!(transit.is_empty());
    }
    lanes[0].state = LaneLight::Green;
    move_lanes(&mut lanes, &mut transit);
    assert!(lanes[0].vehicles.is_empty());
    assert_eq!(transit.len(), 1);
    // Admission hands over the start-of-tick position unchanged.
    assert_eq!(transit[0].position, (550, 600));
}

#[test]
fn exit_lane_vehicle_completes_without_admission() {
    // Exit lanes are always passable; a vehicle completing one leaves the
    // simulation instead of entering the transit set.
    let mut lanes = vec![lane("exit_north", (550, 400), VehiclesSpawingFrom::Up, LaneLight::Green)];
    lanes[0].vehicles.push(vehicle((550, 0), VehiclesSpawingFrom::Up, Behavior::Straight));
    let mut transit = Vec::new();
    move_lanes(&mut lanes, &mut transit);
    assert!(lanes[0].vehicles.is_empty());
    assert!(transit.is_empty());
}

#[test]
fn left_turn_from_south_exits_west() {
    // A vehicle spawned in "south" travels Up: origin index 0. Turning left
    // exits through lane index 4 + 0 + 1 = 5, which is "exit_west".
    let mut lanes = standard_lanes();
    let mut transit = Vec::new();
    let mut car = vehicle((550, 520), VehiclesSpawingFrom::Up, Behavior::TurnLeft);
    car.intersection_progress = 67;
    transit.push(car);
    move_intersection(&mut transit, &mut lanes);
    assert!(transit.is_empty());
    assert_eq!(lanes[5].name, "exit_west");
    assert_eq!(lanes[5].vehicles.len(), 1);
    assert_eq!(lanes[5].vehicles[0].intersection_progress, 70);
}

#[test]
fn straight_from_north_exits_south() {
    // A vehicle spawned in "north" travels Down: origin index 2. Going
    // straight exits through lane index 4 + 2 = 6, which is "exit_south".
    let mut lanes = standard_lanes();
    let mut transit = Vec::new();
    let mut car = vehicle((450, 480), VehiclesSpawingFrom::Down, Behavior::Straight);
    car.intersection_progress = 198;
    transit.push(car);
    move_intersection(&mut transit, &mut lanes);
    assert!(transit.is_empty());
    assert_eq!(lanes[6].name, "exit_south");
    assert_eq!(lanes[6].vehicles.len(), 1);
    assert_eq!(lanes[6].vehicles[0].intersection_progress, 201);
}

#[test]
fn right_turn_wraps_around_the_exit_block() {
    // Origin index 2 turning right: 4 + 2 + 3 = 9 wraps to 5, "exit_west".
    let mut lanes = standard_lanes();
    let mut transit = Vec::new();
    let mut car = vehicle((450, 480), VehiclesSpawingFrom::Down, Behavior::TurnRight);
    car.intersection_progress = 167;
    transit.push(car);
    move_intersection(&mut transit, &mut lanes);
    assert!(transit.is_empty());
    assert_eq!(lanes[5].name, "exit_west");
    assert_eq!(lanes[5].vehicles.len(), 1);
}

#[test]
fn crossing_below_threshold_stays_in_transit() {
    let mut lanes = standard_lanes();
    let mut transit = Vec::new();
    let mut car = vehicle((550, 520), VehiclesSpawingFrom::Up, Behavior::TurnLeft);
    car.intersection_progress = 60;
    transit.push(car);
    move_intersection(&mut transit, &mut lanes);
    assert_eq!(transit.len(), 1);
    assert_eq!(transit[0].intersection_progress, 63);
    assert_eq!(transit[0].position, (550, 517));
    for k in 4..8 {
        assert!(lanes[k].vehicles.is_empty());
    }
}

#[test]
fn tick_conserves_vehicles() {
    let mut lanes = standard_lanes();
    lanes[0].vehicles.push(vehicle((550, 900), VehiclesSpawingFrom::Up, Behavior::Straight));
    lanes[1].vehicles.push(vehicle((100, 550), VehiclesSpawingFrom::Left, Behavior::TurnLeft));
    lanes[2].vehicles.push(vehicle((450, 100), VehiclesSpawingFrom::Down, Behavior::TurnRight));
    let mut transit = vec![vehicle((550, 520), VehiclesSpawingFrom::Up, Behavior::TurnLeft)];
    let before = total_count(&lanes, &transit);
    for _ in 0..10 {
        move_lanes(&mut lanes, &mut transit);
        move_intersection(&mut transit, &mut lanes);
        assert_eq!(total_count(&lanes, &transit), before);
    }
}

#[test]
fn spawn_appends_at_lane_start() {
    let mut l = lane("south", (550, 1000), VehiclesSpawingFrom::Up, LaneLight::Red);
    spawn_vehicle(&mut l);
    assert_eq!(l.vehicles.len(), 1);
    assert_eq!(l.vehicles[0].position, (550, 1000));
    assert!(matches!(l.vehicles[0].origin, VehiclesSpawingFrom::Up));
    assert_eq!(l.vehicles[0].intersection_progress, 0);
    assert!(matches!(
        l.vehicles[0].behavior,
        Behavior::Straight | Behavior::TurnLeft | Behavior::TurnRight
    ));
}

#[test]
fn rapid_double_spawn_yields_one_vehicle() {
    let mut l = lane("south", (550, 1000), VehiclesSpawingFrom::Up, LaneLight::Red);
    spawn_vehicle(&mut l);
    spawn_vehicle(&mut l);
    // The first vehicle still sits on the spawn point, well within the
    // safety distance of it, so the second spawn is silently dropped.
    assert_eq!(l.vehicles.len(), 1);
}

#[test]
fn spawn_allowed_once_lane_clears() {
    let mut l = lane("south", (550, 1000), VehiclesSpawingFrom::Up, LaneLight::Red);
    spawn_vehicle(&mut l);
    // Move the queued vehicle just out of the safety distance of the start.
    l.vehicles[0].position = (550, 920);
    spawn_vehicle(&mut l);
    assert_eq!(l.vehicles.len(), 2);
    assert_eq!(l.vehicles[1].position, (550, 1000));
}

#[test]
fn step_admits_then_gates_in_one_tick() {
    // Within one tick the lanes advance before the controller evaluates:
    // the vehicle admitted by this very tick already counts as crossing,
    // so the elapsed controller shuts the green lane and does not rotate.
    let mut lanes = standard_lanes();
    lanes[0].state = LaneLight::Green;
    lanes[0].vehicles.push(vehicle((550, 600), VehiclesSpawingFrom::Up, Behavior::Straight));
    let mut transit = Vec::new();
    let mut lights = Lights { current_lane_index: 0, last_change_time: 0, change_interval: 100 };
    road_intersection::simulation_step(&mut lanes, &mut transit, &mut lights, 100);
    assert_eq!(transit.len(), 1);
    for k in 0..4 {
        assert!(matches!(lanes[k].state, LaneLight::Red));
    }
    assert_eq!(lights.current_lane_index, 0);
    assert_eq!(lights.last_change_time, 0);
}

#[test]
fn full_journey_south_to_exit_north() {
    // A straight-driving vehicle from "south" travels the whole way: lane
    // queue, admission at the green stop line, crossing, exit lane 4.
    let mut lanes = standard_lanes();
    lanes[0].state = LaneLight::Green;
    lanes[0].vehicles.push(vehicle((550, 1000), VehiclesSpawingFrom::Up, Behavior::Straight));
    let mut transit = Vec::new();
    let mut lights =
        Lights { current_lane_index: 0, last_change_time: 0, change_interval: 1 << 40 };
    let mut reached_exit = false;
    for t in 0..400u64 {
        road_intersection::simulation_step(&mut lanes, &mut transit, &mut lights, t);
        if lanes[4].vehicles.len() == 1 {
            reached_exit = true;
            break;
        }
        assert_eq!(total_count(&lanes, &transit), 1);
    }
    assert!(reached_exit);
    assert_eq!(lanes[4].name, "exit_north");
    assert!(matches!(lanes[4].vehicles[0].behavior, Behavior::Straight));
}

#[test]
fn lights_wait_for_the_interval() {
    let mut lanes = standard_lanes();
    lanes[0].state = LaneLight::Green;
    let mut lights = Lights { current_lane_index: 0, last_change_time: 1000, change_interval: 2000 };
    let transit = Vec::new();
    change_lights(&mut lights, &mut lanes, &transit, 2999);
    assert_eq!(lights.current_lane_index, 0);
    assert_eq!(lights.last_change_time, 1000);
    assert!(matches!(lanes[0].state, LaneLight::Green));
}

#[test]
fn lights_rotate_round_robin_when_clear() {
    let mut lanes = standard_lanes();
    lanes[0].state = LaneLight::Green;
    let mut lights = Lights { current_lane_index: 0, last_change_time: 1000, change_interval: 2000 };
    let transit = Vec::new();
    change_lights(&mut lights, &mut lanes, &transit, 3000);
    assert_eq!(lights.current_lane_index, 1);
    assert_eq!(lights.last_change_time, 3000);
    // Exactly one of the four inbound lanes is green, and it is lane 1.
    let greens: Vec<usize> =
        (0..4).filter(|&k| matches!(lanes[k].state, LaneLight::Green)).collect();
    assert_eq!(greens, vec![1]);
}

#[test]
fn lights_rotate_through_all_four_lanes() {
    let mut lanes = standard_lanes();
    lanes[0].state = LaneLight::Green;
    let mut lights = Lights { current_lane_index: 0, last_change_time: 0, change_interval: 100 };
    let transit = Vec::new();
    let mut now: u64 = 0;
    for expected in [1usize, 2, 3, 0] {
        now += 100;
        change_lights(&mut lights, &mut lanes, &transit, now);
        assert_eq!(lights.current_lane_index, expected);
        let greens: Vec<usize> =
            (0..4).filter(|&k| matches!(lanes[k].state, LaneLight::Green)).collect();
        assert_eq!(greens, vec![expected]);
    }
}

#[test]
fn no_lane_turns_green_while_intersection_occupied() {
    let mut lanes = standard_lanes();
    lanes[0].state = LaneLight::Green;
    let mut lights = Lights { current_lane_index: 0, last_change_time: 1000, change_interval: 2000 };
    let transit = vec![vehicle((550, 500), VehiclesSpawingFrom::Up, Behavior::Straight)];
    change_lights(&mut lights, &mut lanes, &transit, 3000);
    // The green lane shuts but nothing rotates: all four inbound lanes red,
    // and the timer keeps running.
    for k in 0..4 {
        assert!(matches!(lanes[k].state, LaneLight::Red));
    }
    assert_eq!(lights.current_lane_index, 0);
    assert_eq!(lights.last_change_time, 1000);
    // Once the intersection clears, the same elapsed timer rotates at the
    // next evaluation.
    let empty = Vec::new();
    change_lights(&mut lights, &mut lanes, &empty, 3001);
    assert_eq!(lights.current_lane_index, 1);
    assert!(matches!(lanes[1].state, LaneLight::Green));
    assert_eq!(lights.last_change_time, 3001);
}
