//! World scenarios: spawning and admission control, eviction, the forced
//! clearance on an empty map, a full crossing, and collision avoidance.

use road_intersection::generate_path;
use road_intersection::world::lane_capacity;
use road_intersection::Direction;
use road_intersection::Turn;
use road_intersection::Vehicle;
use road_intersection::World;

#[test]
fn new_world_is_empty_with_north_green() {
    let w = World::new();
    assert_eq!(w.vehicles.len(), 0);
    assert_eq!(w.controller.current, Direction::North);
    assert!(!w.controller.all_red_phase);
}

#[test]
fn empty_world_ticks_stay_all_red() {
    let mut w = World::new();
    for _ in 0..10 {
        w.update();
        assert!(w.controller.all_red_phase);
        assert_eq!(w.vehicles.len(), 0);
    }
}

#[test]
fn spawn_places_vehicle_on_its_entry_point() {
    let mut w = World::new();
    assert!(w.spawn_vehicle_with_turn(Direction::East, Turn::Left));
    assert_eq!(w.vehicles.len(), 1);
    let v = &w.vehicles[0];
    assert_eq!(v.id, 0);
    assert_eq!(v.dir, Direction::East);
    assert_eq!(v.turn, Turn::Left);
    assert_eq!((v.x, v.y), (820, 265));
    assert_eq!(v.path, generate_path(Direction::East, Turn::Left));
    assert_eq!(v.path_index, 0);
    assert!(!v.passed);
}

#[test]
fn spawned_vehicles_get_increasing_ids() {
    let mut w = World::new();
    assert!(w.spawn_vehicle_with_turn(Direction::North, Turn::Straight));
    assert!(w.spawn_vehicle_with_turn(Direction::South, Turn::Straight));
    assert!(w.spawn_vehicle_with_turn(Direction::East, Turn::Straight));
    let ids: Vec<u32> = w.vehicles.iter().map(|v| v.id).collect();
    assert_eq!(ids, vec![0, 1, 2]);
}

#[test]
fn back_to_back_spawn_on_one_approach_is_rejected() {
    let mut w = World::new();
    assert!(w.spawn_vehicle_with_turn(Direction::North, Turn::Straight));
    // The entry point is still occupied by the first vehicle.
    assert!(!w.spawn_vehicle_with_turn(Direction::North, Turn::Straight));
    assert_eq!(w.vehicles.len(), 1);
    // Other approaches are unaffected.
    assert!(w.spawn_vehicle_with_turn(Direction::South, Turn::Straight));
    // Six ticks move the first vehicle 30 pixels clear of the entry point.
    for _ in 0..6 {
        w.update();
    }
    assert!(w.spawn_vehicle_with_turn(Direction::North, Turn::Straight));
}

#[test]
fn lane_capacities_follow_the_formula() {
    // Lane length from entry to stop waypoint, divided by vehicle size plus
    // safety gap (30).
    assert_eq!(lane_capacity(Direction::North), 245 / 30);
    assert_eq!(lane_capacity(Direction::South), 265 / 30);
    assert_eq!(lane_capacity(Direction::East), 365 / 30);
    assert_eq!(lane_capacity(Direction::West), 345 / 30);
}

/// A queued North vehicle `spacing * 30` pixels behind the stop waypoint.
fn queued_north(id: u32, slot: i32) -> Vehicle {
    Vehicle {
        id,
        dir: Direction::North,
        turn: Turn::Straight,
        x: 365,
        y: 225 - 30 * slot,
        passed: false,
        path: generate_path(Direction::North, Turn::Straight),
        path_index: if slot == 0 { 1 } else { 0 },
    }
}

#[test]
fn spawn_at_capacity_is_rejected() {
    let capacity = lane_capacity(Direction::North);
    assert_eq!(capacity, 8);
    let mut w = World::new();
    for k in 0..capacity {
        w.vehicles.push(queued_north(k as u32, k as i32));
    }
    w.next_id = capacity as u32;
    let before = w.vehicles.len();
    // The lane is at capacity: the next spawn attempt is a no-op.
    assert!(!w.spawn_vehicle_with_turn(Direction::North, Turn::Straight));
    assert_eq!(w.vehicles.len(), before);
    assert_eq!(w.next_id, capacity as u32);
    // One slot under capacity, the spawn goes through.
    w.vehicles.pop();
    assert!(w.spawn_vehicle_with_turn(Direction::North, Turn::Straight));
    assert_eq!(w.vehicles.len(), before);
}

#[test]
fn far_out_of_bounds_vehicle_is_evicted_and_never_returns() {
    let mut w = World::new();
    assert!(w.spawn_vehicle_with_turn(Direction::North, Turn::Straight));
    w.vehicles[0].x = -100;
    w.update();
    assert_eq!(w.vehicles.len(), 0);
    for _ in 0..5 {
        w.update();
        assert_eq!(w.vehicles.len(), 0);
    }
}

#[test]
fn random_turn_spawn_is_well_formed() {
    let mut w = World::new();
    let mut spawned = 0;
    for k in 0..200 {
        let before = w.vehicles.len();
        w.spawn_vehicle(Direction::West);
        if w.vehicles.len() > before {
            spawned += 1;
            let v = w.vehicles.last().unwrap();
            assert!(matches!(v.turn, Turn::Left | Turn::Right | Turn::Straight));
            // The path always belongs to the chosen turn.
            assert_eq!(v.path, generate_path(Direction::West, v.turn));
            assert_eq!((v.x, v.y), (-20, 315));
        }
        let _ = k;
        w.update();
    }
    assert!(spawned > 0);
}

#[test]
fn basic_crossing_scenario() {
    let mut w = World::new();
    assert!(w.spawn_vehicle_with_turn(Direction::North, Turn::Straight));
    let mut done_at = None;
    let mut last_index = 0usize;
    for t in 1..=400 {
        w.update();
        assert_eq!(w.vehicles.len(), 1);
        let v = &w.vehicles[0];
        // The waypoint cursor never moves backwards.
        assert!(v.path_index >= last_index);
        last_index = v.path_index;
        // The vehicle never strays off its lane.
        assert_eq!(v.x, 365);
        if v.passed {
            done_at = Some(t);
            break;
        }
    }
    // The crossing completes in a bounded number of ticks, on the final
    // off-screen waypoint.
    let t = done_at.expect("vehicle should finish its crossing");
    assert!(t <= 400, "crossing took {} ticks", t);
    let v = &w.vehicles[0];
    assert_eq!((v.x, v.y), (365, 620));
    assert_eq!(v.path_index, 3);
}

#[test]
fn trailing_vehicle_keeps_the_safety_gap() {
    let mut w = World::new();
    assert!(w.spawn_vehicle_with_turn(Direction::North, Turn::Straight));
    for _ in 0..6 {
        w.update();
    }
    assert!(w.spawn_vehicle_with_turn(Direction::North, Turn::Straight));
    for _ in 0..500 {
        w.update();
        let live: Vec<&Vehicle> = w.vehicles.iter().filter(|v| !v.passed).collect();
        if live.len() < 2 {
            break;
        }
        let a = live[0];
        let b = live[1];
        // Both on the same lane: the gap along the lane stays at least one
        // vehicle size plus the safety gap.
        if a.x == b.x {
            assert!((a.y - b.y).abs() >= 30, "gap broken: {} vs {}", a.y, b.y);
        }
        // And in no case may the bounding boxes overlap.
        assert!((a.x - b.x).abs() >= 20 || (a.y - b.y).abs() >= 20);
    }
}
