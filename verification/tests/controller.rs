//! The traffic-light state machine: cycle order, clearance safety, and the
//! adaptive phase-duration policy.

use road_intersection::Direction;
use road_intersection::TrafficLightController;

#[test]
fn initial_state_is_north_green() {
    let c = TrafficLightController::new(3);
    assert_eq!(c.current, Direction::North);
    assert!(!c.all_red_phase);
    assert_eq!(c.phase_duration_ms, 3000);
    assert_eq!(c.base_phase_duration_ms, 3000);
}

#[test]
fn holds_green_before_the_phase_elapses() {
    let mut c = TrafficLightController::new(3);
    c.update(1000, 2, false, false, false);
    assert_eq!(c.current, Direction::North);
    assert!(!c.all_red_phase);
}

#[test]
fn cycle_follows_north_south_east_west() {
    let mut c = TrafficLightController::new(3);
    let mut now = 0u64;
    let expected = [
        Direction::South,
        Direction::East,
        Direction::West,
        Direction::North,
        Direction::South,
    ];
    for want in expected {
        now += 20000;  // well past any phase duration
        c.update(now, 1, false, false, false);
        assert_eq!(c.current, want);
        assert!(!c.all_red_phase);
    }
}

#[test]
fn occupied_switch_enters_clearance_and_remembers_approach() {
    let mut c = TrafficLightController::new(3);
    c.update(5000, 0, true, false, false);
    assert!(c.all_red_phase);
    assert_eq!(c.current, Direction::North);
    assert_eq!(c.phase_duration_ms, 2000);
}

#[test]
fn stop_line_switch_enters_clearance() {
    let mut c = TrafficLightController::new(3);
    c.update(5000, 0, false, true, false);
    assert!(c.all_red_phase);
    assert_eq!(c.current, Direction::North);
}

#[test]
fn clearance_never_left_while_occupied() {
    let mut c = TrafficLightController::new(3);
    c.update(5000, 0, true, false, false);
    assert!(c.all_red_phase);
    // However long it lasts, an occupied intersection keeps the clearance on.
    for k in 1..20u64 {
        c.update(5000 + k * 1000, 3, true, false, false);
        assert!(c.all_red_phase);
        assert_eq!(c.current, Direction::North);
    }
}

#[test]
fn clearance_resolves_to_the_next_approach_once_clear() {
    let mut c = TrafficLightController::new(3);
    c.update(5000, 0, true, false, false);
    assert!(c.all_red_phase);
    // Clear, but the clearance window (2000 ms) has not elapsed yet.
    c.update(6000, 0, false, false, false);
    assert!(c.all_red_phase);
    // Clear and elapsed: green goes to the approach after the remembered one.
    c.update(7000, 1, false, false, false);
    assert!(!c.all_red_phase);
    assert_eq!(c.current, Direction::South);
}

#[test]
fn empty_queue_releases_green_after_the_grace_interval() {
    let mut c = TrafficLightController::new(3);
    // First sight of an empty queue only starts the grace clock.
    c.update(100, 0, false, false, false);
    assert_eq!(c.current, Direction::North);
    // Within the grace interval nothing changes.
    c.update(250, 0, false, false, false);
    assert_eq!(c.current, Direction::North);
    // 200 ms after the queue emptied, the phase is released early.
    c.update(300, 0, false, false, false);
    assert_eq!(c.current, Direction::South);
    assert!(!c.all_red_phase);
}

#[test]
fn a_waiting_vehicle_resets_the_empty_queue_clock() {
    let mut c = TrafficLightController::new(3);
    c.update(100, 0, false, false, false);
    // A vehicle shows up: the grace clock is cleared.
    c.update(200, 1, false, false, false);
    // Empty again at 350; 200 ms later is 550, so no switch at 400.
    c.update(350, 0, false, false, false);
    c.update(400, 0, false, false, false);
    assert_eq!(c.current, Direction::North);
    c.update(560, 0, false, false, false);
    assert_eq!(c.current, Direction::South);
}

#[test]
fn adaptive_duration_policy() {
    // Congested: +5 s over the base.
    let mut c = TrafficLightController::new(3);
    c.update(5000, 1, false, false, true);
    assert_eq!(c.phase_duration_ms, 8000);

    // Heavy queue (> 5 waiting): +2 s.
    let mut c = TrafficLightController::new(3);
    c.update(5000, 6, false, false, false);
    assert_eq!(c.phase_duration_ms, 5000);

    // Empty queue: -1 s.
    let mut c = TrafficLightController::new(3);
    c.update(5000, 0, false, false, false);
    assert_eq!(c.phase_duration_ms, 2000);

    // Light queue: the base unchanged.
    let mut c = TrafficLightController::new(3);
    c.update(5000, 2, false, false, false);
    assert_eq!(c.phase_duration_ms, 3000);
}

#[test]
fn adaptive_duration_respects_floor_and_ceiling() {
    // A one-second base cannot shrink below the floor.
    let mut c = TrafficLightController::new(1);
    assert_eq!(c.base_phase_duration_ms, 1000);
    c.update(5000, 0, false, false, false);
    assert_eq!(c.phase_duration_ms, 1000);

    // A congested eight-second base is capped at the ceiling.
    let mut c = TrafficLightController::new(8);
    c.update(20000, 1, false, false, true);
    assert_eq!(c.phase_duration_ms, 10000);

    // The requested base itself is clamped to the ceiling.
    let c = TrafficLightController::new(60);
    assert_eq!(c.base_phase_duration_ms, 10000);
}
