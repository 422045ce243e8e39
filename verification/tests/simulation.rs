//! A long randomized multi-vehicle run: vehicles spawn from a deterministic
//! pseudo-random stream on all four approaches, and at every tick no two
//! live vehicles' bounding boxes may overlap.

use road_intersection::Direction;
use road_intersection::Turn;
use road_intersection::World;

/// A small deterministic linear congruential generator, so the run is
/// reproducible.
fn next_draw(state: &mut u64) -> u64 {
    *state = state.wrapping_mul(6364136223846793005).wrapping_add(1442695040888963407);
    *state >> 33
}

fn direction_from(draw: u64) -> Direction {
    match draw % 4 {
        0 => Direction::North,
        1 => Direction::South,
        2 => Direction::East,
        _ => Direction::West,
    }
}

fn turn_from(draw: u64) -> Turn {
    match draw % 3 {
        0 => Turn::Left,
        1 => Turn::Right,
        _ => Turn::Straight,
    }
}

#[test]
fn no_live_vehicles_ever_overlap() {
    let mut w = World::new();
    let mut rng: u64 = 42;
    let mut spawned = 0u32;
    for t in 0..2500u32 {
        if t % 6 == 0 {
            let d = direction_from(next_draw(&mut rng));
            let turn = turn_from(next_draw(&mut rng));
            if w.spawn_vehicle_with_turn(d, turn) {
                spawned += 1;
            }
        }
        w.update();
        let live: Vec<(i32, i32)> = w
            .vehicles
            .iter()
            .filter(|v| !v.passed)
            .map(|v| (v.x, v.y))
            .collect();
        for i in 0..live.len() {
            for j in (i + 1)..live.len() {
                let (ax, ay) = live[i];
                let (bx, by) = live[j];
                assert!(
                    (ax - bx).abs() >= 20 || (ay - by).abs() >= 20,
                    "overlap at tick {}: ({}, {}) vs ({}, {})",
                    t,
                    ax,
                    ay,
                    bx,
                    by
                );
            }
        }
    }
    // The run exercised real traffic on all approaches.
    assert_eq!(spawned, 148);
}
