//! Exact waypoint tables produced by the path planner.

use road_intersection::generate_path;
use road_intersection::world::turn_from_seed;
use road_intersection::Direction;
use road_intersection::Turn;

#[test]
fn north_straight_path() {
    let p = generate_path(Direction::North, Turn::Straight);
    assert_eq!(p, vec![(365, -20), (365, 225), (365, 256), (365, 620)]);
}

#[test]
fn north_left_path() {
    let p = generate_path(Direction::North, Turn::Left);
    assert_eq!(p, vec![(365, -20), (365, 225), (365, 315), (820, 315)]);
}

#[test]
fn north_right_path() {
    let p = generate_path(Direction::North, Turn::Right);
    assert_eq!(p, vec![(365, -20), (365, 225), (365, 265), (-20, 265)]);
}

#[test]
fn south_straight_path() {
    let p = generate_path(Direction::South, Turn::Straight);
    assert_eq!(p, vec![(415, 620), (415, 355), (415, 344), (415, -20)]);
}

#[test]
fn south_left_path() {
    let p = generate_path(Direction::South, Turn::Left);
    assert_eq!(p, vec![(415, 620), (415, 355), (415, 265), (-20, 265)]);
}

#[test]
fn east_straight_path() {
    let p = generate_path(Direction::East, Turn::Straight);
    assert_eq!(p, vec![(820, 265), (455, 265), (444, 265), (-20, 265)]);
}

#[test]
fn east_right_path() {
    let p = generate_path(Direction::East, Turn::Right);
    assert_eq!(p, vec![(820, 265), (455, 265), (415, 265), (415, -20)]);
}

#[test]
fn west_straight_path() {
    let p = generate_path(Direction::West, Turn::Straight);
    assert_eq!(p, vec![(-20, 315), (325, 315), (351, 315), (820, 315)]);
}

#[test]
fn west_left_path() {
    let p = generate_path(Direction::West, Turn::Left);
    assert_eq!(p, vec![(-20, 315), (325, 315), (415, 315), (415, -20)]);
}

#[test]
fn every_path_has_four_waypoints_and_shared_entry_and_stop() {
    let dirs = [Direction::North, Direction::South, Direction::East, Direction::West];
    let turns = [Turn::Left, Turn::Right, Turn::Straight];
    for dir in dirs {
        let entry = generate_path(dir, Turn::Straight)[0];
        let stop = generate_path(dir, Turn::Straight)[1];
        for turn in turns {
            let p = generate_path(dir, turn);
            assert_eq!(p.len(), 4);
            // The entry and stop waypoints depend only on the approach.
            assert_eq!(p[0], entry);
            assert_eq!(p[1], stop);
            // Every segment is axis-aligned.
            for k in 0..3 {
                assert!(p[k].0 == p[k + 1].0 || p[k].1 == p[k + 1].1);
            }
        }
    }
}

#[test]
fn stop_waypoints_leave_five_pixels_to_the_box() {
    // North: box spans y 225..245, intersection starts at 250.
    assert_eq!(generate_path(Direction::North, Turn::Straight)[1], (365, 225));
    // South: box spans y 355..375, intersection ends at 350.
    assert_eq!(generate_path(Direction::South, Turn::Straight)[1], (415, 355));
    // East: box spans x 455..475, intersection ends at 450.
    assert_eq!(generate_path(Direction::East, Turn::Straight)[1], (455, 265));
    // West: box spans x 325..345, intersection starts at 350.
    assert_eq!(generate_path(Direction::West, Turn::Straight)[1], (325, 315));
}

#[test]
fn turn_seed_mapping() {
    assert_eq!(turn_from_seed(0), Turn::Left);
    assert_eq!(turn_from_seed(1), Turn::Right);
    assert_eq!(turn_from_seed(2), Turn::Straight);
}
