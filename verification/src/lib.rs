//! A single four-way signalized intersection: vehicles spawn on one of four
//! approaches, follow a precomputed waypoint path (straight, left or right
//! turn), obey an adaptive traffic-light controller and brake to avoid
//! collisions, one simulation tick at a time.

use vstd::prelude::*;

pub mod traffic_light;
pub mod vehicle;
pub mod world;

pub use traffic_light::TrafficLightController;
pub use vehicle::generate_path;
pub use vehicle::Vehicle;
pub use world::World;

verus! {

/// Width of the simulated window, in pixels.
pub const WINDOW_WIDTH: u32 = 800;

/// Height of the simulated window, in pixels.
pub const WINDOW_HEIGHT: u32 = 600;

/// Width of each road (two lanes), in pixels.
pub const ROAD_WIDTH: u32 = 100;

/// Left edge of the vertical road.
pub const ROAD_X: u32 = (WINDOW_WIDTH - ROAD_WIDTH) / 2;

/// Top edge of the horizontal road.
pub const ROAD_Y: u32 = (WINDOW_HEIGHT - ROAD_WIDTH) / 2;

/// Left edge of the intersection bounding box.
pub const INTERSECTION_X_START: u32 = ROAD_X;

/// Right edge of the intersection bounding box.
pub const INTERSECTION_X_END: u32 = ROAD_X + ROAD_WIDTH;

/// Top edge of the intersection bounding box.
pub const INTERSECTION_Y_START: u32 = ROAD_Y;

/// Bottom edge of the intersection bounding box.
pub const INTERSECTION_Y_END: u32 = ROAD_Y + ROAD_WIDTH;

/// Centerline of the northbound lane (traffic from South to North).
pub const NORTHBOUND_LANE_X: i32 = ((ROAD_X + ROAD_WIDTH / 2 + ROAD_X + ROAD_WIDTH) / 2) as i32;

/// Centerline of the southbound lane (traffic from North to South).
pub const SOUTHBOUND_LANE_X: i32 = ((ROAD_X + ROAD_WIDTH / 2 + ROAD_X) / 2) as i32;

/// Centerline of the eastbound lane (traffic from West to East).
pub const EASTBOUND_LANE_Y: i32 = ((ROAD_Y + ROAD_WIDTH / 2 + ROAD_Y + ROAD_WIDTH) / 2) as i32;

/// Centerline of the westbound lane (traffic from East to West).
pub const WESTBOUND_LANE_Y: i32 = ((ROAD_Y + ROAD_WIDTH / 2 + ROAD_Y) / 2) as i32;

/// Side length of a vehicle's square bounding box, in pixels.
pub const VEHICLE_SIZE: u32 = 20;

/// Minimum clearance kept between vehicle bounding boxes during collision
/// avoidance, in pixels.
pub const SAFETY_GAP: u32 = 10;

/// Distance a moving vehicle covers in one tick, in pixels. Also the snap
/// radius: a vehicle closer than this to its target waypoint snaps onto it.
pub const STEP_DISTANCE: u32 = 5;

/// How far outside the window a vehicle may drift before the eviction sweep
/// removes it, in pixels.
pub const EVICTION_MARGIN: u32 = 40;

/// One of the four compass directions from which a vehicle can approach the
/// intersection. The controller's clearance phase is not a direction a
/// vehicle can be assigned; it is the `all_red_phase` flag of
/// [`TrafficLightController`], so path generation is total over this type.
#[derive(Debug, Clone, Copy, PartialEq, Eq, Structural)]
pub enum Direction {
    North,
    South,
    East,
    West,
}

/// The shape of a vehicle's route through the intersection, chosen at spawn
/// time.
#[derive(Debug, Clone, Copy, PartialEq, Eq, Structural)]
pub enum Turn {
    Left,
    Right,
    Straight,
}

/// The fixed right-of-way cycle: North, South, East, West, and back to North.
pub open spec fn spec_next_direction(d: Direction) -> Direction {
    match d {
        Direction::North => Direction::South,
        Direction::South => Direction::East,
        Direction::East => Direction::West,
        Direction::West => Direction::North,
    }
}

/// Successor of an approach in the fixed right-of-way cycle.
pub fn next_direction(d: Direction) -> (r: Direction)
    ensures
        r == spec_next_direction(d),
{
    match d {
        Direction::North => Direction::South,
        Direction::South => Direction::East,
        Direction::East => Direction::West,
        Direction::West => Direction::North,
    }
}

} // verus!
