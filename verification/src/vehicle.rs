//! Vehicles, their precomputed waypoint paths, and the per-tick motion and
//! collision-avoidance rules.
//!
//! Every path is a sequence of four axis-aligned waypoints: an off-screen
//! entry point, a stop waypoint just outside the intersection, an interior
//! (or turn) waypoint, and an off-screen exit point. Motion is exact integer
//! stepping: a vehicle moves [`STEP_DISTANCE`] pixels per tick toward the
//! waypoint after `path_index`, and snaps onto that waypoint (advancing the
//! cursor) once it is closer than [`STEP_DISTANCE`] to it.

use vstd::prelude::*;

use crate::Direction;
use crate::Turn;
use crate::EVICTION_MARGIN;
use crate::INTERSECTION_X_END;
use crate::INTERSECTION_X_START;
use crate::INTERSECTION_Y_END;
use crate::INTERSECTION_Y_START;
use crate::NORTHBOUND_LANE_X;
use crate::SAFETY_GAP;
use crate::SOUTHBOUND_LANE_X;
use crate::EASTBOUND_LANE_Y;
use crate::WESTBOUND_LANE_Y;
use crate::STEP_DISTANCE;
use crate::VEHICLE_SIZE;
use crate::WINDOW_HEIGHT;
use crate::WINDOW_WIDTH;

verus! {

/// X of the top-left corner of a vehicle box centered on the southbound lane
/// (half the vehicle size left of the lane centerline).
pub const SOUTHBOUND_VEHICLE_X: i32 = SOUTHBOUND_LANE_X - 10;

/// X of the top-left corner of a vehicle box centered on the northbound lane.
pub const NORTHBOUND_VEHICLE_X: i32 = NORTHBOUND_LANE_X - 10;

/// Y of the top-left corner of a vehicle box centered on the eastbound lane.
pub const EASTBOUND_VEHICLE_Y: i32 = EASTBOUND_LANE_Y - 10;

/// Y of the top-left corner of a vehicle box centered on the westbound lane.
pub const WESTBOUND_VEHICLE_Y: i32 = WESTBOUND_LANE_Y - 10;

/// X just left of the window, where westbound traffic exits and West traffic
/// enters (one vehicle fully off screen).
pub const OFFSCREEN_LEFT_X: i32 = 0 - VEHICLE_SIZE as i32;

/// X just right of the window.
pub const OFFSCREEN_RIGHT_X: i32 = (WINDOW_WIDTH + VEHICLE_SIZE) as i32;

/// Y just above the window.
pub const OFFSCREEN_TOP_Y: i32 = 0 - VEHICLE_SIZE as i32;

/// Y just below the window.
pub const OFFSCREEN_BOTTOM_Y: i32 = (WINDOW_HEIGHT + VEHICLE_SIZE) as i32;

/// Stop waypoint Y for the North approach: the whole vehicle box ends five
/// pixels short of the intersection's top edge.
pub const NORTH_STOP_Y: i32 = (INTERSECTION_Y_START - VEHICLE_SIZE) as i32 - 5;

/// Stop waypoint Y for the South approach: five pixels past the
/// intersection's bottom edge.
pub const SOUTH_STOP_Y: i32 = INTERSECTION_Y_END as i32 + 5;

/// Stop waypoint X for the East approach: five pixels past the
/// intersection's right edge.
pub const EAST_STOP_X: i32 = INTERSECTION_X_END as i32 + 5;

/// Stop waypoint X for the West approach: the whole vehicle box ends five
/// pixels short of the intersection's left edge.
pub const WEST_STOP_X: i32 = (INTERSECTION_X_START - VEHICLE_SIZE) as i32 - 5;

/// Interior waypoint for straight North traffic, just inside the box.
pub const NORTH_STRAIGHT_MID_Y: i32 = INTERSECTION_Y_START as i32 + 6;

/// Interior waypoint for straight South traffic, just inside the box.
pub const SOUTH_STRAIGHT_MID_Y: i32 = INTERSECTION_Y_END as i32 - 6;

/// Interior waypoint for straight East traffic, just inside the box.
pub const EAST_STRAIGHT_MID_X: i32 = INTERSECTION_X_END as i32 - 6;

/// Interior waypoint for straight West traffic, just inside the box.
pub const WEST_STRAIGHT_MID_X: i32 = INTERSECTION_X_START as i32 + 1;

/// A vehicle crossing the intersection. Its position `(x, y)` is the
/// top-left corner of a [`VEHICLE_SIZE`]-square bounding box; `path` is the
/// fixed waypoint sequence it follows and `path_index` the index of the last
/// waypoint it reached (so it is heading toward `path[path_index + 1]`).
#[derive(Debug, Clone)]
pub struct Vehicle {
    /// Unique, monotonically increasing identity.
    pub id: u32,
    /// Approach the vehicle entered from.
    pub dir: Direction,
    /// Route shape chosen at spawn time.
    pub turn: Turn,
    /// X of the bounding box's top-left corner.
    pub x: i32,
    /// Y of the bounding box's top-left corner.
    pub y: i32,
    /// True once the vehicle has reached its final waypoint; it is inert
    /// thereafter and waits only for eviction.
    pub passed: bool,
    /// The waypoints, from off-screen entry to off-screen exit.
    pub path: Vec<(i32, i32)>,
    /// Index of the last waypoint reached.
    pub path_index: usize,
}

/// The off-screen point where a vehicle on the given approach spawns; always
/// the first waypoint of its path, whatever its turn.
pub open spec fn spec_entry_point(dir: Direction) -> (i32, i32) {
    match dir {
        Direction::North => (SOUTHBOUND_VEHICLE_X, OFFSCREEN_TOP_Y),
        Direction::South => (NORTHBOUND_VEHICLE_X, OFFSCREEN_BOTTOM_Y),
        Direction::East => (OFFSCREEN_RIGHT_X, WESTBOUND_VEHICLE_Y),
        Direction::West => (OFFSCREEN_LEFT_X, EASTBOUND_VEHICLE_Y),
    }
}

/// The stop waypoint of the given approach: five pixels of clearance between
/// the vehicle box and the intersection box on every approach; always the
/// second waypoint of a path, whatever the turn.
pub open spec fn spec_stop_point(dir: Direction) -> (i32, i32) {
    match dir {
        Direction::North => (SOUTHBOUND_VEHICLE_X, NORTH_STOP_Y),
        Direction::South => (NORTHBOUND_VEHICLE_X, SOUTH_STOP_Y),
        Direction::East => (EAST_STOP_X, WESTBOUND_VEHICLE_Y),
        Direction::West => (WEST_STOP_X, EASTBOUND_VEHICLE_Y),
    }
}

/// The off-screen point where a vehicle on the given approach spawns.
pub fn entry_point(dir: Direction) -> (p: (i32, i32))
    ensures
        p == spec_entry_point(dir),
{
    match dir {
        Direction::North => (SOUTHBOUND_VEHICLE_X, OFFSCREEN_TOP_Y),
        Direction::South => (NORTHBOUND_VEHICLE_X, OFFSCREEN_BOTTOM_Y),
        Direction::East => (OFFSCREEN_RIGHT_X, WESTBOUND_VEHICLE_Y),
        Direction::West => (OFFSCREEN_LEFT_X, EASTBOUND_VEHICLE_Y),
    }
}

/// The stop waypoint of the given approach.
pub fn stop_point(dir: Direction) -> (p: (i32, i32))
    ensures
        p == spec_stop_point(dir),
{
    match dir {
        Direction::North => (SOUTHBOUND_VEHICLE_X, NORTH_STOP_Y),
        Direction::South => (NORTHBOUND_VEHICLE_X, SOUTH_STOP_Y),
        Direction::East => (EAST_STOP_X, WESTBOUND_VEHICLE_Y),
        Direction::West => (WEST_STOP_X, EASTBOUND_VEHICLE_Y),
    }
}

/// The full waypoint table: entry point, stop waypoint, an interior or turn
/// waypoint, and the off-screen exit on the edge the turn leads to
/// (right-hand traffic: a left turn crosses the centerline, a right turn
/// hugs the near corner).
pub open spec fn spec_path(dir: Direction, turn: Turn) -> Seq<(i32, i32)> {
    match dir {
        Direction::North => match turn {
            Turn::Straight => seq![
                (SOUTHBOUND_VEHICLE_X, OFFSCREEN_TOP_Y),
                (SOUTHBOUND_VEHICLE_X, NORTH_STOP_Y),
                (SOUTHBOUND_VEHICLE_X, NORTH_STRAIGHT_MID_Y),
                (SOUTHBOUND_VEHICLE_X, OFFSCREEN_BOTTOM_Y),
            ],
            Turn::Left => seq![
                (SOUTHBOUND_VEHICLE_X, OFFSCREEN_TOP_Y),
                (SOUTHBOUND_VEHICLE_X, NORTH_STOP_Y),
                (SOUTHBOUND_VEHICLE_X, EASTBOUND_VEHICLE_Y),
                (OFFSCREEN_RIGHT_X, EASTBOUND_VEHICLE_Y),
            ],
            Turn::Right => seq![
                (SOUTHBOUND_VEHICLE_X, OFFSCREEN_TOP_Y),
                (SOUTHBOUND_VEHICLE_X, NORTH_STOP_Y),
                (SOUTHBOUND_VEHICLE_X, WESTBOUND_VEHICLE_Y),
                (OFFSCREEN_LEFT_X, WESTBOUND_VEHICLE_Y),
            ],
        },
        Direction::South => match turn {
            Turn::Straight => seq![
                (NORTHBOUND_VEHICLE_X, OFFSCREEN_BOTTOM_Y),
                (NORTHBOUND_VEHICLE_X, SOUTH_STOP_Y),
                (NORTHBOUND_VEHICLE_X, SOUTH_STRAIGHT_MID_Y),
                (NORTHBOUND_VEHICLE_X, OFFSCREEN_TOP_Y),
            ],
            Turn::Left => seq![
                (NORTHBOUND_VEHICLE_X, OFFSCREEN_BOTTOM_Y),
                (NORTHBOUND_VEHICLE_X, SOUTH_STOP_Y),
                (NORTHBOUND_VEHICLE_X, WESTBOUND_VEHICLE_Y),
                (OFFSCREEN_LEFT_X, WESTBOUND_VEHICLE_Y),
            ],
            Turn::Right => seq![
                (NORTHBOUND_VEHICLE_X, OFFSCREEN_BOTTOM_Y),
                (NORTHBOUND_VEHICLE_X, SOUTH_STOP_Y),
                (NORTHBOUND_VEHICLE_X, EASTBOUND_VEHICLE_Y),
                (OFFSCREEN_RIGHT_X, EASTBOUND_VEHICLE_Y),
            ],
        },
        Direction::East => match turn {
            Turn::Straight => seq![
                (OFFSCREEN_RIGHT_X, WESTBOUND_VEHICLE_Y),
                (EAST_STOP_X, WESTBOUND_VEHICLE_Y),
                (EAST_STRAIGHT_MID_X, WESTBOUND_VEHICLE_Y),
                (OFFSCREEN_LEFT_X, WESTBOUND_VEHICLE_Y),
            ],
            Turn::Left => seq![
                (OFFSCREEN_RIGHT_X, WESTBOUND_VEHICLE_Y),
                (EAST_STOP_X, WESTBOUND_VEHICLE_Y),
                (SOUTHBOUND_VEHICLE_X, WESTBOUND_VEHICLE_Y),
                (SOUTHBOUND_VEHICLE_X, OFFSCREEN_BOTTOM_Y),
            ],
            Turn::Right => seq![
                (OFFSCREEN_RIGHT_X, WESTBOUND_VEHICLE_Y),
                (EAST_STOP_X, WESTBOUND_VEHICLE_Y),
                (NORTHBOUND_VEHICLE_X, WESTBOUND_VEHICLE_Y),
                (NORTHBOUND_VEHICLE_X, OFFSCREEN_TOP_Y),
            ],
        },
        Direction::West => match turn {
            Turn::Straight => seq![
                (OFFSCREEN_LEFT_X, EASTBOUND_VEHICLE_Y),
                (WEST_STOP_X, EASTBOUND_VEHICLE_Y),
                (WEST_STRAIGHT_MID_X, EASTBOUND_VEHICLE_Y),
                (OFFSCREEN_RIGHT_X, EASTBOUND_VEHICLE_Y),
            ],
            Turn::Left => seq![
                (OFFSCREEN_LEFT_X, EASTBOUND_VEHICLE_Y),
                (WEST_STOP_X, EASTBOUND_VEHICLE_Y),
                (NORTHBOUND_VEHICLE_X, EASTBOUND_VEHICLE_Y),
                (NORTHBOUND_VEHICLE_X, OFFSCREEN_TOP_Y),
            ],
            Turn::Right => seq![
                (OFFSCREEN_LEFT_X, EASTBOUND_VEHICLE_Y),
                (WEST_STOP_X, EASTBOUND_VEHICLE_Y),
                (SOUTHBOUND_VEHICLE_X, EASTBOUND_VEHICLE_Y),
                (SOUTHBOUND_VEHICLE_X, OFFSCREEN_BOTTOM_Y),
            ],
        },
    }
}

/// Every path has exactly four waypoints; its entry and stop waypoints
/// depend only on the approach, so stop-line tests agree across turns.
pub proof fn lemma_path_shape(dir: Direction, turn: Turn)
    ensures
        spec_path(dir, turn).len() == 4,
        spec_path(dir, turn)[0] == spec_entry_point(dir),
        spec_path(dir, turn)[1] == spec_stop_point(dir),
{
}

/// Map an approach and a turn to the ordered waypoint sequence a vehicle
/// follows, from off-screen entry to off-screen exit.
pub fn generate_path(dir: Direction, turn: Turn) -> (path: Vec<(i32, i32)>)
    ensures
        path@ == spec_path(dir, turn),
        path@.len() == 4,
        path@[0] == spec_entry_point(dir),
        path@[1] == spec_stop_point(dir),
{
    let mut path: Vec<(i32, i32)> = Vec::new();
    match dir {
        Direction::North => {
            let x = SOUTHBOUND_VEHICLE_X;
            path.push((x, OFFSCREEN_TOP_Y));
            path.push((x, NORTH_STOP_Y));
            match turn {
                Turn::Straight => {
                    path.push((x, NORTH_STRAIGHT_MID_Y));
                    path.push((x, OFFSCREEN_BOTTOM_Y));
                }
                Turn::Left => {
                    path.push((x, EASTBOUND_VEHICLE_Y));
                    path.push((OFFSCREEN_RIGHT_X, EASTBOUND_VEHICLE_Y));
                }
                Turn::Right => {
                    path.push((x, WESTBOUND_VEHICLE_Y));
                    path.push((OFFSCREEN_LEFT_X, WESTBOUND_VEHICLE_Y));
                }
            }
        }
        Direction::South => {
            let x = NORTHBOUND_VEHICLE_X;
            path.push((x, OFFSCREEN_BOTTOM_Y));
            path.push((x, SOUTH_STOP_Y));
            match turn {
                Turn::Straight => {
                    path.push((x, SOUTH_STRAIGHT_MID_Y));
                    path.push((x, OFFSCREEN_TOP_Y));
                }
                Turn::Left => {
                    path.push((x, WESTBOUND_VEHICLE_Y));
                    path.push((OFFSCREEN_LEFT_X, WESTBOUND_VEHICLE_Y));
                }
                Turn::Right => {
                    path.push((x, EASTBOUND_VEHICLE_Y));
                    path.push((OFFSCREEN_RIGHT_X, EASTBOUND_VEHICLE_Y));
                }
            }
        }
        Direction::East => {
            let y = WESTBOUND_VEHICLE_Y;
            path.push((OFFSCREEN_RIGHT_X, y));
            path.push((EAST_STOP_X, y));
            match turn {
                Turn::Straight => {
                    path.push((EAST_STRAIGHT_MID_X, y));
                    path.push((OFFSCREEN_LEFT_X, y));
                }
                Turn::Left => {
                    path.push((SOUTHBOUND_VEHICLE_X, y));
                    path.push((SOUTHBOUND_VEHICLE_X, OFFSCREEN_BOTTOM_Y));
                }
                Turn::Right => {
                    path.push((NORTHBOUND_VEHICLE_X, y));
                    path.push((NORTHBOUND_VEHICLE_X, OFFSCREEN_TOP_Y));
                }
            }
        }
        Direction::West => {
            let y = EASTBOUND_VEHICLE_Y;
            path.push((OFFSCREEN_LEFT_X, y));
            path.push((WEST_STOP_X, y));
            match turn {
                Turn::Straight => {
                    path.push((WEST_STRAIGHT_MID_X, y));
                    path.push((OFFSCREEN_RIGHT_X, y));
                }
                Turn::Left => {
                    path.push((NORTHBOUND_VEHICLE_X, y));
                    path.push((NORTHBOUND_VEHICLE_X, OFFSCREEN_TOP_Y));
                }
                Turn::Right => {
                    path.push((SOUTHBOUND_VEHICLE_X, y));
                    path.push((SOUTHBOUND_VEHICLE_X, OFFSCREEN_BOTTOM_Y));
                }
            }
        }
    }
    proof {
        assert(path@ =~= spec_path(dir, turn));
    }
    path
}

/// Absolute value of a mathematical integer.
pub open spec fn spec_abs(a: int) -> int {
    if a >= 0 {
        a
    } else {
        -a
    }
}

/// Manhattan distance between two points. On the axis-aligned segments of a
/// path it equals the geometric distance along the segment.
pub open spec fn spec_manhattan(x: int, y: int, tx: int, ty: int) -> int {
    spec_abs(tx - x) + spec_abs(ty - y)
}

/// `x` moved toward `t`, but by at most `budget`.
pub open spec fn spec_move_coord(x: int, t: int, budget: int) -> int {
    if t >= x {
        if t - x <= budget {
            t
        } else {
            x + budget
        }
    } else {
        if x - t <= budget {
            t
        } else {
            x - budget
        }
    }
}

/// One tick of motion toward `(tx, ty)`: spend the step budget on the x axis
/// first and any remainder on the y axis. On an axis-aligned segment this is
/// exactly a [`STEP_DISTANCE`] move along the direction of travel.
pub open spec fn spec_step_pos(x: int, y: int, tx: int, ty: int) -> (int, int) {
    let dx = spec_abs(tx - x);
    let budget = STEP_DISTANCE as int;
    let spent = if dx <= budget {
        dx
    } else {
        budget
    };
    (spec_move_coord(x, tx, budget), spec_move_coord(y, ty, budget - spent))
}

/// Moving a coordinate stays between start and target and shortens the
/// remaining distance by exactly the budget spent.
proof fn lemma_move_coord(x: int, t: int, budget: int)
    requires
        0 <= budget,
    ensures
        spec_abs(t - spec_move_coord(x, t, budget)) == if spec_abs(t - x) <= budget {
            0int
        } else {
            spec_abs(t - x) - budget
        },
        x <= t ==> x <= spec_move_coord(x, t, budget) <= t,
        t <= x ==> t <= spec_move_coord(x, t, budget) <= x,
{
}

/// One tick of motion lands between the old position and the target on each
/// axis and shortens the Manhattan distance by exactly [`STEP_DISTANCE`]
/// whenever the target is at least that far away.
pub proof fn lemma_step_pos(x: int, y: int, tx: int, ty: int)
    ensures
        ({
            let p = spec_step_pos(x, y, tx, ty);
            &&& spec_abs(tx - p.0) <= spec_abs(tx - x)
            &&& spec_abs(ty - p.1) <= spec_abs(ty - y)
            &&& x <= tx ==> x <= p.0 <= tx
            &&& tx <= x ==> tx <= p.0 <= x
            &&& y <= ty ==> y <= p.1 <= ty
            &&& ty <= y ==> ty <= p.1 <= y
            &&& spec_manhattan(x, y, tx, ty) >= STEP_DISTANCE ==> spec_manhattan(
                p.0,
                p.1,
                tx,
                ty,
            ) == spec_manhattan(x, y, tx, ty) - STEP_DISTANCE
        }),
{
    let budget = STEP_DISTANCE as int;
    let dx = spec_abs(tx - x);
    let spent = if dx <= budget {
        dx
    } else {
        budget
    };
    lemma_move_coord(x, tx, budget);
    lemma_move_coord(y, ty, budget - spent);
}

/// Whether a vehicle still has a waypoint to head toward.
pub open spec fn spec_has_target(v: Vehicle) -> bool {
    v.path_index + 1 < v.path@.len()
}

/// The waypoint a vehicle is heading toward (meaningful only when
/// [`spec_has_target`] holds).
pub open spec fn spec_target(v: Vehicle) -> (i32, i32) {
    v.path@[v.path_index + 1]
}

/// Whether a vehicle box whose top-left corner is `(x, y)` overlaps the
/// intersection bounding box.
pub open spec fn spec_in_intersection(x: int, y: int) -> bool {
    &&& x < INTERSECTION_X_END
    &&& x + VEHICLE_SIZE > INTERSECTION_X_START
    &&& y < INTERSECTION_Y_END
    &&& y + VEHICLE_SIZE > INTERSECTION_Y_START
}

/// Whether a vehicle box whose top-left corner is `(x, y)` overlaps the
/// intersection bounding box.
pub fn in_intersection(x: i32, y: i32) -> (r: bool)
    ensures
        r == spec_in_intersection(x as int, y as int),
{
    let xl = x as i64;
    let yl = y as i64;
    xl < INTERSECTION_X_END as i64 && xl + VEHICLE_SIZE as i64 > INTERSECTION_X_START as i64
        && yl < INTERSECTION_Y_END as i64 && yl + VEHICLE_SIZE as i64
        > INTERSECTION_Y_START as i64
}

/// Whether a vehicle must hold for the light: it sits at its stop waypoint
/// cursor position, is not yet inside the intersection, and its approach
/// does not hold right of way. A vehicle already inside the box is never
/// stopped by the light: it must clear, not freeze mid-box.
pub open spec fn spec_stop_for_light(v: Vehicle, green: Direction, all_red: bool) -> bool {
    &&& v.path_index == 1
    &&& !spec_in_intersection(v.x as int, v.y as int)
    &&& !(v.dir == green && !all_red)
}

/// Where the vehicle would stand after one tick of unobstructed motion.
pub open spec fn spec_projected_pos(v: Vehicle) -> (int, int) {
    if spec_has_target(v) {
        let t = spec_target(v);
        if spec_manhattan(v.x as int, v.y as int, t.0 as int, t.1 as int) < STEP_DISTANCE {
            (t.0 as int, t.1 as int)
        } else {
            spec_step_pos(v.x as int, v.y as int, t.0 as int, t.1 as int)
        }
    } else {
        (v.x as int, v.y as int)
    }
}

/// Whether a box at `(px, py)`, inflated by the safety gap on all sides,
/// overlaps a plain vehicle box at `(ox, oy)`.
pub open spec fn spec_boxes_conflict(px: int, py: int, ox: int, oy: int) -> bool {
    &&& px - SAFETY_GAP < ox + VEHICLE_SIZE
    &&& px + VEHICLE_SIZE + SAFETY_GAP > ox
    &&& py - SAFETY_GAP < oy + VEHICLE_SIZE
    &&& py + VEHICLE_SIZE + SAFETY_GAP > oy
}

/// The vector a vehicle is about to move along: toward its target waypoint,
/// or zero at the end of its path.
pub open spec fn spec_motion_vector(v: Vehicle) -> (int, int) {
    if spec_has_target(v) {
        (spec_target(v).0 - v.x, spec_target(v).1 - v.y)
    } else {
        (0, 0)
    }
}

/// Whether `other` lies ahead of `v` along `v`'s direction of travel. Only
/// traffic in front can make a vehicle brake; braking for traffic behind
/// would freeze queues and crossings forever.
pub open spec fn spec_in_front(v: Vehicle, other: Vehicle) -> bool {
    let m = spec_motion_vector(v);
    m.0 * (other.x - v.x) + m.1 * (other.y - v.y) > 0
}

/// Whether `other` blocks `v`: a different, still-live vehicle ahead of `v`
/// whose current box `v`'s projected bounding box, inflated by the safety
/// gap, would overlap.
pub open spec fn spec_blocked_by(v: Vehicle, other: Vehicle) -> bool {
    &&& other.id != v.id
    &&& !other.passed
    &&& spec_in_front(v, other)
    &&& spec_boxes_conflict(
        spec_projected_pos(v).0,
        spec_projected_pos(v).1,
        other.x as int,
        other.y as int,
    )
}

/// Whether `v` must hold this tick to avoid a collision.
pub open spec fn spec_stop_for_collision(v: Vehicle, all: Seq<Vehicle>) -> bool {
    exists|j: int| 0 <= j < all.len() && #[trigger] spec_blocked_by(v, all[j])
}

/// The per-tick stop decision, taken for every vehicle from one snapshot
/// `all` of pre-tick vehicle states.
pub open spec fn spec_should_stop(
    v: Vehicle,
    all: Seq<Vehicle>,
    green: Direction,
    all_red: bool,
) -> bool {
    spec_stop_for_light(v, green, all_red) || spec_stop_for_collision(v, all)
}

/// The mutable fields of a vehicle after one tick: `(x, y, path_index,
/// passed)`. A passed or stopped vehicle keeps its state; one within snap
/// range of its target snaps onto it and advances the cursor; one at its
/// final waypoint becomes passed; any other moves one step toward its
/// target.
pub open spec fn spec_step_fields(
    v: Vehicle,
    all: Seq<Vehicle>,
    green: Direction,
    all_red: bool,
) -> (i32, i32, usize, bool) {
    if v.passed {
        (v.x, v.y, v.path_index, v.passed)
    } else if spec_should_stop(v, all, green, all_red) {
        (v.x, v.y, v.path_index, false)
    } else if spec_has_target(v) {
        let t = spec_target(v);
        if spec_manhattan(v.x as int, v.y as int, t.0 as int, t.1 as int) < STEP_DISTANCE {
            (t.0, t.1, (v.path_index + 1) as usize, false)
        } else {
            let p = spec_step_pos(v.x as int, v.y as int, t.0 as int, t.1 as int);
            (p.0 as i32, p.1 as i32, v.path_index, false)
        }
    } else {
        (v.x, v.y, v.path_index, true)
    }
}

/// The whole vehicle after one tick: [`spec_step_fields`] applied, with
/// identity, approach, turn and path untouched.
pub open spec fn spec_step_vehicle(
    v: Vehicle,
    all: Seq<Vehicle>,
    green: Direction,
    all_red: bool,
) -> Vehicle {
    let f = spec_step_fields(v, all, green, all_red);
    Vehicle {
        id: v.id,
        dir: v.dir,
        turn: v.turn,
        x: f.0,
        y: f.1,
        passed: f.3,
        path: v.path,
        path_index: f.2,
    }
}

/// Law: the waypoint cursor never decreases across a tick, and a vehicle
/// free to move either snaps onto its target waypoint (advancing the cursor
/// by one) or closes the distance to it by exactly one step: its position
/// converges toward the waypoint before the cursor advances.
pub proof fn lemma_step_vehicle_progress(
    v: Vehicle,
    all: Seq<Vehicle>,
    green: Direction,
    all_red: bool,
)
    ensures
        spec_step_vehicle(v, all, green, all_red).path_index >= v.path_index,
        ({
            let s = spec_step_vehicle(v, all, green, all_red);
            let t = spec_target(v);
            !v.passed && !spec_should_stop(v, all, green, all_red) && spec_has_target(v) ==> (
            s.path_index == v.path_index + 1 && (s.x, s.y) == t) || (s.path_index == v.path_index
                && spec_manhattan(s.x as int, s.y as int, t.0 as int, t.1 as int) == spec_manhattan(
                v.x as int,
                v.y as int,
                t.0 as int,
                t.1 as int,
            ) - STEP_DISTANCE)
        }),
{
    assert(v.path.len() == v.path@.len());
    if !v.passed && !spec_should_stop(v, all, green, all_red) && spec_has_target(v) {
        let t = spec_target(v);
        if spec_manhattan(v.x as int, v.y as int, t.0 as int, t.1 as int) >= STEP_DISTANCE {
            lemma_step_pos(v.x as int, v.y as int, t.0 as int, t.1 as int);
            let p = spec_step_pos(v.x as int, v.y as int, t.0 as int, t.1 as int);
            assert(i32::MIN <= p.0 <= i32::MAX);
            assert(i32::MIN <= p.1 <= i32::MAX);
        }
    }
}

/// Move one coordinate toward its target by at most `budget`.
fn move_coord(x: i64, t: i64, budget: i64) -> (r: i64)
    requires
        i32::MIN <= x <= i32::MAX,
        i32::MIN <= t <= i32::MAX,
        0 <= budget <= STEP_DISTANCE,
    ensures
        r as int == spec_move_coord(x as int, t as int, budget as int),
        i32::MIN <= r <= i32::MAX,
{
    if t >= x {
        if t - x <= budget {
            t
        } else {
            x + budget
        }
    } else {
        if x - t <= budget {
            t
        } else {
            x - budget
        }
    }
}

/// One tick of motion toward `(tx, ty)`.
fn step_pos(x: i64, y: i64, tx: i64, ty: i64) -> (p: (i64, i64))
    requires
        i32::MIN <= x <= i32::MAX,
        i32::MIN <= y <= i32::MAX,
        i32::MIN <= tx <= i32::MAX,
        i32::MIN <= ty <= i32::MAX,
    ensures
        p.0 as int == spec_step_pos(x as int, y as int, tx as int, ty as int).0,
        p.1 as int == spec_step_pos(x as int, y as int, tx as int, ty as int).1,
        i32::MIN <= p.0 <= i32::MAX,
        i32::MIN <= p.1 <= i32::MAX,
{
    let dx = if tx >= x {
        tx - x
    } else {
        x - tx
    };
    let budget: i64 = STEP_DISTANCE as i64;
    let spent = if dx <= budget {
        dx
    } else {
        budget
    };
    let nx = move_coord(x, tx, budget);
    let ny = move_coord(y, ty, budget - spent);
    (nx, ny)
}

/// Whether the dot product of two vectors no longer than the i32 range is
/// positive.
fn dot_positive(ax: i64, ay: i64, bx: i64, by: i64) -> (r: bool)
    requires
        -(u32::MAX as i64) <= ax <= u32::MAX as i64,
        -(u32::MAX as i64) <= ay <= u32::MAX as i64,
        -(u32::MAX as i64) <= bx <= u32::MAX as i64,
        -(u32::MAX as i64) <= by <= u32::MAX as i64,
    ensures
        r == (ax * bx + ay * by > 0),
{
    proof {
        let m = u32::MAX as int;
        assert(-(m * m) <= ax * bx <= m * m) by (nonlinear_arith)
            requires
                -m <= ax <= m,
                -m <= bx <= m,
        {}
        assert(-(m * m) <= ay * by <= m * m) by (nonlinear_arith)
            requires
                -m <= ay <= m,
                -m <= by <= m,
        {}
    }
    let px = (ax as i128) * (bx as i128);
    let py = (ay as i128) * (by as i128);
    px + py > 0
}

/// The mutable fields of vehicle `i` after one tick, decided against the
/// snapshot `vehicles` of every vehicle's pre-tick state.
pub fn step_fields(vehicles: &Vec<Vehicle>, i: usize, green: Direction, all_red: bool) -> (r: (
    i32,
    i32,
    usize,
    bool,
))
    requires
        i < vehicles@.len(),
    ensures
        r == spec_step_fields(vehicles@[i as int], vehicles@, green, all_red),
{
    let v = &vehicles[i];
    assert(v.path.len() == v.path@.len());
    if v.passed {
        return (v.x, v.y, v.path_index, v.passed);
    }
    let in_box = in_intersection(v.x, v.y);
    let is_green = v.dir == green && !all_red;
    let stop_light = v.path_index == 1 && !in_box && !is_green;

    // The position one unobstructed tick ahead, and the motion data it is
    // computed from.
    let has_target = v.path_index < usize::MAX && v.path_index + 1 < v.path.len();
    let mut tx: i64 = v.x as i64;
    let mut ty: i64 = v.y as i64;
    let mut near_target = false;
    if has_target {
        let t = v.path[v.path_index + 1];
        tx = t.0 as i64;
        ty = t.1 as i64;
        let adx = if tx >= v.x as i64 {
            tx - v.x as i64
        } else {
            v.x as i64 - tx
        };
        let ady = if ty >= v.y as i64 {
            ty - v.y as i64
        } else {
            v.y as i64 - ty
        };
        near_target = adx + ady < STEP_DISTANCE as i64;
    }
    let (px, py): (i64, i64) = if has_target {
        if near_target {
            (tx, ty)
        } else {
            step_pos(v.x as i64, v.y as i64, tx, ty)
        }
    } else {
        (v.x as i64, v.y as i64)
    };
    assert(px as int == spec_projected_pos(vehicles@[i as int]).0);
    assert(py as int == spec_projected_pos(vehicles@[i as int]).1);
    assert(i32::MIN <= px <= i32::MAX);
    assert(i32::MIN <= py <= i32::MAX);

    let mx: i64 = tx - v.x as i64;
    let my: i64 = ty - v.y as i64;
    assert((mx as int, my as int) == spec_motion_vector(vehicles@[i as int]));

    let mut stop = stop_light;
    if !stop {
        let ghost me = vehicles@[i as int];
        let n = vehicles.len();
        let mut j: usize = 0;
        let mut blocked = false;
        while j < n && !blocked
            invariant
                n == vehicles@.len(),
                i < n,
                0 <= j <= n,
                me == vehicles@[i as int],
                *v == me,
                px as int == spec_projected_pos(me).0,
                py as int == spec_projected_pos(me).1,
                i32::MIN <= px <= i32::MAX,
                i32::MIN <= py <= i32::MAX,
                mx as int == spec_motion_vector(me).0,
                my as int == spec_motion_vector(me).1,
                -(u32::MAX as i64) <= mx <= u32::MAX as i64,
                -(u32::MAX as i64) <= my <= u32::MAX as i64,
                blocked ==> spec_stop_for_collision(me, vehicles@),
                !blocked ==> forall|k: int|
                    0 <= k < j ==> !spec_blocked_by(me, #[trigger] vehicles@[k]),
            decreases n - j,
        {
            let o = &vehicles[j];
            if o.id != v.id && !o.passed {
                let ox = o.x as i64;
                let oy = o.y as i64;
                let in_front = dot_positive(mx, my, ox - v.x as i64, oy - v.y as i64);
                let gap = SAFETY_GAP as i64;
                let size = VEHICLE_SIZE as i64;
                if in_front && (px - gap < ox + size) && (px + size + gap > ox) && (py - gap < oy
                    + size) && (py + size + gap > oy) {
                    proof {
                        assert(spec_blocked_by(me, vehicles@[j as int]));
                    }
                    blocked = true;
                }
            }
            j += 1;
        }
        if blocked {
            stop = true;
        } else {
            assert(!spec_stop_for_collision(me, vehicles@));
        }
    }
    assert(stop == spec_should_stop(vehicles@[i as int], vehicles@, green, all_red));

    if stop {
        return (v.x, v.y, v.path_index, false);
    }
    if has_target {
        if near_target {
            (tx as i32, ty as i32, v.path_index + 1, false)
        } else {
            (px as i32, py as i32, v.path_index, false)
        }
    } else {
        (v.x, v.y, v.path_index, true)
    }
}

/// Whether a vehicle is still within the window plus the eviction margin;
/// the tick's final sweep removes every vehicle that is not.
pub open spec fn spec_in_bounds(v: Vehicle) -> bool {
    &&& v.x > 0 - EVICTION_MARGIN
    &&& v.x < WINDOW_WIDTH + EVICTION_MARGIN
    &&& v.y > 0 - EVICTION_MARGIN
    &&& v.y < WINDOW_HEIGHT + EVICTION_MARGIN
}

/// Whether a vehicle is still within the window plus the eviction margin.
pub fn in_bounds(v: &Vehicle) -> (r: bool)
    ensures
        r == spec_in_bounds(*v),
{
    let xl = v.x as i64;
    let yl = v.y as i64;
    xl > -(EVICTION_MARGIN as i64) && xl < (WINDOW_WIDTH + EVICTION_MARGIN) as i64 && yl > -(
    EVICTION_MARGIN as i64) && yl < (WINDOW_HEIGHT + EVICTION_MARGIN) as i64
}

} // verus!
