//! The world: the vehicle collection, the one controller, the id counter and
//! the virtual clock. One call to [`World::update`] is one simulation tick:
//! gather observations from a snapshot of the vehicle set, step the
//! controller, decide every vehicle's motion from the same snapshot, apply
//! the motion, and evict vehicles that have drifted out of bounds.

use vstd::prelude::*;

use rand::Rng;

use crate::traffic_light::spec_ctrl_step;
use crate::traffic_light::spec_new_controller;
use crate::traffic_light::TrafficLightController;
use crate::vehicle::entry_point;
use crate::vehicle::generate_path;
use crate::vehicle::in_bounds;
use crate::vehicle::in_intersection;
use crate::vehicle::spec_entry_point;
use crate::vehicle::spec_in_bounds;
use crate::vehicle::spec_in_intersection;
use crate::vehicle::spec_manhattan;
use crate::vehicle::spec_path;
use crate::vehicle::spec_step_fields;
use crate::vehicle::spec_step_vehicle;
use crate::vehicle::spec_stop_point;
use crate::vehicle::step_fields;
use crate::vehicle::stop_point;
use crate::vehicle::Vehicle;
use crate::Direction;
use crate::Turn;
use crate::SAFETY_GAP;
use crate::VEHICLE_SIZE;

verus! {

/// Virtual milliseconds one tick stands for (about 60 ticks per second).
pub const TICK_MS: u64 = 16;

/// The simulation aggregate: every vehicle on the map, the traffic-light
/// controller, the id-allocation counter, and the virtual clock.
pub struct World {
    /// All live vehicles, in spawn order.
    pub vehicles: Vec<Vehicle>,
    /// The one traffic-light controller, mutated in place every tick.
    pub controller: TrafficLightController,
    /// Identity the next spawned vehicle receives.
    pub next_id: u32,
    /// Virtual time, advanced by [`TICK_MS`] per tick.
    pub now_ms: u64,
}

/// Whether a vehicle waits at the stop waypoint of the green approach.
pub open spec fn spec_waiting_pred(green: Direction) -> spec_fn(Vehicle) -> bool {
    |v: Vehicle| v.dir == green && v.path_index == 1
}

/// How many vehicles on the green approach sit at their stop waypoint.
pub open spec fn spec_waiting_count(vs: Seq<Vehicle>, green: Direction) -> nat {
    vs.filter(spec_waiting_pred(green)).len()
}

/// The waiting count as handed to the controller, saturated at `u32::MAX`.
pub open spec fn spec_waiting_u32(vs: Seq<Vehicle>, green: Direction) -> u32 {
    if spec_waiting_count(vs, green) > u32::MAX {
        u32::MAX
    } else {
        spec_waiting_count(vs, green) as u32
    }
}

/// Whether any vehicle's bounding box overlaps the intersection box.
pub open spec fn spec_occupied(vs: Seq<Vehicle>) -> bool {
    exists|i: int|
        0 <= i < vs.len() && spec_in_intersection(
            (#[trigger] vs[i]).x as int,
            vs[i].y as int,
        )
}

/// Whether a live vehicle stands exactly on its stop waypoint.
pub open spec fn spec_on_stop_line(v: Vehicle) -> bool {
    &&& !v.passed
    &&& v.path@.len() >= 2
    &&& v.x == v.path@[1].0
    &&& v.y == v.path@[1].1
}

/// Whether any live vehicle, on any approach, stands exactly on a stop
/// waypoint: a clearance signal stronger than box occupancy alone.
pub open spec fn spec_stop_line_occupied(vs: Seq<Vehicle>) -> bool {
    exists|i: int| 0 <= i < vs.len() && spec_on_stop_line(#[trigger] vs[i])
}

/// Whether a vehicle on approach `d` is queued at or before its stop
/// waypoint.
pub open spec fn spec_queue_pred(d: Direction) -> spec_fn(Vehicle) -> bool {
    |v: Vehicle| v.dir == d && v.path_index <= 1
}

/// How many vehicles are queued on approach `d`.
pub open spec fn spec_queue_count(vs: Seq<Vehicle>, d: Direction) -> nat {
    vs.filter(spec_queue_pred(d)).len()
}

/// Distance from an approach's entry point to its stop waypoint.
pub open spec fn spec_lane_length(d: Direction) -> int {
    spec_manhattan(
        spec_entry_point(d).0 as int,
        spec_entry_point(d).1 as int,
        spec_stop_point(d).0 as int,
        spec_stop_point(d).1 as int,
    )
}

/// How many vehicles fit on an approach's queueing stretch: its length
/// divided by the room one queued vehicle takes (its size plus the safety
/// gap).
pub open spec fn spec_lane_capacity(d: Direction) -> int {
    spec_lane_length(d) / ((VEHICLE_SIZE + SAFETY_GAP) as int)
}

/// Whether approach `d`'s queue has reached the lane's capacity.
pub open spec fn spec_congested(vs: Seq<Vehicle>, d: Direction) -> bool {
    spec_queue_count(vs, d) >= spec_lane_capacity(d)
}

/// The most recently spawned vehicle still alive on approach `d` (vehicles
/// are kept in spawn order).
pub open spec fn spec_last_on_approach(vs: Seq<Vehicle>, d: Direction) -> Option<Vehicle>
    decreases vs.len(),
{
    if vs.len() == 0 {
        None
    } else if vs.last().dir == d {
        Some(vs.last())
    } else {
        spec_last_on_approach(vs.drop_last(), d)
    }
}

/// Whether a spawn on approach `d` would place the new vehicle within one
/// vehicle length plus the safety gap of the most recently spawned vehicle
/// still on that approach.
pub open spec fn spec_spawn_blocked(vs: Seq<Vehicle>, d: Direction) -> bool {
    match spec_last_on_approach(vs, d) {
        Some(u) => spec_manhattan(
            spec_entry_point(d).0 as int,
            spec_entry_point(d).1 as int,
            u.x as int,
            u.y as int,
        ) < VEHICLE_SIZE + SAFETY_GAP,
        None => false,
    }
}

/// Admission control: a spawn request on approach `d` succeeds exactly when
/// the lane is not congested, the entry point is clear of the latest spawn,
/// and an identity is still available.
pub open spec fn spec_can_spawn(vs: Seq<Vehicle>, d: Direction, next_id: u32) -> bool {
    &&& !spec_congested(vs, d)
    &&& !spec_spawn_blocked(vs, d)
    &&& next_id < u32::MAX
}

/// What a freshly spawned vehicle looks like: the requested approach and
/// turn, the next identity, its full path, standing unpassed on the path's
/// entry point.
pub open spec fn spec_fresh_spawn(v: Vehicle, id: u32, dir: Direction, turn: Turn) -> bool {
    &&& v.id == id
    &&& v.dir == dir
    &&& v.turn == turn
    &&& !v.passed
    &&& v.path_index == 0
    &&& v.path@ == spec_path(dir, turn)
    &&& v.x == spec_entry_point(dir).0
    &&& v.y == spec_entry_point(dir).1
}

/// The virtual clock after one tick (saturating, so the tick is total).
pub open spec fn spec_tick_now(w: World) -> u64 {
    if w.now_ms > u64::MAX - TICK_MS {
        u64::MAX
    } else {
        (w.now_ms + TICK_MS) as u64
    }
}

/// The controller after one tick: forced into the clearance state when no
/// vehicle exists (no approach needs right of way then), else stepped with
/// the observations gathered from the pre-tick vehicle set.
pub open spec fn spec_tick_controller(w: World) -> TrafficLightController {
    if w.vehicles@.len() == 0 {
        TrafficLightController { all_red_phase: true, ..w.controller }
    } else {
        spec_ctrl_step(
            w.controller,
            spec_tick_now(w),
            spec_waiting_u32(w.vehicles@, w.controller.current),
            spec_occupied(w.vehicles@),
            spec_stop_line_occupied(w.vehicles@),
            spec_congested(w.vehicles@, w.controller.current),
        )
    }
}

/// One tick of motion for each vehicle, decided against the shared pre-tick
/// snapshot `all`.
pub open spec fn spec_step_all_pred(
    all: Seq<Vehicle>,
    green: Direction,
    all_red: bool,
) -> spec_fn(Vehicle) -> Vehicle {
    |v: Vehicle| spec_step_vehicle(v, all, green, all_red)
}

/// The eviction test the tick's final sweep keeps vehicles by.
pub open spec fn spec_in_bounds_pred() -> spec_fn(Vehicle) -> bool {
    |v: Vehicle| spec_in_bounds(v)
}

/// The vehicle set after one tick: every vehicle stepped under the post-tick
/// light state, decided from the one pre-tick snapshot, then every vehicle
/// out of bounds evicted.
pub open spec fn spec_tick_vehicles(w: World) -> Seq<Vehicle> {
    let c = spec_tick_controller(w);
    w.vehicles@.map_values(spec_step_all_pred(w.vehicles@, c.current, c.all_red_phase)).filter(
        spec_in_bounds_pred(),
    )
}

/// Law: a tick never moves a vehicle's waypoint cursor backwards. Every
/// pre-tick vehicle, stepped under the tick's light state against the
/// tick's shared snapshot, keeps a cursor at least as far along its path.
pub proof fn lemma_tick_cursor_monotone(w: World, k: int)
    requires
        0 <= k < w.vehicles@.len(),
    ensures
        ({
            let c = spec_tick_controller(w);
            spec_step_vehicle(
                w.vehicles@[k],
                w.vehicles@,
                c.current,
                c.all_red_phase,
            ).path_index >= w.vehicles@[k].path_index
        }),
{
    let c = spec_tick_controller(w);
    crate::vehicle::lemma_step_vehicle_progress(
        w.vehicles@[k],
        w.vehicles@,
        c.current,
        c.all_red_phase,
    );
}

/// Law: a congested lane admits no vehicle. Whenever approach `d`'s queue
/// has reached the lane's capacity, admission control rejects the spawn.
pub proof fn lemma_congested_spawn_rejected(vs: Seq<Vehicle>, d: Direction, next_id: u32)
    requires
        spec_congested(vs, d),
    ensures
        !spec_can_spawn(vs, d, next_id),
{
}

/// Taking one more element extends a filtered prefix by that element exactly
/// when the predicate holds of it.
proof fn lemma_filter_take_step<A>(s: Seq<A>, pred: spec_fn(A) -> bool, i: int)
    requires
        0 <= i < s.len(),
    ensures
        s.take(i + 1).filter(pred) == if pred(s[i]) {
            s.take(i).filter(pred).push(s[i])
        } else {
            s.take(i).filter(pred)
        },
{
    reveal_with_fuel(Seq::filter, 2);
    let t = s.take(i + 1);
    assert(t.len() == i + 1);
    assert(t.drop_last() =~= s.take(i));
    assert(t.last() == s[i]);
}

/// Relies on rand::thread_rng and rand::Rng::gen_range: a draw from the
/// non-empty range `0..3` lies below 3 and does not panic.
#[verifier::external_body]
fn random_turn_seed() -> (r: u32)
    ensures
        r < 3,
{
    rand::thread_rng().gen_range(0..3u32)
}

/// The turn a seed below 3 stands for.
pub open spec fn spec_turn_from_seed(seed: u32) -> Turn {
    if seed == 0 {
        Turn::Left
    } else if seed == 1 {
        Turn::Right
    } else {
        Turn::Straight
    }
}

/// Map a random draw to the turn it stands for; every value above 1 falls to
/// the most common choice, straight ahead.
pub fn turn_from_seed(seed: u32) -> (t: Turn)
    ensures
        t == spec_turn_from_seed(seed),
{
    if seed == 0 {
        Turn::Left
    } else if seed == 1 {
        Turn::Right
    } else {
        Turn::Straight
    }
}

/// How many vehicles on the green approach sit at their stop waypoint.
fn count_waiting(vehicles: &Vec<Vehicle>, green: Direction) -> (n: usize)
    ensures
        n == spec_waiting_count(vehicles@, green),
{
    let len = vehicles.len();
    let mut n: usize = 0;
    let mut i: usize = 0;
    while i < len
        invariant
            len == vehicles@.len(),
            0 <= i <= len,
            n <= i,
            n == spec_waiting_count(vehicles@.take(i as int), green),
        decreases len - i,
    {
        let v = &vehicles[i];
        proof {
            lemma_filter_take_step(vehicles@, spec_waiting_pred(green), i as int);
        }
        if v.path_index == 1 && v.dir == green {
            n += 1;
        }
        i += 1;
    }
    proof {
        assert(vehicles@.take(len as int) =~= vehicles@);
    }
    n
}

/// How many vehicles are queued on approach `d` at or before its stop
/// waypoint.
fn count_queued(vehicles: &Vec<Vehicle>, d: Direction) -> (n: usize)
    ensures
        n == spec_queue_count(vehicles@, d),
{
    let len = vehicles.len();
    let mut n: usize = 0;
    let mut i: usize = 0;
    while i < len
        invariant
            len == vehicles@.len(),
            0 <= i <= len,
            n <= i,
            n == spec_queue_count(vehicles@.take(i as int), d),
        decreases len - i,
    {
        let v = &vehicles[i];
        proof {
            lemma_filter_take_step(vehicles@, spec_queue_pred(d), i as int);
        }
        if v.path_index <= 1 && v.dir == d {
            n += 1;
        }
        i += 1;
    }
    proof {
        assert(vehicles@.take(len as int) =~= vehicles@);
    }
    n
}

/// Whether any vehicle's bounding box overlaps the intersection box.
fn any_in_intersection(vehicles: &Vec<Vehicle>) -> (r: bool)
    ensures
        r == spec_occupied(vehicles@),
{
    let len = vehicles.len();
    let mut i: usize = 0;
    let mut found = false;
    while i < len && !found
        invariant
            len == vehicles@.len(),
            0 <= i <= len,
            found ==> spec_occupied(vehicles@),
            !found ==> forall|k: int|
                0 <= k < i ==> !spec_in_intersection((#[trigger] vehicles@[k]).x as int, vehicles@[k].y as int),
        decreases len - i,
    {
        let v = &vehicles[i];
        if in_intersection(v.x, v.y) {
            found = true;
        }
        i += 1;
    }
    found
}

/// Whether any live vehicle stands exactly on a stop waypoint.
fn any_on_stop_line(vehicles: &Vec<Vehicle>) -> (r: bool)
    ensures
        r == spec_stop_line_occupied(vehicles@),
{
    let len = vehicles.len();
    let mut i: usize = 0;
    let mut found = false;
    while i < len && !found
        invariant
            len == vehicles@.len(),
            0 <= i <= len,
            found ==> spec_stop_line_occupied(vehicles@),
            !found ==> forall|k: int| 0 <= k < i ==> !spec_on_stop_line(#[trigger] vehicles@[k]),
        decreases len - i,
    {
        let v = &vehicles[i];
        if !v.passed && v.path.len() >= 2 {
            let p = v.path[1];
            if v.x == p.0 && v.y == p.1 {
                found = true;
            }
        }
        i += 1;
    }
    found
}

/// The lane capacity of an approach (see [`spec_lane_capacity`]).
pub fn lane_capacity(d: Direction) -> (c: u64)
    ensures
        c == spec_lane_capacity(d),
{
    let (ex, ey) = entry_point(d);
    let (sx, sy) = stop_point(d);
    let dx = if sx as i64 >= ex as i64 {
        sx as i64 - ex as i64
    } else {
        ex as i64 - sx as i64
    };
    let dy = if sy as i64 >= ey as i64 {
        sy as i64 - ey as i64
    } else {
        ey as i64 - sy as i64
    };
    let length = (dx + dy) as u64;
    length / ((VEHICLE_SIZE + SAFETY_GAP) as u64)
}

/// The position of the most recently spawned vehicle still on approach `d`.
fn last_on_approach_pos(vehicles: &Vec<Vehicle>, d: Direction) -> (r: Option<(i32, i32)>)
    ensures
        match spec_last_on_approach(vehicles@, d) {
            Some(u) => r == Some((u.x, u.y)),
            None => r is None,
        },
{
    let mut j = vehicles.len();
    proof {
        assert(vehicles@.take(j as int) =~= vehicles@);
    }
    while j > 0
        invariant
            j <= vehicles@.len(),
            spec_last_on_approach(vehicles@, d) == spec_last_on_approach(
                vehicles@.take(j as int),
                d,
            ),
        decreases j,
    {
        let v = &vehicles[j - 1];
        proof {
            assert(vehicles@.take(j as int).last() == vehicles@[j - 1]);
            assert(vehicles@.take(j as int).drop_last() =~= vehicles@.take(j - 1));
        }
        if v.dir == d {
            return Some((v.x, v.y));
        }
        j -= 1;
    }
    proof {
        assert(vehicles@.take(0) =~= Seq::<Vehicle>::empty());
    }
    None
}

impl World {
    /// A fresh world: no vehicles, the controller in its initial state with
    /// a three-second nominal green, identities from zero, the clock at
    /// zero.
    pub fn new() -> (w: World)
        ensures
            w.vehicles@ == Seq::<Vehicle>::empty(),
            w.controller == spec_new_controller(3),
            w.next_id == 0,
            w.now_ms == 0,
    {
        World {
            vehicles: Vec::new(),
            controller: TrafficLightController::new(3),
            next_id: 0,
            now_ms: 0,
        }
    }

    /// Request a vehicle on approach `dir` with an explicit turn. Admission
    /// control may reject it (returning false, the world unchanged): exactly
    /// when the lane is congested, the entry point is too close to the
    /// latest spawn on that approach, or identities ran out.
    pub fn spawn_vehicle_with_turn(&mut self, dir: Direction, turn: Turn) -> (spawned: bool)
        ensures
            spawned == spec_can_spawn(old(self).vehicles@, dir, old(self).next_id),
            final(self).controller == old(self).controller,
            final(self).now_ms == old(self).now_ms,
            !spawned ==> *final(self) == *old(self),
            spawned ==> final(self).next_id == old(self).next_id + 1,
            spawned ==> final(self).vehicles@.len() == old(self).vehicles@.len() + 1,
            spawned ==> final(self).vehicles@.drop_last() == old(self).vehicles@,
            spawned ==> spec_fresh_spawn(
                final(self).vehicles@.last(),
                old(self).next_id,
                dir,
                turn,
            ),
    {
        let queued = count_queued(&self.vehicles, dir);
        let capacity = lane_capacity(dir);
        let congested = queued as u64 >= capacity;

        let blocked = match last_on_approach_pos(&self.vehicles, dir) {
            Some((ux, uy)) => {
                let (ex, ey) = entry_point(dir);
                let dx = if ex as i64 >= ux as i64 {
                    ex as i64 - ux as i64
                } else {
                    ux as i64 - ex as i64
                };
                let dy = if ey as i64 >= uy as i64 {
                    ey as i64 - uy as i64
                } else {
                    uy as i64 - ey as i64
                };
                dx + dy < (VEHICLE_SIZE + SAFETY_GAP) as i64
            },
            None => false,
        };

        if congested || blocked || self.next_id == u32::MAX {
            return false;
        }
        let path = generate_path(dir, turn);
        let x = path[0].0;
        let y = path[0].1;
        let v = Vehicle { id: self.next_id, dir, turn, x, y, passed: false, path, path_index: 0 };
        self.vehicles.push(v);
        self.next_id = self.next_id + 1;
        proof {
            assert(self.vehicles@.drop_last() =~= old(self).vehicles@);
        }
        true
    }

    /// Request a vehicle on approach `dir` with a uniformly random turn; a
    /// silent no-op exactly when admission control rejects the spawn.
    pub fn spawn_vehicle(&mut self, dir: Direction)
        ensures
            final(self).controller == old(self).controller,
            final(self).now_ms == old(self).now_ms,
            !spec_can_spawn(old(self).vehicles@, dir, old(self).next_id) ==> *final(self) == *old(
                self,
            ),
            spec_can_spawn(old(self).vehicles@, dir, old(self).next_id) ==> {
                &&& final(self).next_id == old(self).next_id + 1
                &&& final(self).vehicles@.len() == old(self).vehicles@.len() + 1
                &&& final(self).vehicles@.drop_last() == old(self).vehicles@
                &&& spec_fresh_spawn(
                    final(self).vehicles@.last(),
                    old(self).next_id,
                    dir,
                    final(self).vehicles@.last().turn,
                )
            },
    {
        let seed = random_turn_seed();
        let turn = turn_from_seed(seed);
        let _ = self.spawn_vehicle_with_turn(dir, turn);
    }

    /// One simulation tick. The clock advances by [`TICK_MS`]. With no
    /// vehicles the controller is forced into the clearance state and
    /// nothing else happens. Otherwise the controller steps on the
    /// observations taken from the pre-tick vehicle set, every vehicle's
    /// motion is decided from that same snapshot under the new light state
    /// and then applied, and every vehicle out of bounds is evicted, so all
    /// surviving vehicles lie within bounds.
    pub fn update(&mut self)
        ensures
            final(self).now_ms == spec_tick_now(*old(self)),
            final(self).next_id == old(self).next_id,
            final(self).controller == spec_tick_controller(*old(self)),
            final(self).vehicles@ == spec_tick_vehicles(*old(self)),
            old(self).vehicles@.len() == 0 ==> final(self).controller.all_red_phase
                && final(self).vehicles@ == old(self).vehicles@,
            forall|k: int|
                0 <= k < final(self).vehicles@.len() ==> spec_in_bounds(
                    #[trigger] final(self).vehicles@[k],
                ),
    {
        let now = if self.now_ms > u64::MAX - TICK_MS {
            u64::MAX
        } else {
            self.now_ms + TICK_MS
        };
        self.now_ms = now;

        if self.vehicles.len() == 0 {
            self.controller.all_red_phase = true;
            proof {
                let w = *old(self);
                let c = spec_tick_controller(w);
                let m = w.vehicles@.map_values(
                    spec_step_all_pred(w.vehicles@, c.current, c.all_red_phase),
                );
                assert(m =~= Seq::<Vehicle>::empty());
                assert(m.filter(spec_in_bounds_pred()) =~= Seq::<Vehicle>::empty());
                assert(self.vehicles@ =~= Seq::<Vehicle>::empty());
            }
            return;
        }
        let green_before = self.controller.current;
        let waiting_n = count_waiting(&self.vehicles, green_before);
        let waiting: u32 = if waiting_n > u32::MAX as usize {
            u32::MAX
        } else {
            waiting_n as u32
        };
        let occupied = any_in_intersection(&self.vehicles);
        let stop_line = any_on_stop_line(&self.vehicles);
        let queued = count_queued(&self.vehicles, green_before);
        let congested = queued as u64 >= lane_capacity(green_before);

        self.controller.update(now, waiting, occupied, stop_line, congested);
        let green = self.controller.current;
        let all_red = self.controller.all_red_phase;
        let ghost c2 = self.controller;
        let ghost snap = self.vehicles@;

        // Decide every vehicle's motion from the one pre-tick snapshot.
        let n = self.vehicles.len();
        let mut decisions: Vec<(i32, i32, usize, bool)> = Vec::new();
        let mut i: usize = 0;
        while i < n
            invariant
                n == self.vehicles@.len(),
                self.vehicles@ == snap,
                0 <= i <= n,
                decisions@.len() == i as int,
                forall|k: int|
                    0 <= k < i ==> decisions@[k] == spec_step_fields(
                        #[trigger] snap[k],
                        snap,
                        green,
                        all_red,
                    ),
                self.controller == c2,
                self.now_ms == now,
                self.next_id == old(self).next_id,
            decreases n - i,
        {
            let d = step_fields(&self.vehicles, i, green, all_red);
            decisions.push(d);
            i += 1;
        }

        // Apply the decided motion to each vehicle in place.
        let mut i: usize = 0;
        while i < n
            invariant
                n == snap.len(),
                self.vehicles@.len() == n,
                decisions@.len() == n,
                0 <= i <= n,
                forall|k: int|
                    0 <= k < n ==> decisions@[k] == spec_step_fields(
                        #[trigger] snap[k],
                        snap,
                        green,
                        all_red,
                    ),
                forall|k: int|
                    0 <= k < i ==> self.vehicles@[k] == spec_step_vehicle(
                        #[trigger] snap[k],
                        snap,
                        green,
                        all_red,
                    ),
                forall|k: int| i <= k < n ==> #[trigger] self.vehicles@[k] == snap[k],
                self.controller == c2,
                self.now_ms == now,
                self.next_id == old(self).next_id,
            decreases n - i,
        {
            let d = decisions[i];
            let v = &mut self.vehicles[i];
            v.x = d.0;
            v.y = d.1;
            v.path_index = d.2;
            v.passed = d.3;
            proof {
                assert(self.vehicles@[i as int] == spec_step_vehicle(
                    snap[i as int],
                    snap,
                    green,
                    all_red,
                ));
            }
            i += 1;
        }
        let ghost stepped = snap.map_values(spec_step_all_pred(snap, green, all_red));
        proof {
            assert(self.vehicles@ =~= stepped);
        }

        // Evict every vehicle that has drifted out of bounds.
        let mut pending: Vec<Vehicle> = Vec::new();
        core::mem::swap(&mut pending, &mut self.vehicles);
        let mut done: usize = 0;
        while pending.len() > 0
            invariant
                stepped == snap.map_values(spec_step_all_pred(snap, green, all_red)),
                stepped.len() == n as int,
                done + pending@.len() == stepped.len(),
                pending@ == stepped.skip(done as int),
                self.vehicles@ == stepped.take(done as int).filter(spec_in_bounds_pred()),
                self.controller == c2,
                self.now_ms == now,
                self.next_id == old(self).next_id,
            decreases pending@.len(),
        {
            proof {
                assert(stepped.skip(done as int)[0] == stepped[done as int]);
                assert(stepped.skip(done as int).remove(0) =~= stepped.skip(done as int + 1));
                lemma_filter_take_step(stepped, spec_in_bounds_pred(), done as int);
            }
            let v = pending.remove(0);
            if in_bounds(&v) {
                self.vehicles.push(v);
            }
            done += 1;
        }
        proof {
            assert(stepped.take(done as int) =~= stepped);
            assert(self.vehicles@ == spec_tick_vehicles(*old(self)));
            assert forall|k: int|
                0 <= k < self.vehicles@.len() implies spec_in_bounds(
                #[trigger] self.vehicles@[k],
            ) by {
                stepped.lemma_filter_pred(spec_in_bounds_pred(), k);
            }
        }
    }
}

} // verus!
