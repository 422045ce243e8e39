//! The adaptive traffic-light controller: a timed state machine that grants
//! right of way to one approach at a time in the fixed cycle North, South,
//! East, West, and inserts an all-red clearance phase before a switch while
//! traffic still occupies, or stands dangerously close to, the intersection.
//!
//! Phase timing runs on virtual milliseconds handed in by the caller: the
//! world advances its clock by a fixed amount per tick and passes the
//! current reading to [`TrafficLightController::update`], so the machine is
//! deterministic and total.

use vstd::prelude::*;

use crate::spec_next_direction;
use crate::next_direction;
use crate::Direction;

verus! {

/// Shortest phase the adaptive policy may assign, in ms.
pub const MIN_PHASE_MS: u64 = 1000;

/// Fairness ceiling: no approach holds green longer than this, in ms,
/// however long its queue stays.
pub const MAX_PHASE_MS: u64 = 10000;

/// Fixed length of the all-red clearance phase, in ms.
pub const ALL_RED_PHASE_MS: u64 = 2000;

/// How long the green approach's queue must stay empty before the phase is
/// released early, in ms.
pub const EMPTY_QUEUE_GRACE_MS: u64 = 200;

/// Added to the base duration when the green approach is congested, in ms.
pub const CONGESTION_BONUS_MS: u64 = 5000;

/// Added to the base duration for a queue above the threshold, in ms.
pub const HEAVY_QUEUE_BONUS_MS: u64 = 2000;

/// Subtracted from the base duration when no vehicle waits, in ms.
pub const EMPTY_QUEUE_PENALTY_MS: u64 = 1000;

/// Queue length above which a phase is lengthened moderately.
pub const HEAVY_QUEUE_THRESHOLD: u32 = 5;

/// The traffic-light state machine. At most one approach holds right of way
/// at any instant: `current` when `all_red_phase` is false, nobody while it
/// is true. During a clearance phase `current` remembers the pre-clearance
/// approach, so the cycle resumes at the correct next approach.
pub struct TrafficLightController {
    /// Approach holding right of way; during clearance, the approach that
    /// held it before the clearance began.
    pub current: Direction,
    /// True while the all-red clearance phase is active.
    pub all_red_phase: bool,
    /// Duration of the phase now running, in ms.
    pub phase_duration_ms: u64,
    /// Nominal green duration the adaptive policy starts from, in ms.
    pub base_phase_duration_ms: u64,
    /// Virtual time of the last state transition, in ms.
    pub last_switch_ms: u64,
    /// Virtual time at which the green approach's queue was last observed to
    /// become empty; `None` while vehicles wait.
    pub queue_empty_since_ms: Option<u64>,
}

/// Time elapsed since `since` on a monotonic virtual clock; zero if the
/// clock reads earlier than `since`.
pub open spec fn spec_elapsed(now: u64, since: u64) -> int {
    if now >= since {
        now - since
    } else {
        0
    }
}

/// The adaptive green duration: congestion lengthens the base substantially,
/// a heavy queue moderately; an empty queue shortens it; the result is
/// clamped between the floor and the fairness ceiling.
pub open spec fn spec_adapted_phase(base: u64, waiting: u32, congested: bool) -> u64 {
    let raw: int = if congested {
        base + CONGESTION_BONUS_MS
    } else if waiting > HEAVY_QUEUE_THRESHOLD {
        base + HEAVY_QUEUE_BONUS_MS
    } else if waiting == 0 {
        base - EMPTY_QUEUE_PENALTY_MS
    } else {
        base as int
    };
    if raw > MAX_PHASE_MS {
        MAX_PHASE_MS
    } else if raw < MIN_PHASE_MS {
        MIN_PHASE_MS
    } else {
        raw as u64
    }
}

/// The queue-empty timestamp after this tick's observation: set when the
/// queue is first seen empty, kept while it stays empty, cleared as soon as
/// a vehicle waits.
pub open spec fn spec_queue_empty_since(
    c: TrafficLightController,
    now: u64,
    waiting: u32,
) -> Option<u64> {
    if waiting != 0 {
        None
    } else if c.queue_empty_since_ms is None {
        Some(now)
    } else {
        c.queue_empty_since_ms
    }
}

/// Whether the green phase is due to end: its duration has elapsed, or its
/// queue has been continuously empty for the grace interval.
pub open spec fn spec_should_switch(c: TrafficLightController, now: u64, waiting: u32) -> bool {
    ||| spec_elapsed(now, c.last_switch_ms) >= c.phase_duration_ms
    ||| (waiting == 0 && match spec_queue_empty_since(c, now, waiting) {
        Some(t) => spec_elapsed(now, t) >= EMPTY_QUEUE_GRACE_MS,
        None => false,
    })
}

/// One tick of the controller. In clearance: stay until the clearance
/// duration has elapsed and the intersection is clear, then grant the next
/// approach in cycle order. In green: when due to switch, enter clearance if
/// the intersection is occupied or a vehicle stands on a stop line, else
/// grant the next approach directly; a fresh green gets the adaptive
/// duration. Otherwise only the queue-empty observation is recorded.
pub open spec fn spec_ctrl_step(
    c: TrafficLightController,
    now: u64,
    waiting: u32,
    occupied: bool,
    stop_line_occupied: bool,
    congested: bool,
) -> TrafficLightController {
    if c.all_red_phase {
        if !occupied && spec_elapsed(now, c.last_switch_ms) >= c.phase_duration_ms {
            TrafficLightController {
                current: spec_next_direction(c.current),
                all_red_phase: false,
                phase_duration_ms: spec_adapted_phase(c.base_phase_duration_ms, waiting, congested),
                base_phase_duration_ms: c.base_phase_duration_ms,
                last_switch_ms: now,
                queue_empty_since_ms: None,
            }
        } else {
            TrafficLightController {
                queue_empty_since_ms: spec_queue_empty_since(c, now, waiting),
                ..c
            }
        }
    } else if spec_should_switch(c, now, waiting) {
        if occupied || stop_line_occupied {
            TrafficLightController {
                current: c.current,
                all_red_phase: true,
                phase_duration_ms: ALL_RED_PHASE_MS,
                base_phase_duration_ms: c.base_phase_duration_ms,
                last_switch_ms: now,
                queue_empty_since_ms: None,
            }
        } else {
            TrafficLightController {
                current: spec_next_direction(c.current),
                all_red_phase: false,
                phase_duration_ms: spec_adapted_phase(c.base_phase_duration_ms, waiting, congested),
                base_phase_duration_ms: c.base_phase_duration_ms,
                last_switch_ms: now,
                queue_empty_since_ms: None,
            }
        }
    } else {
        TrafficLightController { queue_empty_since_ms: spec_queue_empty_since(c, now, waiting), ..c }
    }
}

/// Whether approach `d` holds right of way under controller state `c`.
pub open spec fn spec_is_green(c: TrafficLightController, d: Direction) -> bool {
    !c.all_red_phase && c.current == d
}

/// Law: right of way is mutually exclusive. At most one concrete approach is
/// green at any instant, and during a clearance phase none is.
pub proof fn lemma_green_mutual_exclusion(
    c: TrafficLightController,
    d1: Direction,
    d2: Direction,
)
    requires
        spec_is_green(c, d1),
        spec_is_green(c, d2),
    ensures
        d1 == d2,
{
}

/// The controller a fresh world starts with: the North approach green, no
/// clearance running, both durations the requested green time clamped
/// between the floor and the fairness ceiling, the clock at zero.
pub open spec fn spec_new_controller(phase_secs: u64) -> TrafficLightController {
    let ms: int = phase_secs * 1000;
    let base: u64 = if ms > MAX_PHASE_MS {
        MAX_PHASE_MS
    } else if ms < MIN_PHASE_MS {
        MIN_PHASE_MS
    } else {
        ms as u64
    };
    TrafficLightController {
        current: Direction::North,
        all_red_phase: false,
        phase_duration_ms: base,
        base_phase_duration_ms: base,
        last_switch_ms: 0,
        queue_empty_since_ms: None,
    }
}

impl TrafficLightController {
    /// Construct the initial controller with a nominal green phase of
    /// `phase_secs` seconds (clamped to the policy's floor and ceiling).
    pub fn new(phase_secs: u64) -> (c: Self)
        ensures
            c == spec_new_controller(phase_secs),
    {
        let base: u64 = if phase_secs > MAX_PHASE_MS / 1000 {
            MAX_PHASE_MS
        } else if phase_secs * 1000 < MIN_PHASE_MS {
            MIN_PHASE_MS
        } else {
            phase_secs * 1000
        };
        TrafficLightController {
            current: Direction::North,
            all_red_phase: false,
            phase_duration_ms: base,
            base_phase_duration_ms: base,
            last_switch_ms: 0,
            queue_empty_since_ms: None,
        }
    }

    /// The approach that gets right of way after the current one.
    fn next_green_direction(&self) -> (d: Direction)
        ensures
            d == spec_next_direction(self.current),
    {
        next_direction(self.current)
    }

    /// Advance the state machine one tick, at virtual time `now_ms`, from
    /// this tick's observations: how many vehicles wait at the green
    /// approach's stop line, whether any vehicle overlaps the intersection,
    /// whether any stands exactly on a stop line, and whether the green
    /// approach is congested. Beyond the exact step, the contract states the
    /// machine's safety laws: right of way moves only forward along the
    /// fixed cycle, clearance is never left while the intersection is
    /// occupied, it is entered only on an occupancy signal (so never from
    /// clearance itself), and it resolves to exactly the next approach in
    /// the cycle.
    pub fn update(
        &mut self,
        now_ms: u64,
        waiting_vehicles: u32,
        cars_in_intersection: bool,
        vehicles_on_stop_line: bool,
        congested: bool,
    )
        ensures
            *final(self) == spec_ctrl_step(
                *old(self),
                now_ms,
                waiting_vehicles,
                cars_in_intersection,
                vehicles_on_stop_line,
                congested,
            ),
            final(self).current == old(self).current || final(self).current
                == spec_next_direction(old(self).current),
            old(self).all_red_phase && cars_in_intersection ==> final(self).all_red_phase
                && final(self).current == old(self).current,
            !old(self).all_red_phase && final(self).all_red_phase ==> (cars_in_intersection
                || vehicles_on_stop_line) && final(self).current == old(self).current,
            old(self).all_red_phase && !final(self).all_red_phase ==> final(self).current
                == spec_next_direction(old(self).current),
            final(self).base_phase_duration_ms == old(self).base_phase_duration_ms,
    {
        let elapsed = if now_ms >= self.last_switch_ms {
            now_ms - self.last_switch_ms
        } else {
            0
        };

        // Record when the green approach's queue was last observed empty.
        if waiting_vehicles != 0 {
            self.queue_empty_since_ms = None;
        } else if self.queue_empty_since_ms.is_none() {
            self.queue_empty_since_ms = Some(now_ms);
        }

        if self.all_red_phase {
            if !cars_in_intersection && elapsed >= self.phase_duration_ms {
                self.current = self.next_green_direction();
                self.all_red_phase = false;
                self.phase_duration_ms = Self::adapted_phase(
                    self.base_phase_duration_ms,
                    waiting_vehicles,
                    congested,
                );
                self.last_switch_ms = now_ms;
                self.queue_empty_since_ms = None;
            }
        } else {
            let empty_long_enough = match self.queue_empty_since_ms {
                Some(t) => {
                    let empty_for = if now_ms >= t {
                        now_ms - t
                    } else {
                        0
                    };
                    waiting_vehicles == 0 && empty_for >= EMPTY_QUEUE_GRACE_MS
                },
                None => false,
            };
            let should_switch = elapsed >= self.phase_duration_ms || empty_long_enough;
            if should_switch {
                if cars_in_intersection || vehicles_on_stop_line {
                    self.all_red_phase = true;
                    self.phase_duration_ms = ALL_RED_PHASE_MS;
                    self.last_switch_ms = now_ms;
                    self.queue_empty_since_ms = None;
                } else {
                    self.current = self.next_green_direction();
                    self.phase_duration_ms = Self::adapted_phase(
                        self.base_phase_duration_ms,
                        waiting_vehicles,
                        congested,
                    );
                    self.last_switch_ms = now_ms;
                    self.queue_empty_since_ms = None;
                }
            }
        }
    }

    /// The adaptive green duration (see [`spec_adapted_phase`]).
    fn adapted_phase(base: u64, waiting: u32, congested: bool) -> (d: u64)
        ensures
            d == spec_adapted_phase(base, waiting, congested),
    {
        let raw: u64 = if congested {
            if base > u64::MAX - CONGESTION_BONUS_MS {
                u64::MAX
            } else {
                base + CONGESTION_BONUS_MS
            }
        } else if waiting > HEAVY_QUEUE_THRESHOLD {
            if base > u64::MAX - HEAVY_QUEUE_BONUS_MS {
                u64::MAX
            } else {
                base + HEAVY_QUEUE_BONUS_MS
            }
        } else if waiting == 0 {
            if base >= EMPTY_QUEUE_PENALTY_MS {
                base - EMPTY_QUEUE_PENALTY_MS
            } else {
                0
            }
        } else {
            base
        };
        if raw > MAX_PHASE_MS {
            MAX_PHASE_MS
        } else if raw < MIN_PHASE_MS {
            MIN_PHASE_MS
        } else {
            raw
        }
    }
}

} // verus!
