//! The player: charge state, landing resolution, and the two animators.
//!
//! The landing resolver turns a charge duration into a landing position —
//! `SPEED_PER_MS` micro-units per millisecond of charge along a single
//! travel axis — and classifies it against the current and next platforms'
//! footprints. The jump animator models the arc in the time domain: the arc
//! sweeps half a turn over the jump's duration, so the arc's height would
//! next dip below the resting height exactly when its elapsed time would
//! pass the duration; position is snapped to the landing point on
//! completion. The fall animator drops the player at `FALL_SPEED_PER_MS`,
//! for a tilt fall after a quarter-turn lean (`TILT_PHASE_MS`) about a pivot
//! half a unit below resting height; the model pins the height to the pivot
//! when the lean completes and leaves the lean's pose itself to the
//! presentation layer.

use vstd::prelude::*;

use crate::geometry::{clamp_coord, coord_in_range, coord_sub, pos_in_range, Pos3, MAX_COORD};
use crate::platform::{landed_spec, touched_spec, PlatformShape};
use crate::ui::GameEvent;

verus! {

/// The player's resting height above the ground (1.5 world units).
pub const INITIAL_PLAYER_Y: i64 = 1_500_000;

/// Horizontal travel per millisecond of charge (3 world units per second).
pub const SPEED_PER_MS: i64 = 3_000;

/// Downward travel per millisecond of fall (0.7 world units per second).
pub const FALL_SPEED_PER_MS: i64 = 700;

/// Floor on the arc animation's duration (half a second).
pub const MIN_JUMP_DURATION_MS: u64 = 500;

/// Below this offset between platform centres on the X axis, travel runs
/// along -Z instead of +X (0.1 world units).
pub const AXIS_EPSILON: i64 = 100_000;

/// The player's footprint radius for edge-graze tests (0.2 world units).
pub const PLAYER_RADIUS: i64 = 200_000;

/// How long the lean of a tilt fall lasts: a quarter turn at a quarter turn
/// per second.
pub const TILT_PHASE_MS: u64 = 1_000;

/// A straight fall is complete once the player's height drops below this
/// (0.5 world units).
pub const STRAIGHT_COMPLETE_Y: i64 = 500_000;

/// The drop after a tilt is complete once the player's height drops below
/// this (0.2 world units).
pub const TILT_COMPLETE_Y: i64 = 200_000;

/// The tilt pivot sits this far below the resting height (0.5 world units).
pub const TILT_PIVOT_DROP: i64 = 500_000;

/// The player's starting pose, at the origin's footprint.
pub open spec fn initial_player_pos() -> Pos3 {
    Pos3 { x: 0, y: INITIAL_PLAYER_Y, z: 0 }
}

/// The charge in progress: the press's timestamp in milliseconds, or `None`
/// when no charge is active.
#[derive(Clone, Copy, Debug)]
pub struct Accumulator(pub Option<u64>);

/// Milliseconds a press must wait after entering play before input counts.
pub const PREPARE_MS: u64 = 200;

/// Debounce timer: input is ignored until this has accumulated `PREPARE_MS`
/// milliseconds, so a press carried over from a menu click cannot start a
/// charge.
#[derive(Clone, Copy, Debug, PartialEq, Eq, Structural)]
pub struct PrepareJumpTimer(pub u64);

/// The debounce timer accepts input.
pub open spec fn prepare_finished(t: PrepareJumpTimer) -> bool {
    t.0 >= PREPARE_MS
}

/// Advance the debounce timer; it saturates at its goal.
pub fn prepare_jump(timer: &mut PrepareJumpTimer, dt_ms: u64)
    ensures
        final(timer).0 == if old(timer).0 + dt_ms > PREPARE_MS {
            PREPARE_MS
        } else {
            (old(timer).0 + dt_ms) as u64
        },
{
    if timer.0 >= PREPARE_MS {
        timer.0 = PREPARE_MS;
    } else if dt_ms > PREPARE_MS - timer.0 {
        timer.0 = PREPARE_MS;
    } else {
        timer.0 = timer.0 + dt_ms;
    }
}

/// Restart the debounce on entering play.
pub fn reset_prepare_jump_timer(timer: &mut PrepareJumpTimer)
    ensures
        final(timer).0 == 0,
{
    timer.0 = 0;
}

/// The arc in flight: endpoints, duration, progress, and how it will end.
#[derive(Clone, Copy, Debug, PartialEq, Eq, Structural)]
pub struct JumpState {
    pub start_pos: Pos3,
    pub end_pos: Pos3,
    /// The arc's duration in milliseconds.
    pub animation_duration_ms: u64,
    /// Time the arc has been flying, in milliseconds.
    pub elapsed_ms: u64,
    /// The resolved outcome was a fall, so no success cue on completion.
    pub falled: bool,
    pub completed: bool,
}

impl Default for JumpState {
    /// The idle state: nothing in flight.
    fn default() -> (s: Self)
        ensures
            s == (JumpState {
                start_pos: Pos3 { x: 0, y: 0, z: 0 },
                end_pos: Pos3 { x: 0, y: 0, z: 0 },
                animation_duration_ms: 0,
                elapsed_ms: 0,
                falled: false,
                completed: true,
            }),
    {
        JumpState {
            start_pos: Pos3 { x: 0, y: 0, z: 0 },
            end_pos: Pos3 { x: 0, y: 0, z: 0 },
            animation_duration_ms: 0,
            elapsed_ms: 0,
            falled: false,
            completed: true,
        }
    }
}

impl JumpState {
    /// Start an arc from `start_pos` to `end_pos` over the given duration.
    pub fn animate_jump(&mut self, start_pos: Pos3, end_pos: Pos3, animation_duration_ms: u64)
        ensures
            *final(self) == (JumpState {
                start_pos,
                end_pos,
                animation_duration_ms,
                elapsed_ms: 0,
                falled: old(self).falled,
                completed: false,
            }),
    {
        self.start_pos = start_pos;
        self.end_pos = end_pos;
        self.animation_duration_ms = animation_duration_ms;
        self.elapsed_ms = 0;
        self.completed = false;
    }
}

/// The direction (rotation axis) of a tilt fall.
#[derive(Clone, Copy, Debug, PartialEq, Eq, Structural)]
pub enum FallDirection {
    NegX,
    PosX,
    NegZ,
    PosZ,
}

/// How the player falls: straight down, or leaning about an axis first.
#[derive(Clone, Copy, Debug, PartialEq, Eq, Structural)]
pub enum FallType {
    Straight,
    Tilt(FallDirection),
}

/// A fall in progress; `completed == true` is the idle state.
#[derive(Clone, Copy, Debug, PartialEq, Eq, Structural)]
pub struct FallState {
    /// Where the fall began: the resolved landing point.
    pub pos: Pos3,
    pub fall_type: FallType,
    /// The lean of a tilt fall has finished.
    pub tilt_completed: bool,
    /// The whole fall has finished.
    pub completed: bool,
    /// The fall cue has been emitted.
    pub played_sound: bool,
    /// Time spent leaning, in milliseconds.
    pub tilt_elapsed_ms: u64,
}

impl Default for FallState {
    /// The idle state: no fall in progress.
    fn default() -> (s: Self)
        ensures
            s == (FallState {
                pos: Pos3 { x: 0, y: 0, z: 0 },
                fall_type: FallType::Straight,
                tilt_completed: true,
                completed: true,
                played_sound: true,
                tilt_elapsed_ms: 0,
            }),
    {
        FallState {
            pos: Pos3 { x: 0, y: 0, z: 0 },
            fall_type: FallType::Straight,
            tilt_completed: true,
            completed: true,
            played_sound: true,
            tilt_elapsed_ms: 0,
        }
    }
}

impl FallState {
    /// Begin a straight drop from the given landing point.
    pub fn animate_straight_fall(&mut self, pos: Pos3)
        ensures
            *final(self) == (FallState {
                pos,
                fall_type: FallType::Straight,
                completed: false,
                played_sound: false,
                ..*old(self)
            }),
    {
        self.pos = pos;
        self.fall_type = FallType::Straight;
        self.completed = false;
        self.played_sound = false;
    }

    /// Begin a tilt fall from the given landing point, leaning about the
    /// given axis.
    pub fn animate_tilt_fall(&mut self, pos: Pos3, direction: FallDirection)
        ensures
            *final(self) == (FallState {
                pos,
                fall_type: FallType::Tilt(direction),
                tilt_completed: false,
                completed: false,
                played_sound: false,
                tilt_elapsed_ms: 0,
            }),
    {
        self.pos = pos;
        self.fall_type = FallType::Tilt(direction);
        self.tilt_completed = false;
        self.completed = false;
        self.played_sound = false;
        self.tilt_elapsed_ms = 0;
    }
}

/// Charge duration from press to release timestamps; a clock that moved
/// backwards counts as zero.
pub open spec fn elapsed_of(start_ms: u64, now_ms: u64) -> u64 {
    if now_ms >= start_ms {
        (now_ms - start_ms) as u64
    } else {
        0
    }
}

/// The arc's duration for a given charge: half the charge, floored at
/// `MIN_JUMP_DURATION_MS`.
pub open spec fn jump_duration_spec(elapsed_ms: u64) -> u64 {
    if elapsed_ms / 2 >= MIN_JUMP_DURATION_MS {
        elapsed_ms / 2
    } else {
        MIN_JUMP_DURATION_MS
    }
}

/// The single axis a jump travels along, decided by the next platform's
/// offset from the current one.
#[derive(Clone, Copy, Debug, PartialEq, Eq, Structural)]
pub enum Axis {
    PosX,
    NegZ,
}

/// The travel axis is a pure function of the platforms' X offset: below
/// `AXIS_EPSILON` the path runs along -Z, otherwise along +X.
pub open spec fn travel_axis(cur: Pos3, next: Pos3) -> Axis {
    if next.x - cur.x < AXIS_EPSILON {
        Axis::NegZ
    } else {
        Axis::PosX
    }
}

/// Horizontal travel earned by a charge: `SPEED_PER_MS` per millisecond,
/// saturating at the model's coordinate bound.
pub open spec fn travel_dist_spec(elapsed_ms: u64) -> int {
    if SPEED_PER_MS * elapsed_ms > MAX_COORD {
        MAX_COORD as int
    } else {
        SPEED_PER_MS * elapsed_ms
    }
}

/// Where a charge of `elapsed_ms` lands a player starting at `player`:
/// displaced along the travel axis, at resting height.
pub open spec fn landing_pos_spec(player: Pos3, axis: Axis, elapsed_ms: u64) -> Pos3 {
    match axis {
        Axis::PosX => Pos3 {
            x: clamp_coord(player.x + travel_dist_spec(elapsed_ms)) as i64,
            y: INITIAL_PLAYER_Y,
            z: player.z,
        },
        Axis::NegZ => Pos3 {
            x: player.x,
            y: INITIAL_PLAYER_Y,
            z: clamp_coord(player.z - travel_dist_spec(elapsed_ms)) as i64,
        },
    }
}

/// Longest charge whose travel still fits the coordinate bound:
/// `MAX_COORD` divided by `SPEED_PER_MS`, rounded down.
pub const MAX_TRAVEL_CHARGE_MS: u64 = 333_333_333_333;

/// Exact travel distance for a charge duration.
pub fn travel_dist(elapsed_ms: u64) -> (d: i64)
    ensures
        d == travel_dist_spec(elapsed_ms),
        0 <= d <= MAX_COORD,
{
    if elapsed_ms > MAX_TRAVEL_CHARGE_MS {
        MAX_COORD
    } else {
        (3_000u64 * elapsed_ms) as i64
    }
}

/// Compute the landing position for a charge.
pub fn landing_pos(player: Pos3, axis: Axis, elapsed_ms: u64) -> (p: Pos3)
    requires
        pos_in_range(player),
    ensures
        p == landing_pos_spec(player, axis, elapsed_ms),
        pos_in_range(p),
{
    let d = travel_dist(elapsed_ms);
    match axis {
        Axis::PosX => Pos3 {
            x: crate::geometry::coord_add(player.x, d),
            y: INITIAL_PLAYER_Y,
            z: player.z,
        },
        Axis::NegZ => Pos3 { x: player.x, y: INITIAL_PLAYER_Y, z: coord_sub(player.z, d) },
    }
}

/// How a release resolves: a clean landing on the next platform (a point),
/// a landing back on the current one (no score), an edge graze (tilt fall),
/// or a clean miss (straight fall).
#[derive(Clone, Copy, Debug, PartialEq, Eq, Structural)]
pub enum Outcome {
    Scored,
    Safe,
    TiltFall(FallDirection),
    StraightFall,
}

/// Tilt direction after grazing the current platform: -X when travel ran
/// along X, else -Z (a fixed convention, not derived from the contact
/// normal).
pub open spec fn current_tilt_direction(cur: Pos3, next: Pos3) -> FallDirection {
    match travel_axis(cur, next) {
        Axis::PosX => FallDirection::NegX,
        Axis::NegZ => FallDirection::NegZ,
    }
}

/// Tilt direction after grazing the next platform: outward-facing, decided
/// by whether the landing over- or undershot the platform's centre on the
/// travel axis.
pub open spec fn next_tilt_direction(cur: Pos3, next: Pos3, landing: Pos3) -> FallDirection {
    match travel_axis(cur, next) {
        Axis::NegZ => if landing.z < next.z {
            FallDirection::NegX
        } else {
            FallDirection::PosX
        },
        Axis::PosX => if landing.x < next.x {
            FallDirection::PosZ
        } else {
            FallDirection::NegZ
        },
    }
}

/// Classification of a landing point, in priority order: landed on the next
/// platform (scored), landed back on the current one (safe), grazed the
/// current one, grazed the next one, clean miss. A total function of the
/// two platforms' poses and shapes and the landing point.
pub open spec fn classify_spec(
    cur_shape: PlatformShape,
    cur_pos: Pos3,
    next_shape: PlatformShape,
    next_pos: Pos3,
    landing: Pos3,
) -> Outcome {
    if landed_spec(next_shape, next_pos, landing) {
        Outcome::Scored
    } else if landed_spec(cur_shape, cur_pos, landing) {
        Outcome::Safe
    } else if touched_spec(cur_shape, cur_pos, landing, PLAYER_RADIUS) {
        Outcome::TiltFall(current_tilt_direction(cur_pos, next_pos))
    } else if touched_spec(next_shape, next_pos, landing, PLAYER_RADIUS) {
        Outcome::TiltFall(next_tilt_direction(cur_pos, next_pos, landing))
    } else {
        Outcome::StraightFall
    }
}

/// Classify a landing point against the current and next platforms.
pub fn classify_landing(
    cur_shape: PlatformShape,
    cur_pos: Pos3,
    next_shape: PlatformShape,
    next_pos: Pos3,
    landing: Pos3,
) -> (c: Outcome)
    requires
        pos_in_range(cur_pos),
        pos_in_range(next_pos),
        pos_in_range(landing),
    ensures
        c == classify_spec(cur_shape, cur_pos, next_shape, next_pos, landing),
{
    if next_shape.is_landed_on_platform(next_pos, landing) {
        Outcome::Scored
    } else if cur_shape.is_landed_on_platform(cur_pos, landing) {
        Outcome::Safe
    } else if cur_shape.is_touched_player(cur_pos, landing, PLAYER_RADIUS) {
        let direction = if next_pos.x - cur_pos.x < AXIS_EPSILON {
            FallDirection::NegZ
        } else {
            FallDirection::NegX
        };
        Outcome::TiltFall(direction)
    } else if next_shape.is_touched_player(next_pos, landing, PLAYER_RADIUS) {
        let direction = if next_pos.x - cur_pos.x < AXIS_EPSILON {
            if landing.z < next_pos.z {
                FallDirection::NegX
            } else {
                FallDirection::PosX
            }
        } else {
            if landing.x < next_pos.x {
                FallDirection::PosZ
            } else {
                FallDirection::NegZ
            }
        };
        Outcome::TiltFall(direction)
    } else {
        Outcome::StraightFall
    }
}

/// What one tick does to an arc in flight: nothing while idle; completion
/// (snap to the landing point, success cue unless the arc ends in a fall)
/// once elapsed time would pass the duration; otherwise just the clock
/// advances.
pub open spec fn jump_step_rel(
    j0: JumpState,
    j1: JumpState,
    p0: Pos3,
    p1: Pos3,
    dt_ms: u64,
    ev: Option<GameEvent>,
) -> bool {
    if j0.completed {
        j1 == j0 && p1 == p0 && ev is None
    } else if j0.elapsed_ms + dt_ms > j0.animation_duration_ms {
        &&& j1 == (JumpState { completed: true, ..j0 })
        &&& p1 == j0.end_pos
        &&& ev == if !j0.falled {
            Some(GameEvent::JumpSuccess)
        } else {
            None::<GameEvent>
        }
    } else {
        &&& j1 == (JumpState { elapsed_ms: (j0.elapsed_ms + dt_ms) as u64, ..j0 })
        &&& p1 == p0
        &&& ev is None
    }
}

/// Advance the arc by one tick.
///
/// The arc sweeps half a turn over its duration, so the next-frame arc
/// height would fall below the resting height exactly when elapsed time
/// passes the duration: then the player snaps to the landing point, the arc
/// is complete, and a landing that was no fall emits the success cue.
pub fn animate_jump(jump: &mut JumpState, player_pos: &mut Pos3, dt_ms: u64) -> (ev: Option<
    GameEvent,
>)
    ensures
        jump_step_rel(*old(jump), *final(jump), *old(player_pos), *final(player_pos), dt_ms, ev),
{
    if jump.completed {
        return None;
    }
    let over = if jump.elapsed_ms > jump.animation_duration_ms {
        true
    } else {
        dt_ms > jump.animation_duration_ms - jump.elapsed_ms
    };
    if over {
        *player_pos = jump.end_pos;
        jump.completed = true;
        if !jump.falled {
            Some(GameEvent::JumpSuccess)
        } else {
            None
        }
    } else {
        jump.elapsed_ms = jump.elapsed_ms + dt_ms;
        None
    }
}

/// Downward travel in one tick of falling, saturating at the model's
/// coordinate bound.
pub open spec fn fall_drop_spec(dt_ms: u64) -> int {
    if FALL_SPEED_PER_MS * dt_ms > MAX_COORD {
        MAX_COORD as int
    } else {
        FALL_SPEED_PER_MS * dt_ms
    }
}

/// The fall cue emitted by a fall's first tick, if it is still owed.
pub open spec fn fall_started_seq(f: FallState) -> Seq<GameEvent> {
    if f.played_sound {
        Seq::<GameEvent>::empty()
    } else {
        seq![GameEvent::FallStarted]
    }
}

/// The lean clock after one tick, saturating just past its goal.
pub open spec fn tilt_elapsed_next(e: u64, dt_ms: u64) -> u64 {
    if e + dt_ms > TILT_PHASE_MS + 1 {
        (TILT_PHASE_MS + 1) as u64
    } else {
        (e + dt_ms) as u64
    }
}

/// Longest tick whose downward travel still fits the coordinate bound:
/// `MAX_COORD` divided by `FALL_SPEED_PER_MS`, rounded down.
pub const MAX_FALL_TICK_MS: u64 = 1_428_571_428_571;

fn fall_drop(dt_ms: u64) -> (d: i64)
    ensures
        d == fall_drop_spec(dt_ms),
        0 <= d <= MAX_COORD,
{
    if dt_ms > MAX_FALL_TICK_MS {
        MAX_COORD
    } else {
        (700u64 * dt_ms) as i64
    }
}

/// What one tick does to a fall: nothing unless a fall is pending and the
/// arc has finished; otherwise the fall cue once, then either the straight
/// drop, or the lean followed by the drop, each completing — with the
/// game-over event and phase — once the height passes its threshold.
pub open spec fn fall_step_rel(
    f0: FallState,
    f1: FallState,
    j: JumpState,
    p0: Pos3,
    p1: Pos3,
    ph0: crate::ui::GameState,
    ph1: crate::ui::GameState,
    dt_ms: u64,
    evs: Seq<GameEvent>,
) -> bool {
    if f0.completed || !j.completed {
        f1 == f0 && p1 == p0 && ph1 == ph0 && evs == Seq::<GameEvent>::empty()
    } else {
        match f0.fall_type {
            FallType::Straight => if p0.y < STRAIGHT_COMPLETE_Y {
                &&& f1 == (FallState { completed: true, played_sound: true, ..f0 })
                &&& p1 == p0
                &&& ph1 is GameOver
                &&& evs == fall_started_seq(f0).push(GameEvent::GameOver)
            } else {
                &&& f1 == (FallState { played_sound: true, ..f0 })
                &&& p1 == (Pos3 { y: clamp_coord(p0.y - fall_drop_spec(dt_ms)) as i64, ..p0 })
                &&& ph1 == ph0
                &&& evs == fall_started_seq(f0)
            },
            FallType::Tilt(_) => if !f0.tilt_completed {
                if f0.tilt_elapsed_ms > TILT_PHASE_MS {
                    &&& f1 == (FallState { tilt_completed: true, played_sound: true, ..f0 })
                    &&& p1 == (Pos3 { y: (INITIAL_PLAYER_Y - TILT_PIVOT_DROP) as i64, ..p0 })
                    &&& ph1 == ph0
                    &&& evs == fall_started_seq(f0)
                } else {
                    &&& f1 == (FallState {
                        tilt_elapsed_ms: tilt_elapsed_next(f0.tilt_elapsed_ms, dt_ms),
                        played_sound: true,
                        ..f0
                    })
                    &&& p1 == p0
                    &&& ph1 == ph0
                    &&& evs == fall_started_seq(f0)
                }
            } else {
                if p0.y < TILT_COMPLETE_Y {
                    &&& f1 == (FallState { completed: true, played_sound: true, ..f0 })
                    &&& p1 == p0
                    &&& ph1 is GameOver
                    &&& evs == fall_started_seq(f0).push(GameEvent::GameOver)
                } else {
                    &&& f1 == (FallState { played_sound: true, ..f0 })
                    &&& p1 == (Pos3 { y: clamp_coord(p0.y - fall_drop_spec(dt_ms)) as i64, ..p0 })
                    &&& ph1 == ph0
                    &&& evs == fall_started_seq(f0)
                }
            },
        }
    }
}

/// Advance a fall by one tick, once the preceding arc has finished.
///
/// A straight fall drops the player until the height passes below
/// `STRAIGHT_COMPLETE_Y`; a tilt fall leans for `TILT_PHASE_MS` about the
/// pivot below the landing point (the model pins the height to the pivot
/// when the lean finishes), then drops until below `TILT_COMPLETE_Y`. The
/// first tick emits the fall cue once; a finished fall sets the phase to
/// `GameState::GameOver` and emits the game-over event.
pub fn animate_fall(
    fall: &mut FallState,
    jump: &JumpState,
    player_pos: &mut Pos3,
    phase: &mut crate::ui::GameState,
    dt_ms: u64,
) -> (evs: Vec<GameEvent>)
    requires
        coord_in_range(old(player_pos).y),
    ensures
        fall_step_rel(
            *old(fall),
            *final(fall),
            *jump,
            *old(player_pos),
            *final(player_pos),
            *old(phase),
            *final(phase),
            dt_ms,
            evs@,
        ),
        coord_in_range(final(player_pos).y),
        final(player_pos).x == old(player_pos).x,
        final(player_pos).z == old(player_pos).z,
{
    let mut evs: Vec<GameEvent> = Vec::new();
    if fall.completed || !jump.completed {
        return evs;
    }
    if !fall.played_sound {
        evs.push(GameEvent::FallStarted);
        fall.played_sound = true;
    }
    match fall.fall_type {
        FallType::Straight => {
            if player_pos.y < STRAIGHT_COMPLETE_Y {
                fall.completed = true;
                *phase = crate::ui::GameState::GameOver;
                evs.push(GameEvent::GameOver);
            } else {
                player_pos.y = coord_sub(player_pos.y, fall_drop(dt_ms));
            }
        },
        FallType::Tilt(_) => {
            if !fall.tilt_completed {
                if fall.tilt_elapsed_ms > TILT_PHASE_MS {
                    fall.tilt_completed = true;
                    player_pos.y = INITIAL_PLAYER_Y - TILT_PIVOT_DROP;
                } else {
                    let cap = TILT_PHASE_MS + 1;
                    if fall.tilt_elapsed_ms >= cap {
                        fall.tilt_elapsed_ms = cap;
                    } else if dt_ms > cap - fall.tilt_elapsed_ms {
                        fall.tilt_elapsed_ms = cap;
                    } else {
                        fall.tilt_elapsed_ms = fall.tilt_elapsed_ms + dt_ms;
                    }
                }
            } else {
                if player_pos.y < TILT_COMPLETE_Y {
                    fall.completed = true;
                    *phase = crate::ui::GameState::GameOver;
                    evs.push(GameEvent::GameOver);
                } else {
                    player_pos.y = coord_sub(player_pos.y, fall_drop(dt_ms));
                }
            }
        },
    }
    evs
}

/// Set up the player at the start of a run.
pub fn setup_player(player_pos: &mut Pos3)
    ensures
        *final(player_pos) == initial_player_pos(),
{
    *player_pos = Pos3 { x: 0, y: INITIAL_PLAYER_Y, z: 0 };
}

/// Which axis a jump travels along depends only on the X offset between
/// the current and next platforms, not on their absolute positions.
pub proof fn lemma_travel_axis_pure(cur1: Pos3, next1: Pos3, cur2: Pos3, next2: Pos3)
    requires
        next1.x - cur1.x == next2.x - cur2.x,
    ensures
        travel_axis(cur1, next1) == travel_axis(cur2, next2),
{
}

/// For every charge duration whose travel keeps the landing inside the
/// model's coordinate range, the computed travel distance is exactly
/// `SPEED_PER_MS` times the charge, taken along exactly one axis — the
/// coordinate on the other axis keeps the player's value and the height is
/// the resting height — and the axis is decided by the platforms' offset
/// alone.
pub proof fn lemma_travel_distance(player: Pos3, cur: Pos3, next: Pos3, elapsed_ms: u64)
    requires
        pos_in_range(player),
        SPEED_PER_MS * elapsed_ms <= MAX_COORD,
        player.x + SPEED_PER_MS * elapsed_ms <= MAX_COORD,
        player.z - SPEED_PER_MS * elapsed_ms >= -MAX_COORD,
    ensures
        ({
            let landing = landing_pos_spec(player, travel_axis(cur, next), elapsed_ms);
            &&& landing.y == INITIAL_PLAYER_Y
            &&& travel_axis(cur, next) is PosX ==> landing.x - player.x == SPEED_PER_MS
                * elapsed_ms && landing.z == player.z
            &&& travel_axis(cur, next) is NegZ ==> player.z - landing.z == SPEED_PER_MS
                * elapsed_ms && landing.x == player.x
        }),
{
}

/// Classification is a total function of the two platforms' poses and
/// shapes and the landing point: for every input exactly one of the four
/// outcomes — scored, safe without scoring, tilt fall, straight fall —
/// holds, each exactly when its geometric condition does.
pub proof fn lemma_classification_total(
    cur_shape: PlatformShape,
    cur_pos: Pos3,
    next_shape: PlatformShape,
    next_pos: Pos3,
    landing: Pos3,
)
    ensures
        ({
            let c = classify_spec(cur_shape, cur_pos, next_shape, next_pos, landing);
            &&& (c is Scored) <==> landed_spec(next_shape, next_pos, landing)
            &&& (c is Safe) <==> (!landed_spec(next_shape, next_pos, landing) && landed_spec(
                cur_shape,
                cur_pos,
                landing,
            ))
            &&& (c matches Outcome::TiltFall(_)) <==> (!landed_spec(next_shape, next_pos, landing)
                && !landed_spec(cur_shape, cur_pos, landing) && (touched_spec(
                cur_shape,
                cur_pos,
                landing,
                PLAYER_RADIUS,
            ) || touched_spec(next_shape, next_pos, landing, PLAYER_RADIUS)))
            &&& (c is StraightFall) <==> (!landed_spec(next_shape, next_pos, landing)
                && !landed_spec(cur_shape, cur_pos, landing) && !touched_spec(
                cur_shape,
                cur_pos,
                landing,
                PLAYER_RADIUS,
            ) && !touched_spec(next_shape, next_pos, landing, PLAYER_RADIUS))
        }),
{
}

} // verus!
