//! Platforms: shapes, footprint predicates, roles, and procedural generation.
//!
//! A platform's footprint is an axis-aligned square around its centre: a box
//! of half-extent `HALF_EXTENT`, and a cylinder approximated by the same
//! axis-aligned test on its radius (a deliberate simplification of the
//! circular boundary). The generator places each new platform a random
//! distance from the current one along `+X` or `-Z`, never diagonally.

use vstd::prelude::*;

use crate::geometry::{
    clamp_coord, coord_add, coord_dist, coord_dist_exec, coord_in_range, coord_sub, pos_in_range,
    Pos3, MAX_COORD,
};
use crate::random::{sample_bool, sample_range_u64};

verus! {

/// Half the side of a box platform's footprint, and a cylinder's radius,
/// in micro-units (0.75 world units).
pub const HALF_EXTENT: i64 = 750_000;

/// Height of a platform's centre above the ground (0.5 world units).
pub const PLATFORM_Y: i64 = 500_000;

/// Smallest offset the generator places between consecutive platforms
/// (2.5 world units).
pub const MIN_NEXT_DISTANCE: i64 = 2_500_000;

/// One past the largest offset the generator places between consecutive
/// platforms (4.0 world units).
pub const MAX_NEXT_DISTANCE: i64 = 4_000_000;

/// The two platform shapes.
#[derive(Clone, Copy, Debug, PartialEq, Eq, Structural)]
pub enum PlatformShape {
    Box,
    Cylinder,
}

/// A platform's part in the current run: the one the player stands on, the
/// one being jumped at, or an old platform left behind.
#[derive(Clone, Copy, Debug, PartialEq, Eq, Structural)]
pub enum PlatformRole {
    Current,
    Next,
    Retired,
}

/// A cosmetic colour, one byte per channel.
#[derive(Clone, Copy, Debug, PartialEq, Eq, Structural)]
pub struct PlatformColor {
    pub red: u8,
    pub green: u8,
    pub blue: u8,
}

/// One platform of the run.
#[derive(Clone, Copy, Debug, PartialEq, Eq, Structural)]
pub struct Platform {
    pub shape: PlatformShape,
    pub color: PlatformColor,
    pub pos: Pos3,
    pub role: PlatformRole,
}

/// The landing point falls strictly inside the platform's horizontal
/// footprint.
pub open spec fn landed_spec(shape: PlatformShape, platform_pos: Pos3, landing_pos: Pos3) -> bool {
    match shape {
        PlatformShape::Box => {
            &&& coord_dist(landing_pos.x, platform_pos.x) < HALF_EXTENT
            &&& coord_dist(landing_pos.z, platform_pos.z) < HALF_EXTENT
        },
        PlatformShape::Cylinder => {
            &&& coord_dist(landing_pos.x, platform_pos.x) < HALF_EXTENT
            &&& coord_dist(landing_pos.z, platform_pos.z) < HALF_EXTENT
        },
    }
}

/// The same footprint test inflated by the player's radius: the player
/// grazes the platform's edge without standing inside it.
pub open spec fn touched_spec(
    shape: PlatformShape,
    platform_pos: Pos3,
    landing_pos: Pos3,
    player_radius: i64,
) -> bool {
    match shape {
        PlatformShape::Box => {
            &&& coord_dist(landing_pos.x, platform_pos.x) < HALF_EXTENT + player_radius
            &&& coord_dist(landing_pos.z, platform_pos.z) < HALF_EXTENT + player_radius
        },
        PlatformShape::Cylinder => {
            &&& coord_dist(landing_pos.x, platform_pos.x) < HALF_EXTENT + player_radius
            &&& coord_dist(landing_pos.z, platform_pos.z) < HALF_EXTENT + player_radius
        },
    }
}

impl PlatformShape {
    /// Strict footprint test: both axis-aligned distances are below the
    /// half-extent (a landing exactly on the boundary does not count).
    pub fn is_landed_on_platform(&self, platform_pos: Pos3, landing_pos: Pos3) -> (b: bool)
        requires
            pos_in_range(platform_pos),
            pos_in_range(landing_pos),
        ensures
            b == landed_spec(*self, platform_pos, landing_pos),
    {
        match self {
            PlatformShape::Box => {
                coord_dist_exec(landing_pos.x, platform_pos.x) < HALF_EXTENT
                    && coord_dist_exec(landing_pos.z, platform_pos.z) < HALF_EXTENT
            },
            PlatformShape::Cylinder => {
                coord_dist_exec(landing_pos.x, platform_pos.x) < HALF_EXTENT
                    && coord_dist_exec(landing_pos.z, platform_pos.z) < HALF_EXTENT
            },
        }
    }

    /// Footprint test inflated by `player_radius`, used to detect an edge
    /// graze rather than a clean landing.
    pub fn is_touched_player(
        &self,
        platform_pos: Pos3,
        landing_pos: Pos3,
        player_radius: i64,
    ) -> (b: bool)
        requires
            pos_in_range(platform_pos),
            pos_in_range(landing_pos),
            0 <= player_radius <= MAX_COORD,
        ensures
            b == touched_spec(*self, platform_pos, landing_pos, player_radius),
    {
        match self {
            PlatformShape::Box => {
                coord_dist_exec(landing_pos.x, platform_pos.x) < HALF_EXTENT + player_radius
                    && coord_dist_exec(landing_pos.z, platform_pos.z) < HALF_EXTENT + player_radius
            },
            PlatformShape::Cylinder => {
                coord_dist_exec(landing_pos.x, platform_pos.x) < HALF_EXTENT + player_radius
                    && coord_dist_exec(landing_pos.z, platform_pos.z) < HALF_EXTENT + player_radius
            },
        }
    }
}

/// Some platform in the sequence holds the given role.
pub open spec fn has_role(s: Seq<Platform>, r: PlatformRole) -> bool {
    exists|i: int| 0 <= i < s.len() && s[i].role == r
}

/// No two distinct platforms hold the given role.
pub open spec fn at_most_one_role(s: Seq<Platform>, r: PlatformRole) -> bool {
    forall|i: int, j: int|
        #![trigger s[i], s[j]]
        0 <= i < s.len() && 0 <= j < s.len() && s[i].role == r && s[j].role == r ==> i == j
}

/// The index of the platform holding the given role (meaningful only when
/// `has_role` holds).
pub open spec fn role_idx(s: Seq<Platform>, r: PlatformRole) -> int {
    choose|i: int| 0 <= i < s.len() && s[i].role == r
}

/// Well-formed platform set: roles `Current` and `Next` are each held by at
/// most one platform, and every position lies in the model's range.
pub open spec fn platforms_wf(s: Seq<Platform>) -> bool {
    &&& at_most_one_role(s, PlatformRole::Current)
    &&& at_most_one_role(s, PlatformRole::Next)
    &&& forall|i: int| 0 <= i < s.len() ==> pos_in_range((#[trigger] s[i]).pos)
}

/// Find the first platform holding the given role.
pub fn find_role(platforms: &Vec<Platform>, role: PlatformRole) -> (r: Option<usize>)
    ensures
        match r {
            Some(i) => i < platforms@.len() && platforms@[i as int].role == role,
            None => !has_role(platforms@, role),
        },
{
    let n = platforms.len();
    for i in 0..n
        invariant
            n == platforms@.len(),
            forall|k: int| 0 <= k < i ==> (#[trigger] platforms@[k]).role != role,
    {
        if platforms[i].role == role {
            return Some(i);
        }
    }
    None
}

/// A freshly generated platform's position relative to the current one:
/// offset by some distance in `[MIN_NEXT_DISTANCE, MAX_NEXT_DISTANCE)` along
/// `+X` or along `-Z`, at platform height, clamped into the model's range.
pub open spec fn next_platform_pos(cur: Pos3, next: Pos3) -> bool {
    exists|d: int|
        #![trigger clamp_coord(cur.x + d)]
        #![trigger clamp_coord(cur.z - d)]
        MIN_NEXT_DISTANCE <= d < MAX_NEXT_DISTANCE && (next == (Pos3 {
            x: clamp_coord(cur.x + d) as i64,
            y: PLATFORM_Y,
            z: cur.z,
        }) || next == (Pos3 { x: cur.x, y: PLATFORM_Y, z: clamp_coord(cur.z - d) as i64 }))
}

/// What one generator call does to the platform set: a no-op when a `Next`
/// platform already exists, otherwise one new `Next` platform appended at a
/// generated offset from the current platform.
pub open spec fn generate_step(s0: Seq<Platform>, s1: Seq<Platform>) -> bool {
    if has_role(s0, PlatformRole::Next) {
        s1 == s0
    } else {
        &&& s1.len() == s0.len() + 1
        &&& forall|i: int| 0 <= i < s0.len() ==> s1[i] == s0[i]
        &&& s1.last().role is Next
        &&& next_platform_pos(s0[role_idx(s0, PlatformRole::Current)].pos, s1.last().pos)
    }
}

/// Uniformly random choice between the two shapes.
fn rand_platform_shape() -> PlatformShape {
    let selection = sample_range_u64(0, 2);
    match selection {
        0 => PlatformShape::Box,
        1 => PlatformShape::Cylinder,
        _ => PlatformShape::Box,
    }
}

/// Uniformly random cosmetic colour.
fn rand_platform_color() -> PlatformColor {
    let red = sample_range_u64(0, 256) as u8;
    let green = sample_range_u64(0, 256) as u8;
    let blue = sample_range_u64(0, 256) as u8;
    PlatformColor { red, green, blue }
}

/// Append a platform with a random shape and colour at the given position.
fn spawn_rand_platform(platforms: &mut Vec<Platform>, pos: Pos3, role: PlatformRole)
    ensures
        final(platforms)@.len() == old(platforms)@.len() + 1,
        forall|i: int| 0 <= i < old(platforms)@.len() ==> final(platforms)@[i] == old(platforms)@[i],
        final(platforms)@.last().pos == pos,
        final(platforms)@.last().role == role,
{
    let shape = rand_platform_shape();
    let color = rand_platform_color();
    platforms.push(Platform { shape, color, pos, role });
}

/// Place the initial platform of a run: role `Current`, at the world origin's
/// footprint, with a random shape and colour.
pub fn setup_first_platform(platforms: &mut Vec<Platform>)
    requires
        old(platforms)@.len() == 0,
    ensures
        final(platforms)@.len() == 1,
        final(platforms)@[0].role is Current,
        final(platforms)@[0].pos == (Pos3 { x: 0, y: PLATFORM_Y, z: 0 }),
        platforms_wf(final(platforms)@),
{
    spawn_rand_platform(platforms, Pos3 { x: 0, y: PLATFORM_Y, z: 0 }, PlatformRole::Current);
}

/// Generate the next platform, if none is pending.
///
/// Idempotent: when a `Next` platform already exists the platform set is
/// left exactly as it was, so the set never holds more than one `Next`
/// platform. Otherwise one new `Next` platform is appended, a random
/// distance from the current platform along `+X` or `-Z`.
pub fn generate_next_platform(platforms: &mut Vec<Platform>)
    requires
        platforms_wf(old(platforms)@),
        !has_role(old(platforms)@, PlatformRole::Next) ==> has_role(
            old(platforms)@,
            PlatformRole::Current,
        ),
    ensures
        generate_step(old(platforms)@, final(platforms)@),
        platforms_wf(final(platforms)@),
        has_role(final(platforms)@, PlatformRole::Next),
        at_most_one_role(final(platforms)@, PlatformRole::Next),
{
    match find_role(platforms, PlatformRole::Next) {
        Some(i) => {
            proof {
                assert(has_role(platforms@, PlatformRole::Next));
            }
        },
        None => {
            let ci = match find_role(platforms, PlatformRole::Current) {
                Some(i) => i,
                None => {
                    proof {
                        assert(false);
                    }
                    0
                },
            };
            let cur_pos = platforms[ci].pos;
            proof {
                let k = role_idx(platforms@, PlatformRole::Current);
                assert(platforms@[ci as int].role == PlatformRole::Current);
                assert(0 <= k < platforms@.len() && platforms@[k].role == PlatformRole::Current);
                assert(k == ci as int);
            }
            let d = sample_range_u64(MIN_NEXT_DISTANCE as u64, MAX_NEXT_DISTANCE as u64) as i64;
            let next_pos = if sample_bool() {
                Pos3 { x: coord_add(cur_pos.x, d), y: PLATFORM_Y, z: cur_pos.z }
            } else {
                Pos3 { x: cur_pos.x, y: PLATFORM_Y, z: coord_sub(cur_pos.z, d) }
            };
            spawn_rand_platform(platforms, next_pos, PlatformRole::Next);
        },
    }
}

/// Remove every platform (run reset).
pub fn clear_platforms(platforms: &mut Vec<Platform>)
    ensures
        final(platforms)@.len() == 0,
{
    platforms.clear();
}

} // verus!
