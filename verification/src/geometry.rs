//! Fixed-point world geometry.
//!
//! All world coordinates are integers in micro-units: one world unit is
//! `UNIT` (1_000_000) micro-units. Coordinates live in the closed interval
//! `[-MAX_COORD, MAX_COORD]`; the few operations that could leave it clamp
//! their result to the nearest bound, and their contracts say so exactly.
//! Inside the interval every operation is exact.

use vstd::prelude::*;

verus! {

/// Micro-units per world unit.
pub const UNIT: i64 = 1_000_000;

/// Largest coordinate magnitude the model admits (one billion world units).
pub const MAX_COORD: i64 = 1_000_000_000_000_000;

/// A point of the game world, in micro-units.
#[derive(Clone, Copy, Debug, PartialEq, Eq, Structural)]
pub struct Pos3 {
    pub x: i64,
    pub y: i64,
    pub z: i64,
}

/// A single coordinate lies within the model's interval.
pub open spec fn coord_in_range(c: i64) -> bool {
    -MAX_COORD <= c <= MAX_COORD
}

/// Every coordinate of the point lies within the model's interval.
pub open spec fn pos_in_range(p: Pos3) -> bool {
    coord_in_range(p.x) && coord_in_range(p.y) && coord_in_range(p.z)
}

/// Clamp a mathematical coordinate to the model's interval.
pub open spec fn clamp_coord(v: int) -> int {
    if v > MAX_COORD as int {
        MAX_COORD as int
    } else if v < -MAX_COORD as int {
        -MAX_COORD as int
    } else {
        v
    }
}

/// Distance between two coordinates, as a mathematical integer.
pub open spec fn coord_dist(a: i64, b: i64) -> int {
    if a >= b {
        a - b
    } else {
        b - a
    }
}

/// Add a non-negative offset to a coordinate, clamping into range.
pub fn coord_add(a: i64, d: i64) -> (r: i64)
    requires
        coord_in_range(a),
        0 <= d <= MAX_COORD,
    ensures
        r == clamp_coord(a + d),
        coord_in_range(r),
{
    if a > MAX_COORD - d {
        MAX_COORD
    } else {
        a + d
    }
}

/// Subtract a non-negative offset from a coordinate, clamping into range.
pub fn coord_sub(a: i64, d: i64) -> (r: i64)
    requires
        coord_in_range(a),
        0 <= d <= MAX_COORD,
    ensures
        r == clamp_coord(a - d),
        coord_in_range(r),
{
    if a < (-MAX_COORD) + d {
        -MAX_COORD
    } else {
        a - d
    }
}

/// Exact distance between two in-range coordinates.
pub fn coord_dist_exec(a: i64, b: i64) -> (r: i64)
    requires
        coord_in_range(a),
        coord_in_range(b),
    ensures
        r == coord_dist(a, b),
{
    if a >= b {
        a - b
    } else {
        b - a
    }
}

} // verus!
