//! Planar positions in milli-units (one world unit = 1000 milli-units),
//! origin at screen center, and the axis-aligned proximity test used by
//! collision resolution.
use vstd::prelude::*;

use crate::num::{clamp_i64, sat_add_i64};

verus! {

/// A point of the playfield, in milli-units.
#[derive(Clone, Copy, PartialEq, Eq, Structural, Debug)]
pub struct Pos {
    pub x: i64,
    pub y: i64,
}

/// `a` and `b` are within `dist` of each other on both axes (an axis-aligned
/// square region, deliberately coarse, not a circular radius).
pub open spec fn spec_collided(a: Pos, b: Pos, dist: i64) -> bool {
    -dist <= a.x - b.x <= dist && -dist <= a.y - b.y <= dist
}

/// Both coordinates of `a + b`, clamped to the machine range.
pub open spec fn spec_pos_add(a: Pos, b: Pos) -> Pos {
    Pos { x: clamp_i64(a.x + b.x) as i64, y: clamp_i64(a.y + b.y) as i64 }
}

/// Add two positions coordinate-wise, clamping to the machine range.
pub fn pos_add(a: &Pos, b: &Pos) -> (r: Pos)
    ensures
        r == spec_pos_add(*a, *b),
{
    Pos { x: sat_add_i64(a.x, b.x), y: sat_add_i64(a.y, b.y) }
}

/// Return whether `a` and `b` are within `dist` milli-units of each other in
/// both the x and the y axis (boundary inclusive).
pub fn collided(a: &Pos, b: &Pos, dist: i64) -> (r: bool)
    ensures
        r == spec_collided(*a, *b, dist),
{
    let dx: i128 = a.x as i128 - b.x as i128;
    let dy: i128 = a.y as i128 - b.y as i128;
    let d: i128 = dist as i128;
    -d <= dx && dx <= d && -d <= dy && dy <= d
}

} // verus!
