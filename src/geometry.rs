//! Axis-aligned bounding boxes and the overlap test shared by the spawner
//! and the collision resolver.
use vstd::prelude::*;

verus! {

/// Absolute value over the mathematical integers.
pub open spec fn abs_int(v: int) -> int {
    if v < 0 {
        -v
    } else {
        v
    }
}

/// A rectangle given by its centre and its half extents.
#[derive(Clone, Copy, Debug, PartialEq, Eq, Structural)]
pub struct Aabb {
    pub x: i64,
    pub y: i64,
    pub half_w: i64,
    pub half_h: i64,
}

/// Two rectangles overlap when the distance between their centres is strictly
/// below the sum of their half extents on both axes: edges that only touch do
/// not overlap.
pub open spec fn overlaps_spec(a: Aabb, b: Aabb) -> bool {
    abs_int(a.x - b.x) < a.half_w + b.half_w && abs_int(a.y - b.y) < a.half_h + b.half_h
}

fn abs_diff(a: i64, b: i64) -> (r: i128)
    ensures
        r == abs_int(a - b),
{
    let d: i128 = a as i128 - b as i128;
    if d < 0 {
        -d
    } else {
        d
    }
}

/// Whether the two rectangles overlap.
pub fn overlaps(a: &Aabb, b: &Aabb) -> (r: bool)
    ensures
        r == overlaps_spec(*a, *b),
{
    let dx = abs_diff(a.x, b.x);
    let dy = abs_diff(a.y, b.y);
    dx < a.half_w as i128 + b.half_w as i128 && dy < a.half_h as i128 + b.half_h as i128
}

/// Overlap does not depend on the order of the two rectangles.
pub proof fn lemma_overlaps_symmetric(a: Aabb, b: Aabb)
    ensures
        overlaps_spec(a, b) == overlaps_spec(b, a),
{
}

} // verus!
