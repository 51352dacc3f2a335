//! Hit testing and the displacement response: whether a world point lies
//! strictly inside an axis-aligned rectangle, and where the rectangle's
//! center jumps when it does.

use crate::geometry::{Vec2i, WORLD_BOUND};
use vstd::prelude::*;

verus! {

/// One axis of the hit test: `p` lies strictly between `c - h` and `c + h`.
pub open spec fn strictly_within(c: int, h: int, p: int) -> bool {
    c - h < p < c + h
}

/// One axis of the displacement: the center, mirrored through itself
/// relative to the contact coordinate.
pub open spec fn mirror(c: int, p: int) -> int {
    2 * c - p
}

/// A world point is inside the rectangle iff it is strictly within the
/// half-extent of the center on both axes; boundary points do not count.
pub open spec fn spec_contains(center: Vec2i, half_extent: Vec2i, point: Vec2i) -> bool {
    &&& strictly_within(center.x as int, half_extent.x as int, point.x as int)
    &&& strictly_within(center.y as int, half_extent.y as int, point.y as int)
}

/// Does `point` fall strictly inside the axis-aligned rectangle given by
/// `center` and `half_extent`?
pub fn contains(center: Vec2i, half_extent: Vec2i, point: Vec2i) -> (r: bool)
    requires
        center.in_bounds(),
        half_extent.in_bounds(),
    ensures
        r == spec_contains(center, half_extent, point),
{
    point.x > center.x - half_extent.x && point.x < center.x + half_extent.x
        && point.y > center.y - half_extent.y && point.y < center.y + half_extent.y
}

/// The single-step "move away" response: the new center is the old center
/// mirrored through itself relative to `point`, i.e. `2 * center - point`.
pub fn respond(center: Vec2i, point: Vec2i) -> (r: Vec2i)
    requires
        center.in_bounds(),
        -WORLD_BOUND <= point.x <= WORLD_BOUND,
        -WORLD_BOUND <= point.y <= WORLD_BOUND,
    ensures
        r.x == mirror(center.x as int, point.x as int),
        r.y == mirror(center.y as int, point.y as int),
{
    let dx = point.x - center.x;
    let dy = point.y - center.y;
    Vec2i { x: center.x - dx, y: center.y - dy }
}

/// The center of a rectangle with positive half-extents is always inside
/// its own rectangle.
pub proof fn lemma_center_is_contained(center: Vec2i, half_extent: Vec2i)
    requires
        half_extent.x > 0,
        half_extent.y > 0,
    ensures
        spec_contains(center, half_extent, center),
{
}

/// A point exactly on one of the rectangle's boundary lines is not
/// contained: the hit test is strict on both axes.
pub proof fn lemma_edge_is_not_contained(center: Vec2i, half_extent: Vec2i, point: Vec2i)
    requires
        ({
            ||| point.x == center.x + half_extent.x
            ||| point.x == center.x - half_extent.x
            ||| point.y == center.y + half_extent.y
            ||| point.y == center.y - half_extent.y
        }),
    ensures
        !spec_contains(center, half_extent, point),
{
}

/// The response mirrors exactly: the vector from the old center to the new
/// one is the negation of the vector from the old center to the point.
/// Applying the response twice against the same point returns to the old
/// center only in the degenerate case where the point was the center, and
/// that is also the only case in which the displacement measured from the
/// point equals the negated offset of the old center from the point.
pub proof fn lemma_respond_mirrors(c: int, p: int)
    ensures
        mirror(c, p) - c == -(p - c),
        (mirror(mirror(c, p), p) == c) <==> (c == p),
        (mirror(c, p) - p == -(c - p)) <==> (c == p),
{
}

} // verus!
