//! Integer plane geometry: the point/vector type that every coordinate of
//! the scene is expressed in, and the bounds that keep the arithmetic of
//! the coordinate mapping and of the displacement inside `i64`.

use vstd::prelude::*;

verus! {

/// Largest magnitude allowed for a coordinate stored in the scene:
/// positions, half-extents, viewport sizes, camera scales and cursor
/// positions all stay within `[-COORD_BOUND, COORD_BOUND]`.
pub const COORD_BOUND: i64 = 0x4000_0000;

/// Largest magnitude a world point produced by the coordinate mapper can
/// have when the camera and the cursor are within `COORD_BOUND`; every
/// value in this range is safe to hand to the displacement responder.
pub const WORLD_BOUND: i64 = 0x2000_0000_0000_0000;

/// A two-dimensional point or vector with integer coordinates.
#[derive(Clone, Copy, PartialEq, Eq, Structural, Debug)]
pub struct Vec2i {
    pub x: i64,
    pub y: i64,
}

impl Vec2i {
    /// Both coordinates within `[-COORD_BOUND, COORD_BOUND]`.
    pub open spec fn in_bounds(self) -> bool {
        &&& -COORD_BOUND <= self.x <= COORD_BOUND
        &&& -COORD_BOUND <= self.y <= COORD_BOUND
    }

    pub fn new(x: i64, y: i64) -> (r: Vec2i)
        ensures
            r == (Vec2i { x, y }),
    {
        Vec2i { x, y }
    }

    /// Runtime check of `in_bounds`.
    pub fn is_in_bounds(&self) -> (r: bool)
        ensures
            r == self.in_bounds(),
    {
        -COORD_BOUND <= self.x && self.x <= COORD_BOUND && -COORD_BOUND <= self.y
            && self.y <= COORD_BOUND
    }
}

} // verus!
