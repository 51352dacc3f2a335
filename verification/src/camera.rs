//! The camera and the coordinate mapper: a two-dimensional orthographic
//! camera described by plain values, and the pure transform that takes a
//! cursor position in logical pixels to a point in world space.

use crate::geometry::{Vec2i, COORD_BOUND, WORLD_BOUND};
use vstd::prelude::*;

verus! {

/// A two-dimensional camera. `position` is where the camera looks in
/// world space (the world point under the viewport's center);
/// `viewport_width` and `viewport_height` are the viewport size in
/// logical pixels; `scale` is how many world units one logical pixel
/// covers. A `scale` of zero models a degenerate projection that cannot
/// be inverted.
#[derive(Clone, Copy, PartialEq, Eq, Structural, Debug)]
pub struct CameraModel {
    pub position: Vec2i,
    pub viewport_width: i64,
    pub viewport_height: i64,
    pub scale: i64,
}

impl CameraModel {
    /// Bounds under which the mapping arithmetic stays inside `i64`.
    pub open spec fn wf(self) -> bool {
        &&& self.position.in_bounds()
        &&& 0 <= self.viewport_width <= COORD_BOUND
        &&& 0 <= self.viewport_height <= COORD_BOUND
        &&& 0 <= self.scale <= COORD_BOUND
    }

    /// Runtime check of `wf`.
    pub fn is_wf(&self) -> (r: bool)
        ensures
            r == self.wf(),
    {
        self.position.is_in_bounds() && 0 <= self.viewport_width
            && self.viewport_width <= COORD_BOUND && 0 <= self.viewport_height
            && self.viewport_height <= COORD_BOUND && 0 <= self.scale && self.scale <= COORD_BOUND
    }
}

/// World x-coordinate of a cursor at logical x: its offset from the
/// viewport's vertical center line, scaled, from the camera's position.
pub open spec fn world_x(camera: CameraModel, cursor: Vec2i) -> int {
    camera.position.x + (cursor.x - camera.viewport_width / 2) * camera.scale
}

/// World y-coordinate: logical y grows downward while world y grows
/// upward, so the offset from the viewport's horizontal center line flips.
pub open spec fn world_y(camera: CameraModel, cursor: Vec2i) -> int {
    camera.position.y + (camera.viewport_height / 2 - cursor.y) * camera.scale
}

/// Can the camera resolve a world position for a cursor point at all?
/// Exactly the cameras whose projection is not degenerate can.
pub open spec fn spec_in_viewport(camera: CameraModel) -> bool {
    camera.scale != 0
}

/// Does the camera resolve a world position for this logical cursor
/// position? (The answer depends only on whether the projection is
/// degenerate.)
pub fn is_cursor_pos_in_viewport(camera: &CameraModel, cursor_pos: Vec2i) -> (r: bool)
    ensures
        r == spec_in_viewport(*camera),
{
    camera.scale != 0
}

/// The coordinate mapper: the world point under a cursor at
/// `cursor_pos` logical pixels, or `None` when the camera's projection
/// cannot be inverted. On success both world coordinates stay within
/// `WORLD_BOUND`.
pub fn map_to_world(camera: &CameraModel, cursor_pos: Vec2i) -> (r: Option<Vec2i>)
    requires
        camera.wf(),
        cursor_pos.in_bounds(),
    ensures
        r is Some <==> spec_in_viewport(*camera),
        r matches Some(w) ==> {
            &&& w.x == world_x(*camera, cursor_pos)
            &&& w.y == world_y(*camera, cursor_pos)
            &&& -WORLD_BOUND <= w.x <= WORLD_BOUND
            &&& -WORLD_BOUND <= w.y <= WORLD_BOUND
        },
{
    if camera.scale == 0 {
        return None;
    }
    let half_w = camera.viewport_width / 2;
    let half_h = camera.viewport_height / 2;
    let dx = cursor_pos.x - half_w;
    let dy = half_h - cursor_pos.y;
    assert(-0x1800_0000_0000_0000 <= dx * camera.scale <= 0x1800_0000_0000_0000)
        by (nonlinear_arith)
        requires
            -0x6000_0000 <= dx <= 0x6000_0000,
            0 <= camera.scale <= 0x4000_0000,
    ;
    assert(-0x1800_0000_0000_0000 <= dy * camera.scale <= 0x1800_0000_0000_0000)
        by (nonlinear_arith)
        requires
            -0x6000_0000 <= dy <= 0x6000_0000,
            0 <= camera.scale <= 0x4000_0000,
    ;
    let wx = camera.position.x + dx * camera.scale;
    let wy = camera.position.y + dy * camera.scale;
    Some(Vec2i { x: wx, y: wy })
}

/// The world point for a cursor position the camera can resolve.
pub fn get_world_position(camera: &CameraModel, cursor_pos: Vec2i) -> (r: Vec2i)
    requires
        camera.wf(),
        cursor_pos.in_bounds(),
        spec_in_viewport(*camera),
    ensures
        r.x == world_x(*camera, cursor_pos),
        r.y == world_y(*camera, cursor_pos),
        -WORLD_BOUND <= r.x <= WORLD_BOUND,
        -WORLD_BOUND <= r.y <= WORLD_BOUND,
{
    map_to_world(camera, cursor_pos).unwrap()
}

} // verus!
