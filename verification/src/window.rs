//! The window as the scene sees it: nothing but the cursor position, which
//! is absent while the cursor is outside the window, and otherwise a point
//! in logical pixels with the origin at the window's top-left corner.

use crate::geometry::Vec2i;
use vstd::prelude::*;

verus! {

/// Per-tick window state.
#[derive(Clone, Copy, PartialEq, Eq, Debug)]
pub struct WindowState {
    /// The cursor position in logical pixels, `None` while the cursor is
    /// outside the window.
    pub cursor: Option<Vec2i>,
}

impl WindowState {
    /// A present cursor position stays within `COORD_BOUND`.
    pub open spec fn wf(self) -> bool {
        self.cursor is Some ==> self.cursor.unwrap().in_bounds()
    }

    /// Runtime check of `wf`.
    pub fn is_wf(&self) -> (r: bool)
        ensures
            r == self.wf(),
    {
        match self.cursor {
            Some(c) => c.is_in_bounds(),
            None => true,
        }
    }
}

/// Is the cursor currently inside the window?
pub fn is_cursor_in_window(window: &WindowState) -> (r: bool)
    ensures
        r == (window.cursor is Some),
{
    window.cursor.is_some()
}

/// The cursor position in this window in logical pixels.
pub fn get_cursor_position_logical(window: &WindowState) -> (r: Vec2i)
    requires
        window.cursor is Some,
    ensures
        window.cursor == Some(r),
{
    window.cursor.unwrap()
}

/// Place the cursor at `position`, in logical pixels.
pub fn set_cursor_position_logical(window: &mut WindowState, position: Vec2i)
    ensures
        final(window).cursor == Some(position),
{
    window.cursor = Some(position);
}

} // verus!
