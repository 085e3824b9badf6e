//! The answer to a change of DPI on Windows.
//!
//! When a window is dragged to a monitor of another DPI, the system sends a
//! message with the rectangle it suggests for the window. The answer that
//! works is the simple one: give the window exactly that rectangle.

use vstd::prelude::*;

verus! {

/// A rectangle by its edges, as the system gives it.
#[derive(Clone, Copy, Debug, PartialEq, Eq, Structural)]
pub struct Rect {
    pub left: i32,
    pub top: i32,
    pub right: i32,
    pub bottom: i32,
}

/// A rectangle by its corner and its size, as the system takes it.
#[derive(Clone, Copy, Debug, PartialEq, Eq, Structural)]
pub struct Placement {
    pub x: i32,
    pub y: i32,
    pub width: i32,
    pub height: i32,
}

impl Rect {
    /// Whether width and height of the rectangle are within the range of a
    /// coordinate.
    pub open spec fn measurable(self) -> bool {
        &&& i32::MIN <= self.right - self.left <= i32::MAX
        &&& i32::MIN <= self.bottom - self.top <= i32::MAX
    }
}

/// The placement to give the window when the system suggests `suggested`.
pub fn handle_dpi_changed(suggested: &Rect) -> (r: Placement)
    requires
        suggested.measurable(),
    ensures
        r.x == suggested.left,
        r.y == suggested.top,
        r.width == suggested.right - suggested.left,
        r.height == suggested.bottom - suggested.top,
{
    Placement {
        x: suggested.left,
        y: suggested.top,
        width: suggested.right - suggested.left,
        height: suggested.bottom - suggested.top,
    }
}

} // verus!
