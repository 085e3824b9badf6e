//! Frame extents under X11.
//!
//! The window system reports a window's position as that of its content area,
//! but takes the position it is given as that of the frame. A position that is
//! saved and restored unchanged therefore moves the window down by the height
//! of the title bar, each time. The window manager publishes the frame's
//! extents in the property `_NET_FRAME_EXTENTS`; the top extent is taken off
//! the target position before it is applied.

use vstd::prelude::*;

use crate::types::IVec2;
use crate::types::TargetPosition;

verus! {

/// The number of extents in the property: left, right, top, bottom.
pub const FRAME_EXTENT_COUNT: usize = 4;

/// The place of the top extent among them.
pub const FRAME_EXTENT_TOP: usize = 2;

/// An unsigned 32-bit value read as a signed one of the same bits.
pub open spec fn reinterpreted(value: u32) -> int {
    if value <= i32::MAX {
        value as int
    } else {
        value - 0x1_0000_0000
    }
}

/// The top extent among the values of the property, or `None` where the
/// property is not yet complete.
pub fn query_frame_top(values: &Vec<u32>) -> (r: Option<i32>)
    ensures
        values@.len() >= FRAME_EXTENT_COUNT ==> r == Some(
            reinterpreted(values@[FRAME_EXTENT_TOP as int]) as i32,
        ),
        values@.len() < FRAME_EXTENT_COUNT ==> r is None,
{
    if values.len() >= FRAME_EXTENT_COUNT {
        let top = values[FRAME_EXTENT_TOP];
        if top <= 0x7fff_ffff {
            Some(top as i32)
        } else {
            Some((top as i64 - 0x1_0000_0000) as i32)
        }
    } else {
        None
    }
}

/// Whether taking `frame_top` off the row of `position` stays within the
/// range of a coordinate.
pub open spec fn extent_fits(position: Option<IVec2>, frame_top: Option<i32>) -> bool {
    match (position, frame_top) {
        (Some(pos), Some(top)) => i32::MIN <= pos.y - top <= i32::MAX,
        _ => true,
    }
}

/// The target with the top extent taken off its position, where both are known.
pub open spec fn compensated_target(target: TargetPosition, frame_top: Option<i32>) -> TargetPosition {
    match (target.position, frame_top) {
        (Some(pos), Some(top)) => TargetPosition {
            position: Some(IVec2 { x: pos.x, y: (pos.y - top) as i32 }),
            ..target
        },
        _ => target,
    }
}

/// Compensate the target position for the frame extents.
///
/// Returns whether the matter is settled: `true` once the position is
/// compensated, and at once where there is no position to compensate;
/// `false` while the extents are not known, to be tried again in the next
/// frame.
pub fn compensate_target_position(target: &mut TargetPosition, frame_top: Option<i32>) -> (settled:
    bool)
    requires
        extent_fits(old(target).position, frame_top),
    ensures
        *final(target) == compensated_target(*old(target), frame_top),
        settled == (old(target).position is None || frame_top is Some),
{
    let pos = match target.position {
        Some(pos) => pos,
        None => {
            return true;
        },
    };
    let top = match frame_top {
        Some(top) => top,
        None => {
            return false;
        },
    };
    target.position = Some(IVec2::new(pos.x, pos.y - top));
    true
}

} // verus!
