//! Keeps the restored size when the window is dragged back to the monitor it
//! started on.
//!
//! After a restore from a higher to a lower scale the window has the right
//! size. The window system, however, remembers one size for each scale, and for
//! the starting scale it remembers the size the window had before it moved.
//! When the user drags the window back, that remembered size replaces the
//! restored one. The protection watches for the scale to change back, waits
//! until the wrong size has arrived, and then sets the right size again. A
//! size that is neither the restored one nor the remembered one means that the
//! user has resized the window: the protection then ends without a correction.

use vstd::prelude::*;

use crate::scale::rescale_length;
use crate::scale::scale_length;
use crate::scale::SCALE_FACTOR_EPSILON;
use crate::types::UVec2;
use crate::window_ext::Window;

verus! {

/// How far two lengths may differ and still count as the same size.
pub const SIZE_TOLERANCE: u32 = 2;

/// State of the drag-back correction process.
#[derive(Clone, Copy, Debug, PartialEq, Eq, Structural)]
pub enum CorrectionState {
    /// Waiting for user to drag back to launch monitor
    WaitingForDragBack,
    /// Drag-back detected, waiting for the window system to apply the wrong size
    PendingCorrection {
        /// The correct size to apply (scaled up from `restored_scale` to `launch_scale`)
        corrected_size: UVec2,
        /// The wrong size that the window system will apply
        wrong_cached_size: UVec2,
    },
}

/// Tracks the expected size after a restore from a higher to a lower scale.
#[derive(Clone, Copy, Debug, PartialEq, Eq, Structural)]
pub struct DragBackSizeProtection {
    /// The correct physical size at the restored scale
    pub expected_physical_size: UVec2,
    /// The scale factor of the launch monitor
    pub launch_scale: u32,
    /// The scale factor we restored to (target monitor)
    pub restored_scale: u32,
    /// The size the window had at `launch_scale` before it moved
    pub phase1_cached_size: UVec2,
    /// Current state of the correction process
    pub state: CorrectionState,
}

/// Whether two scale factors are further apart than [`SCALE_FACTOR_EPSILON`].
pub open spec fn scales_apart(a: u32, b: u32) -> bool {
    a - b > SCALE_FACTOR_EPSILON || b - a > SCALE_FACTOR_EPSILON
}

/// Whether two sizes differ by no more than [`SIZE_TOLERANCE`] in each direction.
pub open spec fn sizes_close(a: UVec2, b: UVec2) -> bool {
    &&& a.x - b.x <= SIZE_TOLERANCE
    &&& b.x - a.x <= SIZE_TOLERANCE
    &&& a.y - b.y <= SIZE_TOLERANCE
    &&& b.y - a.y <= SIZE_TOLERANCE
}

fn far_apart(a: u32, b: u32) -> (r: bool)
    ensures
        r == scales_apart(a, b),
{
    if a >= b {
        a - b > SCALE_FACTOR_EPSILON
    } else {
        b - a > SCALE_FACTOR_EPSILON
    }
}

fn close_to(a: UVec2, b: UVec2) -> (r: bool)
    ensures
        r == sizes_close(a, b),
{
    within_tolerance(a.x, b.x) && within_tolerance(a.y, b.y)
}

fn within_tolerance(a: u32, b: u32) -> (r: bool)
    ensures
        r == (a - b <= SIZE_TOLERANCE && b - a <= SIZE_TOLERANCE),
{
    if a >= b {
        a - b <= SIZE_TOLERANCE
    } else {
        b - a <= SIZE_TOLERANCE
    }
}

impl DragBackSizeProtection {
    /// Whether a window of size `size` at scale `scale`, seen after a resize,
    /// shows that the user has resized the window.
    ///
    /// While the drag back is awaited this is judged only at the restored
    /// scale, where the window has the expected size until the user changes
    /// it.
    pub open spec fn shows_user_resize(self, size: UVec2, scale: u32) -> bool {
        let known = size == self.expected_physical_size;
        match self.state {
            CorrectionState::WaitingForDragBack => {
                &&& !scales_apart(scale, self.restored_scale)
                &&& !known
                &&& !sizes_close(size, self.phase1_cached_size)
            },
            CorrectionState::PendingCorrection { corrected_size, wrong_cached_size } => {
                !known && !sizes_close(size, wrong_cached_size)
            },
        }
    }

    /// The size that is right at the launch scale: the expected size carried
    /// from the restored scale to the launch scale.
    pub open spec fn corrected_size(self) -> UVec2 {
        UVec2 {
            x: rescale_length(self.expected_physical_size.x, self.launch_scale, self.restored_scale) as u32,
            y: rescale_length(self.expected_physical_size.y, self.launch_scale, self.restored_scale) as u32,
        }
    }

    /// The protection after a frame in which the scale changed to `new_scale`,
    /// or did not change.
    pub open spec fn after_scale_change(self, new_scale: Option<u32>) -> DragBackSizeProtection {
        match new_scale {
            Some(scale) if self.state is WaitingForDragBack && !scales_apart(
                scale,
                self.launch_scale,
            ) => DragBackSizeProtection {
                state: CorrectionState::PendingCorrection {
                    corrected_size: self.corrected_size(),
                    wrong_cached_size: self.phase1_cached_size,
                },
                ..self
            },
            _ => self,
        }
    }

    /// The window after a frame of a pending correction: with the corrected
    /// size where the correction is due, and as it was where it is not.
    pub open spec fn after_correction(self, window: Window, resized: bool) -> Window {
        match self.state {
            CorrectionState::PendingCorrection { corrected_size, wrong_cached_size } => {
                if self.correction_due(window.spec_physical_size(), resized) {
                    window.with_size(corrected_size.x, corrected_size.y)
                } else {
                    window
                }
            },
            CorrectionState::WaitingForDragBack => window,
        }
    }

    /// Whether the wrong size has arrived and the correction is due.
    pub open spec fn correction_due(self, size: UVec2, resized: bool) -> bool {
        match self.state {
            CorrectionState::PendingCorrection { corrected_size, wrong_cached_size } => resized
                && sizes_close(size, wrong_cached_size),
            CorrectionState::WaitingForDragBack => false,
        }
    }
}

/// Detect user manual resize.
///
/// Returns `true` where the protection is to be removed: the window was
/// resized in this frame to a size that is neither the expected size nor the
/// size the window system is known to bring back.
pub fn detect_user_resize(
    protection: &DragBackSizeProtection,
    window: &Window,
    resized: bool,
) -> (remove: bool)
    ensures
        remove == (resized && protection.shows_user_resize(
            window.spec_physical_size(),
            window.scale_factor,
        )),
{
    if !resized {
        return false;
    }
    let current_size = UVec2::new(window.physical_width, window.physical_height);
    let known = current_size == protection.expected_physical_size;
    match protection.state {
        CorrectionState::WaitingForDragBack => {
            // Only a resize seen on the restored monitor is the user's.
            if far_apart(window.scale_factor, protection.restored_scale) {
                return false;
            }
            !known && !close_to(current_size, protection.phase1_cached_size)
        },
        CorrectionState::PendingCorrection { corrected_size: _, wrong_cached_size } => {
            !known && !close_to(current_size, wrong_cached_size)
        },
    }
}

/// Handle scale change when dragging back to launch monitor.
///
/// When the scale changes to the launch scale while the drag back is awaited,
/// the correction becomes pending. It is not applied at once: the window
/// system would overwrite it with the size it remembers.
pub fn handle_drag_back_scale_change(
    protection: &mut DragBackSizeProtection,
    new_scale: Option<u32>,
)
    ensures
        *final(protection) == old(protection).after_scale_change(new_scale),
{
    match protection.state {
        CorrectionState::WaitingForDragBack => {},
        _ => {
            return ;
        },
    }
    let scale = match new_scale {
        Some(scale) => scale,
        None => {
            return ;
        },
    };
    if far_apart(scale, protection.launch_scale) {
        return ;
    }
    let corrected_size = UVec2::new(
        scale_length(
            protection.expected_physical_size.x,
            protection.launch_scale,
            protection.restored_scale,
        ),
        scale_length(
            protection.expected_physical_size.y,
            protection.launch_scale,
            protection.restored_scale,
        ),
    );
    protection.state = CorrectionState::PendingCorrection {
        corrected_size,
        wrong_cached_size: protection.phase1_cached_size,
    };
}

/// Apply pending correction after the window system has applied the wrong size.
///
/// Returns `true` where the correction was made and the protection is to be
/// removed; the window then has the corrected size. Otherwise the window is
/// left as it is.
pub fn apply_pending_correction(
    protection: &DragBackSizeProtection,
    window: &mut Window,
    resized: bool,
) -> (corrected: bool)
    ensures
        corrected == protection.correction_due(old(window).spec_physical_size(), resized),
        *final(window) == protection.after_correction(*old(window), resized),
{
    match protection.state {
        CorrectionState::PendingCorrection { corrected_size, wrong_cached_size } => {
            if !resized {
                return false;
            }
            let current_size = UVec2::new(window.physical_width, window.physical_height);
            if !close_to(current_size, wrong_cached_size) {
                return false;
            }
            window.set_physical_resolution(corrected_size.x, corrected_size.y);
            true
        },
        CorrectionState::WaitingForDragBack => false,
    }
}

} // verus!
