//! The steps of restoring and saving, one function for each.
//!
//! A restore begins when the saved state is turned into a [`TargetPosition`]
//! and ends when [`restore_primary_window`] reports it complete. While it is
//! in progress nothing is saved: the window passes through sizes and
//! positions that are not the user's.
//!
//! A window is held within its target monitor when the target is computed:
//! its position is moved until nothing reaches over the right or bottom edge,
//! then brought up to the left and top edge. The size stays as saved, but
//! for a window that would then lie over two monitors of different scale:
//! that one is cut to its monitor. Where window positions cannot be read
//! back the saved geometry is taken as it is.

use vstd::prelude::*;

use crate::macos_drag_back_fix::CorrectionState;
use crate::macos_drag_back_fix::DragBackSizeProtection;
use crate::monitors::is_first_containing;
use crate::monitors::nearest_index;
use crate::monitors::none_contains;
use crate::monitors::CurrentMonitor;
use crate::monitors::MonitorInfo;
use crate::monitors::Monitors;
use crate::scale::same_scale;
use crate::scale::scales_match;
use crate::scale::SCALE_UNIT;
use crate::types::FullscreenRestoreState;
use crate::types::HostOs;
use crate::types::IVec2;
use crate::types::MonitorScaleStrategy;
use crate::types::MonitorSelection;
use crate::types::Platform;
use crate::types::SavedWindowMode;
use crate::types::TargetPosition;
use crate::types::UVec2;
use crate::types::VideoMode;
use crate::types::WindowDecoration;
use crate::types::WindowMode;
use crate::types::WindowRestoreState;
use crate::types::WindowState;
use crate::types::Workarounds;
use crate::types::WinitInfo;
use crate::window_ext::Window;
use crate::window_ext::WindowExt;
use crate::window_ext::WindowPosition;

verus! {

/// The content size a window is given while it moves to the monitor on which
/// it will take its real size.
pub const PLACEHOLDER_SIZE: u32 = 1;

/// Result of attempting to apply a window restore.
#[derive(Clone, Copy, Debug, PartialEq, Eq, Structural)]
pub enum RestoreStatus {
    /// Restore completed.
    Complete,
    /// Waiting for conditions to be met.
    Waiting,
}

/// What a frame of the restore has brought.
#[derive(Clone, Copy, Debug, PartialEq, Eq, Structural)]
pub struct RestoreOutcome {
    /// Whether the restore is complete; if so, the target is to be dropped.
    pub status: RestoreStatus,
    /// The protection to set up where the restore has just completed from a
    /// higher to a lower scale.
    pub protection: Option<DragBackSizeProtection>,
}

/// Cached window state for change detection comparison.
#[derive(Clone, Copy, Debug, PartialEq, Eq, Structural)]
pub struct CachedWindowState {
    pub position: Option<IVec2>,
    pub width: u32,
    pub height: u32,
    pub mode: Option<SavedWindowMode>,
    pub monitor_index: Option<usize>,
}

impl Default for CachedWindowState {
    fn default() -> (r: Self)
        ensures
            r == CachedWindowState::empty(),
    {
        CachedWindowState { position: None, width: 0, height: 0, mode: None, monitor_index: None }
    }
}

impl CachedWindowState {
    /// The cache before anything has been seen.
    pub open spec fn empty() -> CachedWindowState {
        CachedWindowState { position: None, width: 0, height: 0, mode: None, monitor_index: None }
    }
}

/// What a frame of saving has brought.
#[derive(Clone, Debug, PartialEq, Eq)]
pub struct SaveOutcome {
    /// The monitor the window was found on, to be kept beside the window;
    /// `None` where it is not found from the window's position.
    pub current_monitor: Option<CurrentMonitor>,
    /// The state to write, where position, size or mode have changed.
    pub state: Option<WindowState>,
}

/// Whether the environment names a Wayland display: the variable is set and
/// not empty.
pub open spec fn names_display(wayland_display: Option<&str>) -> bool {
    match wayland_display {
        Some(name) => name@.len() > 0,
        None => false,
    }
}

/// Whether the application runs under Wayland: on Linux, with a Wayland
/// display named in the environment.
pub fn is_wayland(host: HostOs, wayland_display: Option<&str>) -> (r: bool)
    ensures
        r == (host is Linux && names_display(wayland_display)),
{
    match host {
        HostOs::Linux => match wayland_display {
            Some(name) => !name.is_empty(),
            None => false,
        },
        _ => false,
    }
}

/// The windowing system that `host` and the environment stand for.
pub fn detect_platform(host: HostOs, wayland_display: Option<&str>) -> (r: Platform)
    ensures
        r == match host {
            HostOs::Windows => Platform::Windows,
            HostOs::MacOs => Platform::MacOs,
            HostOs::Linux => if names_display(wayland_display) {
                Platform::Wayland
            } else {
                Platform::X11
            },
        },
{
    match host {
        HostOs::Windows => Platform::Windows,
        HostOs::MacOs => Platform::MacOs,
        HostOs::Linux => if is_wayland(host, wayland_display) {
            Platform::Wayland
        } else {
            Platform::X11
        },
    }
}

/// The strategy for a window that starts on a monitor of scale `starting`
/// and is restored to one of scale `target`.
pub open spec fn strategy_for(
    starting: u32,
    target: u32,
    platform: Platform,
    workarounds: Workarounds,
) -> MonitorScaleStrategy {
    if platform is Wayland {
        MonitorScaleStrategy::ApplyUnchanged
    } else if scales_match(starting, target) {
        MonitorScaleStrategy::ApplyUnchanged
    } else if platform is Windows {
        MonitorScaleStrategy::CompensateSizeOnly
    } else if !workarounds.scale_compensation {
        MonitorScaleStrategy::ApplyUnchanged
    } else if starting < target {
        MonitorScaleStrategy::LowerToHigher
    } else {
        MonitorScaleStrategy::HigherToLower(WindowRestoreState::WaitingForScaleChange)
    }
}

/// Determine the monitor scale strategy based on platform and scale factors.
///
/// Under Wayland neither the starting monitor nor the position is known, so
/// nothing is compensated. Elsewhere equal scales need no compensation; on
/// Windows only the size needs it; on the other platforms position and size
/// do, in one step toward a higher scale and in two toward a lower one,
/// unless that compensation is switched off.
pub fn determine_scale_strategy(
    starting_scale: u32,
    target_scale: u32,
    platform: Platform,
    workarounds: Workarounds,
) -> (r: MonitorScaleStrategy)
    ensures
        r == strategy_for(starting_scale, target_scale, platform, workarounds),
{
    match platform {
        Platform::Wayland => MonitorScaleStrategy::ApplyUnchanged,
        Platform::Windows => if same_scale(starting_scale, target_scale) {
            MonitorScaleStrategy::ApplyUnchanged
        } else {
            MonitorScaleStrategy::CompensateSizeOnly
        },
        _ => if same_scale(starting_scale, target_scale) || !workarounds.scale_compensation {
            MonitorScaleStrategy::ApplyUnchanged
        } else if starting_scale < target_scale {
            MonitorScaleStrategy::LowerToHigher
        } else {
            MonitorScaleStrategy::HigherToLower(WindowRestoreState::WaitingForScaleChange)
        },
    }
}

/// Where positions can be read and scales are compensated, no compensation is
/// chosen exactly when the two scales differ by less than the epsilon.
pub proof fn lemma_unchanged_iff_scales_match(
    starting: u32,
    target: u32,
    platform: Platform,
    workarounds: Workarounds,
)
    requires
        !(platform is Wayland),
        platform is Windows || workarounds.scale_compensation,
    ensures
        strategy_for(starting, target, platform, workarounds) is ApplyUnchanged <==> scales_match(
            starting,
            target,
        ),
{
}

/// A coordinate held within a monitor: `at` where a span of `length` from it
/// ends within `low + extent`, else as far back as brings the end to that
/// edge, and never before `low`.
pub open spec fn clamp_axis(at: int, low: int, extent: int, length: int) -> int {
    vstd::math::max(low, vstd::math::min(at, low + extent - length))
}

/// The position at which a window of content size `size` with decoration
/// `decoration` lies within `monitor`, as near to `position` as can be.
pub open spec fn clamped_position(
    position: IVec2,
    size: UVec2,
    decoration: UVec2,
    monitor: MonitorInfo,
) -> IVec2 {
    IVec2 {
        x: clamp_axis(
            position.x as int,
            monitor.position.x as int,
            monitor.size.x as int,
            size.x + decoration.x,
        ) as i32,
        y: clamp_axis(
            position.y as int,
            monitor.position.y as int,
            monitor.size.y as int,
            size.y + decoration.y,
        ) as i32,
    }
}

/// The length to which a span of `length` and its decoration are cut so that
/// both find room in `extent`: `length` itself where they do, and also where
/// the decoration leaves no room at all, since no cut would help.
pub open spec fn fitted_length(length: u32, decoration: u32, extent: u32) -> u32 {
    if length + decoration <= extent {
        length
    } else if decoration < extent {
        (extent - decoration) as u32
    } else {
        length
    }
}

/// The content size at which a window with decoration `decoration` finds room
/// on `monitor`, as near to `size` as can be.
pub open spec fn fitted_size(size: UVec2, decoration: UVec2, monitor: MonitorInfo) -> UVec2 {
    UVec2 {
        x: fitted_length(size.x, decoration.x, monitor.size.x),
        y: fitted_length(size.y, decoration.y, monitor.size.y),
    }
}

/// Whether a window at `position` of content size `size` with decoration
/// `decoration` lies on `monitor` with all that it has.
pub open spec fn lies_within(
    position: IVec2,
    size: UVec2,
    decoration: UVec2,
    monitor: MonitorInfo,
) -> bool {
    &&& monitor.position.x <= position.x
    &&& position.x + size.x + decoration.x <= monitor.right()
    &&& monitor.position.y <= position.y
    &&& position.y + size.y + decoration.y <= monitor.bottom()
}

/// A window that is fitted to a monitor and then held within it lies on that
/// monitor with all that it has, provided the monitor has room for the
/// decoration.
pub proof fn lemma_clamped_lies_within(
    position: IVec2,
    size: UVec2,
    decoration: UVec2,
    monitor: MonitorInfo,
)
    requires
        decoration.x < monitor.size.x,
        decoration.y < monitor.size.y,
    ensures
        lies_within(
            clamped_position(position, fitted_size(size, decoration, monitor), decoration, monitor),
            fitted_size(size, decoration, monitor),
            decoration,
            monitor,
        ),
{
}

/// A window that lies on a monitor with all that it has is left as it is when
/// it is fitted to that monitor and held within it.
pub proof fn lemma_window_within_is_kept(
    position: IVec2,
    size: UVec2,
    decoration: UVec2,
    monitor: MonitorInfo,
)
    requires
        lies_within(position, size, decoration, monitor),
    ensures
        fitted_size(size, decoration, monitor) == size,
        clamped_position(position, size, decoration, monitor) == position,
{
}

/// A span that fits in the monitor and would end beyond its far edge is moved
/// back so that it ends at that edge, and does not begin before the near edge.
pub proof fn lemma_clamp_meets_far_edge(at: int, low: int, extent: int, length: int)
    requires
        at + length > low + extent,
        length <= extent,
    ensures
        clamp_axis(at, low, extent, length) + length == low + extent,
        clamp_axis(at, low, extent, length) >= low,
{
}

fn clamp_coordinate(at: i32, low: i32, extent: u32, length: u32, decoration: u32) -> (r: i32)
    ensures
        r == clamp_axis(at as int, low as int, extent as int, length + decoration),
{
    let high: i64 = low as i64 + extent as i64 - (length as i64 + decoration as i64);
    let pulled: i64 = if (at as i64) < high {
        at as i64
    } else {
        high
    };
    if pulled < low as i64 {
        low
    } else {
        pulled as i32
    }
}

fn fit_length(length: u32, decoration: u32, extent: u32) -> (r: u32)
    ensures
        r == fitted_length(length, decoration, extent),
{
    if length as u64 + decoration as u64 <= extent as u64 {
        length
    } else if decoration < extent {
        extent - decoration
    } else {
        length
    }
}

/// Cut the content size of a window so that the window, decoration and all,
/// finds room on a monitor.
pub fn fit_to_monitor(size: UVec2, decoration: UVec2, monitor: &MonitorInfo) -> (r: UVec2)
    ensures
        r == fitted_size(size, decoration, *monitor),
{
    UVec2::new(
        fit_length(size.x, decoration.x, monitor.size.x),
        fit_length(size.y, decoration.y, monitor.size.y),
    )
}

/// Hold a window within a monitor.
///
/// Each coordinate is first taken back by what the window, decoration
/// included, reaches beyond the right or bottom edge, and then brought up to
/// the left or top edge where it lies before it.
pub fn clamp_to_monitor(
    position: IVec2,
    size: UVec2,
    decoration: UVec2,
    monitor: &MonitorInfo,
) -> (r: IVec2)
    ensures
        r == clamped_position(position, size, decoration, *monitor),
{
    IVec2::new(
        clamp_coordinate(position.x, monitor.position.x, monitor.size.x, size.x, decoration.x),
        clamp_coordinate(position.y, monitor.position.y, monitor.size.y, size.y, decoration.y),
    )
}

/// The decoration of a window whose outer size is `outer` and whose content
/// size is `inner`.
pub open spec fn decoration_between(outer: UVec2, inner: UVec2) -> WindowDecoration {
    WindowDecoration {
        width: if outer.x >= inner.x {
            (outer.x - inner.x) as u32
        } else {
            0
        },
        height: if outer.y >= inner.y {
            (outer.y - inner.y) as u32
        } else {
            0
        },
    }
}

/// Record what is known of the window at startup: its decoration and the
/// monitor it starts on.
///
/// The starting monitor is the one nearest to the window's outer position,
/// and to the origin where that position is not known.
pub fn init_winit_info(
    outer_size: UVec2,
    inner_size: UVec2,
    outer_position: Option<IVec2>,
    monitors: &Monitors,
) -> (r: (WinitInfo, CurrentMonitor))
    requires
        monitors@.len() > 0,
    ensures
        r.0.window_decoration == decoration_between(outer_size, inner_size),
        r.0.starting_monitor_index == match outer_position {
            Some(pos) => nearest_index(monitors@, pos.x as int, pos.y as int),
            None => nearest_index(monitors@, 0, 0),
        },
        r.1 == CurrentMonitor(monitors@[r.0.starting_monitor_index as int]),
{
    let decoration = WindowDecoration {
        width: outer_size.x.saturating_sub(inner_size.x),
        height: outer_size.y.saturating_sub(inner_size.y),
    };
    let pos = match outer_position {
        Some(pos) => pos,
        None => IVec2::new(0, 0),
    };
    let starting_monitor = monitors.closest_to(pos.x, pos.y);
    (
        WinitInfo {
            starting_monitor_index: starting_monitor.index,
            window_decoration: decoration,
        },
        CurrentMonitor(*starting_monitor),
    )
}

/// The scale of the monitor the window starts on; the unit scale where that
/// monitor is not in the list.
pub open spec fn starting_scale_of(monitors: Seq<MonitorInfo>, winit_info: WinitInfo) -> u32 {
    if winit_info.starting_monitor_index < monitors.len() {
        monitors[winit_info.starting_monitor_index as int].scale
    } else {
        SCALE_UNIT
    }
}

/// The mode to restore where the saved monitor offers `video_modes`: the
/// saved mode, but exclusive fullscreen in the monitor's current video mode
/// where the saved video mode is no longer offered.
pub open spec fn resolved_mode(mode: SavedWindowMode, video_modes: Seq<VideoMode>) -> SavedWindowMode {
    match mode {
        SavedWindowMode::Fullscreen { video_mode: Some(saved) } => {
            if video_modes.contains(saved.video_mode()) {
                mode
            } else {
                SavedWindowMode::Fullscreen { video_mode: None }
            }
        },
        _ => mode,
    }
}

/// Settle the video mode of an exclusive fullscreen.
///
/// A saved video mode is kept where `video_modes`, the modes that the
/// monitor offers, holds it exactly. Where it does not, the monitor's
/// current mode stands in for it.
pub fn resolve_video_mode(mode: SavedWindowMode, video_modes: &Vec<VideoMode>) -> (r:
    SavedWindowMode)
    ensures
        r == resolved_mode(mode, video_modes@),
{
    match mode {
        SavedWindowMode::Fullscreen { video_mode: Some(saved) } => {
            let wanted = saved.to_video_mode();
            let mut i: usize = 0;
            while i < video_modes.len()
                invariant
                    i <= video_modes@.len(),
                    wanted == saved.video_mode(),
                    mode == (SavedWindowMode::Fullscreen { video_mode: Some(saved) }),
                    forall|j: int| 0 <= j < i ==> video_modes@[j] != wanted,
                decreases video_modes@.len() - i,
            {
                if video_modes[i] == wanted {
                    assert(video_modes@[i as int] == saved.video_mode());
                    return mode;
                }
                i += 1;
            }
            SavedWindowMode::Fullscreen { video_mode: None }
        },
        _ => mode,
    }
}

/// Whether the saved geometry is held within the saved monitor: wherever
/// there is a position and positions can be read back.
pub open spec fn clamps(state: WindowState, platform: Platform) -> bool {
    state.position is Some && !(platform is Wayland)
}

/// Whether `monitor` has another scale than `scale` and lies, with some
/// pixel, under a window at `position` of content size `size` with decoration
/// `decoration`.
pub open spec fn is_other_scale_under(
    monitor: MonitorInfo,
    position: IVec2,
    size: UVec2,
    decoration: UVec2,
    scale: u32,
) -> bool {
    &&& monitor.scale != scale
    &&& monitor.overlaps(
        position.x as int,
        position.y as int,
        position.x + size.x + decoration.x,
        position.y + size.y + decoration.y,
    )
}

/// Whether a window at `position` of content size `size` with decoration
/// `decoration` lies over a monitor whose scale is not `scale`.
pub open spec fn reaches_other_scale(
    monitors: Seq<MonitorInfo>,
    position: IVec2,
    size: UVec2,
    decoration: UVec2,
    scale: u32,
) -> bool {
    exists|i: int|
        0 <= i < monitors.len() && is_other_scale_under(
            #[trigger] monitors[i],
            position,
            size,
            decoration,
            scale,
        )
}

fn is_under(
    monitor: &MonitorInfo,
    position: IVec2,
    size: UVec2,
    decoration: UVec2,
    scale: u32,
) -> (r: bool)
    ensures
        r == is_other_scale_under(*monitor, position, size, decoration, scale),
{
    let left = position.x as i64;
    let top = position.y as i64;
    let right = left + size.x as i64 + decoration.x as i64;
    let bottom = top + size.y as i64 + decoration.y as i64;
    let monitor_left = monitor.position.x as i64;
    let monitor_top = monitor.position.y as i64;
    let monitor_right = monitor_left + monitor.size.x as i64;
    let monitor_bottom = monitor_top + monitor.size.y as i64;
    let from_x = if monitor_left > left {
        monitor_left
    } else {
        left
    };
    let to_x = if monitor_right < right {
        monitor_right
    } else {
        right
    };
    let from_y = if monitor_top > top {
        monitor_top
    } else {
        top
    };
    let to_y = if monitor_bottom < bottom {
        monitor_bottom
    } else {
        bottom
    };
    monitor.scale != scale && from_x < to_x && from_y < to_y
}

/// Tell whether a window lies over a monitor of another scale than `scale`.
pub fn straddles_scales(
    monitors: &Monitors,
    position: IVec2,
    size: UVec2,
    decoration: UVec2,
    scale: u32,
) -> (r: bool)
    ensures
        r == reaches_other_scale(monitors@, position, size, decoration, scale),
{
    let mut i: usize = 0;
    while i < monitors.len()
        invariant
            i <= monitors@.len(),
            forall|j: int|
                0 <= j < i ==> !is_other_scale_under(
                    #[trigger] monitors@[j],
                    position,
                    size,
                    decoration,
                    scale,
                ),
        decreases monitors@.len() - i,
    {
        match monitors.by_index(i) {
            Some(monitor) => {
                if is_under(monitor, position, size, decoration, scale) {
                    return true;
                }
            },
            None => {},
        }
        i += 1;
    }
    false
}

/// Where the window that `state` describes comes to lie on the monitor
/// `target_info`: at the saved position held within the monitor, and at the
/// saved position itself where positions cannot be read back.
pub open spec fn target_position(
    state: WindowState,
    decoration: UVec2,
    target_info: MonitorInfo,
    platform: Platform,
) -> Option<IVec2> {
    match state.position {
        Some((x, y)) => Some(
            if platform is Wayland {
                IVec2 { x, y }
            } else {
                clamped_position(
                    IVec2 { x, y },
                    UVec2 { x: state.width, y: state.height },
                    decoration,
                    target_info,
                )
            },
        ),
        None => None,
    }
}

/// Whether the size of the window that `state` describes is cut to the
/// monitor `target_info`: where the window, held within that monitor at its
/// saved size, would still lie over a monitor of another scale.
pub open spec fn cuts_size(
    state: WindowState,
    monitors: Seq<MonitorInfo>,
    decoration: UVec2,
    target_info: MonitorInfo,
    platform: Platform,
) -> bool {
    &&& clamps(state, platform)
    &&& reaches_other_scale(
        monitors,
        target_position(state, decoration, target_info, platform).unwrap(),
        UVec2 { x: state.width, y: state.height },
        decoration,
        target_info.scale,
    )
}

/// The target of restoring `state`, or `None` where the saved monitor is no
/// longer there.
///
/// The target has the saved size. Only a window that would lie over two
/// monitors of different scale is cut to the saved monitor.
pub open spec fn target_for(
    state: WindowState,
    monitors: Seq<MonitorInfo>,
    winit_info: WinitInfo,
    platform: Platform,
    workarounds: Workarounds,
    video_modes: Seq<VideoMode>,
) -> Option<TargetPosition> {
    if state.monitor_index >= monitors.len() {
        None
    } else {
        let target_info = monitors[state.monitor_index as int];
        let starting_scale = starting_scale_of(monitors, winit_info);
        let decoration = UVec2 {
            x: winit_info.window_decoration.width,
            y: winit_info.window_decoration.height,
        };
        let saved_size = UVec2 { x: state.width, y: state.height };
        let size = if cuts_size(state, monitors, decoration, target_info, platform) {
            fitted_size(saved_size, decoration, target_info)
        } else {
            saved_size
        };
        Some(
            TargetPosition {
                position: target_position(state, decoration, target_info, platform),
                width: size.x,
                height: size.y,
                target_scale: target_info.scale,
                starting_scale,
                monitor_scale_strategy: strategy_for(
                    starting_scale,
                    target_info.scale,
                    platform,
                    workarounds,
                ),
                mode: resolved_mode(state.mode, video_modes),
                target_monitor_index: state.monitor_index,
                fullscreen_restore_state: if platform is Windows && workarounds.deferred_fullscreen {
                    FullscreenRestoreState::WaitingForSurface
                } else {
                    FullscreenRestoreState::ApplyFullscreen
                },
            },
        )
    }
}

/// The target has the saved size wherever the window as saved, held within
/// the saved monitor, lies over no monitor of another scale; and always
/// where positions cannot be read back or none was saved.
pub proof fn lemma_target_keeps_saved_size(
    state: WindowState,
    monitors: Seq<MonitorInfo>,
    winit_info: WinitInfo,
    platform: Platform,
    workarounds: Workarounds,
    video_modes: Seq<VideoMode>,
)
    requires
        state.monitor_index < monitors.len(),
        !cuts_size(
            state,
            monitors,
            UVec2 {
                x: winit_info.window_decoration.width,
                y: winit_info.window_decoration.height,
            },
            monitors[state.monitor_index as int],
            platform,
        ),
    ensures
        ({
            let target = target_for(
                state,
                monitors,
                winit_info,
                platform,
                workarounds,
                video_modes,
            ).unwrap();
            target.width == state.width && target.height == state.height
        }),
{
}

/// The target never lies over two monitors of different scale: wherever the
/// saved geometry is held within the saved monitor, the target lies on that
/// monitor with all that it has, or over no monitor of another scale. This
/// asks that the monitor has room for the decoration. The position of the
/// target is that of the window at its saved size, cut or not.
pub proof fn lemma_target_keeps_to_one_scale(
    state: WindowState,
    monitors: Seq<MonitorInfo>,
    winit_info: WinitInfo,
    platform: Platform,
    workarounds: Workarounds,
    video_modes: Seq<VideoMode>,
)
    requires
        state.monitor_index < monitors.len(),
        clamps(state, platform),
        winit_info.window_decoration.width < monitors[state.monitor_index as int].size.x,
        winit_info.window_decoration.height < monitors[state.monitor_index as int].size.y,
    ensures
        ({
            let target = target_for(
                state,
                monitors,
                winit_info,
                platform,
                workarounds,
                video_modes,
            ).unwrap();
            let decoration = UVec2 {
                x: winit_info.window_decoration.width,
                y: winit_info.window_decoration.height,
            };
            let monitor = monitors[state.monitor_index as int];
            &&& target.position == Some(
                clamped_position(
                    IVec2 { x: state.position.unwrap().0, y: state.position.unwrap().1 },
                    target.spec_size(),
                    decoration,
                    monitor,
                ),
            )
            &&& lies_within(target.position.unwrap(), target.spec_size(), decoration, monitor)
                || !reaches_other_scale(
                monitors,
                target.position.unwrap(),
                target.spec_size(),
                decoration,
                monitor.scale,
            )
        }),
{
}

/// Turn the saved window state into the target of a restore.
///
/// There is no target, and so no restore, where nothing was saved or where
/// the saved monitor is no longer connected. A saved state without a position
/// still restores size and mode. `video_modes` are the video modes that the
/// saved monitor offers.
pub fn load_target_position(
    state: Option<&WindowState>,
    monitors: &Monitors,
    winit_info: &WinitInfo,
    platform: Platform,
    workarounds: Workarounds,
    video_modes: &Vec<VideoMode>,
) -> (r: Option<TargetPosition>)
    ensures
        r == match state {
            Some(saved) => target_for(
                *saved,
                monitors@,
                *winit_info,
                platform,
                workarounds,
                video_modes@,
            ),
            None => None,
        },
{
    let state = match state {
        Some(state) => state,
        None => {
            return None;
        },
    };
    let starting_scale = match monitors.by_index(winit_info.starting_monitor_index) {
        Some(info) => info.scale,
        None => SCALE_UNIT,
    };
    let target_info = match monitors.by_index(state.monitor_index) {
        Some(info) => info,
        None => {
            return None;
        },
    };
    let target_scale = target_info.scale;
    let decoration = winit_info.decoration();
    let strategy = determine_scale_strategy(starting_scale, target_scale, platform, workarounds);
    let on_wayland = match platform {
        Platform::Wayland => true,
        _ => false,
    };
    let saved_size = UVec2::new(state.width, state.height);
    let position = match state.position {
        Some((saved_x, saved_y)) => Some(
            if on_wayland {
                IVec2::new(saved_x, saved_y)
            } else {
                clamp_to_monitor(IVec2::new(saved_x, saved_y), saved_size, decoration, target_info)
            },
        ),
        None => None,
    };
    let size = match position {
        Some(held) => {
            if !on_wayland && straddles_scales(
                monitors,
                held,
                saved_size,
                decoration,
                target_scale,
            ) {
                fit_to_monitor(saved_size, decoration, target_info)
            } else {
                saved_size
            }
        },
        None => saved_size,
    };
    let on_windows = match platform {
        Platform::Windows => true,
        _ => false,
    };
    let fullscreen_restore_state = if on_windows && workarounds.deferred_fullscreen {
        FullscreenRestoreState::WaitingForSurface
    } else {
        FullscreenRestoreState::ApplyFullscreen
    };
    Some(
        TargetPosition {
            position,
            width: size.x,
            height: size.y,
            target_scale,
            starting_scale,
            monitor_scale_strategy: strategy,
            mode: resolve_video_mode(state.mode, video_modes),
            target_monitor_index: state.monitor_index,
            fullscreen_restore_state,
        },
    )
}

} // verus!

verus! {

/// The window after the first move of a restore toward `target`.
///
/// A window that is to be fullscreen only moves to the target position. A
/// windowed one without a position takes its size at once. Otherwise it moves
/// at a placeholder size: toward a lower scale to the compensated position and
/// hidden, so that the tiny window is not seen; else to the position itself.
pub open spec fn moved_to_target(window: Window, target: TargetPosition) -> Window {
    if !(target.mode is Windowed) {
        match target.position {
            Some(pos) => window.with_position(pos),
            None => window,
        }
    } else {
        match target.position {
            None => window.with_size(target.width, target.height),
            Some(pos) => match target.monitor_scale_strategy {
                MonitorScaleStrategy::HigherToLower(_) => Window {
                    position: WindowPosition::At(target.spec_compensated_position().unwrap()),
                    physical_width: PLACEHOLDER_SIZE,
                    physical_height: PLACEHOLDER_SIZE,
                    visible: false,
                    ..window
                },
                _ => Window {
                    position: WindowPosition::At(pos),
                    physical_width: PLACEHOLDER_SIZE,
                    physical_height: PLACEHOLDER_SIZE,
                    ..window
                },
            },
        }
    }
}

/// Move window to target monitor, before the first frame.
///
/// For fullscreen modes the window still moves to the target monitor, so
/// that the mode is later applied on the right monitor.
pub fn move_to_target_monitor(window: &mut Window, target: &TargetPosition)
    ensures
        *final(window) == moved_to_target(*old(window), *target),
{
    if target.mode.is_fullscreen() {
        if let Some(pos) = target.position {
            window.position = WindowPosition::At(pos);
        }
        return ;
    }
    let pos = match target.position {
        Some(pos) => pos,
        None => {
            window.set_physical_resolution(target.width, target.height);
            return ;
        },
    };
    match target.monitor_scale_strategy {
        MonitorScaleStrategy::HigherToLower(_) => {
            let compensated = target.compensated_position();
            match compensated {
                Some(compensated) => {
                    window.visible = false;
                    window.position = WindowPosition::At(compensated);
                    window.set_physical_resolution(PLACEHOLDER_SIZE, PLACEHOLDER_SIZE);
                },
                None => {},
            }
        },
        _ => {
            window.position = WindowPosition::At(pos);
            window.set_physical_resolution(PLACEHOLDER_SIZE, PLACEHOLDER_SIZE);
        },
    }
}

/// Whether exclusive fullscreen can be had on `platform`.
pub open spec fn supports_exclusive_fullscreen(platform: Platform) -> bool {
    !(platform is Wayland)
}

/// Tells whether exclusive fullscreen can be had on `platform`.
pub fn has_exclusive_fullscreen(platform: Platform) -> (r: bool)
    ensures
        r == supports_exclusive_fullscreen(platform),
{
    match platform {
        Platform::Wayland => false,
        _ => true,
    }
}

/// The window mode that restores `mode` on the monitor at `monitor_index`:
/// the saved mode on that monitor, and borderless fullscreen in place of an
/// exclusive fullscreen that the platform does not support.
pub open spec fn fullscreen_mode_for(
    mode: SavedWindowMode,
    monitor_index: usize,
    platform: Platform,
) -> WindowMode {
    if mode is Fullscreen && !supports_exclusive_fullscreen(platform) {
        WindowMode::BorderlessFullscreen(MonitorSelection::Index(monitor_index))
    } else {
        mode.window_mode(monitor_index)
    }
}

/// Apply fullscreen mode, with borderless fullscreen standing in for an
/// exclusive fullscreen that the platform does not support.
///
/// Returns whether the saved mode was applied as it is; `false` tells that
/// borderless fullscreen took its place.
pub fn apply_fullscreen_restore(
    target: &TargetPosition,
    primary_window: &mut Window,
    monitor_index: usize,
    platform: Platform,
) -> (as_saved: bool)
    ensures
        *final(primary_window) == (Window {
            mode: fullscreen_mode_for(target.mode, monitor_index, platform),
            ..*old(primary_window)
        }),
        as_saved == !(target.mode is Fullscreen && !supports_exclusive_fullscreen(platform)),
{
    let exclusive = match target.mode {
        SavedWindowMode::Fullscreen { video_mode: _ } => true,
        _ => false,
    };
    let unsupported = exclusive && !has_exclusive_fullscreen(platform);
    if unsupported {
        primary_window.mode = WindowMode::BorderlessFullscreen(
            MonitorSelection::Index(monitor_index),
        );
    } else {
        primary_window.mode = target.mode.to_window_mode(monitor_index);
    }
    !unsupported
}

/// The window with `size`, and at `position` where there is one.
pub open spec fn with_geometry(window: Window, position: Option<IVec2>, size: UVec2) -> Window {
    match position {
        Some(pos) => window.with_position(pos).with_size(size.x, size.y),
        None => window.with_size(size.x, size.y),
    }
}

/// Apply position and/or size to window.
pub fn apply_window_geometry(window: &mut Window, position: Option<IVec2>, size: UVec2)
    ensures
        *final(window) == with_geometry(*old(window), position, size),
{
    match position {
        Some(pos) => {
            window.set_position_and_size(pos, size);
        },
        None => {
            window.set_physical_resolution(size.x, size.y);
        },
    }
}

/// Whether an attempt to apply `target` completes the restore: every attempt
/// does but one that still waits for the scale to change.
pub open spec fn restore_completes(target: TargetPosition) -> bool {
    !(target.mode is Windowed) || target.monitor_scale_strategy
        != MonitorScaleStrategy::HigherToLower(WindowRestoreState::WaitingForScaleChange)
}

/// The window after an attempt to apply `target`.
pub open spec fn restore_applied(target: TargetPosition, window: Window, platform: Platform) -> Window {
    if !(target.mode is Windowed) {
        Window {
            mode: fullscreen_mode_for(target.mode, target.target_monitor_index, platform),
            ..window
        }
    } else {
        match target.monitor_scale_strategy {
            MonitorScaleStrategy::ApplyUnchanged => with_geometry(
                window,
                target.position,
                target.spec_size(),
            ),
            MonitorScaleStrategy::CompensateSizeOnly => with_geometry(
                window,
                target.position,
                target.spec_compensated_size(),
            ),
            MonitorScaleStrategy::LowerToHigher => with_geometry(
                window,
                target.spec_compensated_position(),
                target.spec_compensated_size(),
            ),
            MonitorScaleStrategy::HigherToLower(WindowRestoreState::ApplySize) => Window {
                visible: true,
                ..window.with_size(target.width, target.height)
            },
            MonitorScaleStrategy::HigherToLower(WindowRestoreState::WaitingForScaleChange) => window,
        }
    }
}

/// Try to apply a pending window restore.
///
/// A fullscreen mode is applied on the saved monitor. A windowed target is
/// applied by its strategy: as it is, with the size compensated, or with
/// position and size compensated. Toward a lower scale the window, already in
/// place, takes its real size and is shown again once the scale has changed;
/// until then nothing is done.
pub fn try_apply_restore(
    target: &TargetPosition,
    primary_window: &mut Window,
    platform: Platform,
) -> (r: RestoreStatus)
    ensures
        *final(primary_window) == restore_applied(*target, *old(primary_window), platform),
        r is Complete <==> restore_completes(*target),
{
    if target.mode.is_fullscreen() {
        apply_fullscreen_restore(target, primary_window, target.target_monitor_index, platform);
        return RestoreStatus::Complete;
    }
    match target.monitor_scale_strategy {
        MonitorScaleStrategy::ApplyUnchanged => {
            apply_window_geometry(primary_window, target.position(), target.size());
        },
        MonitorScaleStrategy::CompensateSizeOnly => {
            apply_window_geometry(primary_window, target.position(), target.compensated_size());
        },
        MonitorScaleStrategy::LowerToHigher => {
            apply_window_geometry(
                primary_window,
                target.compensated_position(),
                target.compensated_size(),
            );
        },
        MonitorScaleStrategy::HigherToLower(WindowRestoreState::ApplySize) => {
            let size = target.size();
            primary_window.set_physical_resolution(size.x, size.y);
            primary_window.visible = true;
        },
        MonitorScaleStrategy::HigherToLower(WindowRestoreState::WaitingForScaleChange) => {
            return RestoreStatus::Waiting;
        },
    }
    RestoreStatus::Complete
}

/// The target after the notifications of a frame: a restore that waited for
/// the scale to change goes on to its second step once it has changed.
pub open spec fn advanced_by(target: TargetPosition, scale_changed: bool) -> TargetPosition {
    if scale_changed && target.monitor_scale_strategy == MonitorScaleStrategy::HigherToLower(
        WindowRestoreState::WaitingForScaleChange,
    ) {
        TargetPosition {
            monitor_scale_strategy: MonitorScaleStrategy::HigherToLower(
                WindowRestoreState::ApplySize,
            ),
            ..target
        }
    } else {
        target
    }
}

/// Whether a fullscreen restore lets this frame pass so that the window is
/// drawn once before it goes fullscreen.
pub open spec fn waits_for_surface(
    target: TargetPosition,
    platform: Platform,
    workarounds: Workarounds,
) -> bool {
    &&& platform is Windows
    &&& workarounds.deferred_fullscreen
    &&& !(target.mode is Windowed)
    &&& target.fullscreen_restore_state is WaitingForSurface
}

/// The protection that follows a restore to `target`.
pub open spec fn protection_after(target: TargetPosition) -> DragBackSizeProtection {
    DragBackSizeProtection {
        expected_physical_size: target.spec_size(),
        launch_scale: target.starting_scale,
        restored_scale: target.target_scale,
        phase1_cached_size: UVec2 { x: PLACEHOLDER_SIZE, y: PLACEHOLDER_SIZE },
        state: CorrectionState::WaitingForDragBack,
    }
}

/// Whether a restore to `target`, once complete, is followed by the
/// protection of the restored size.
pub open spec fn protects_after(
    target: TargetPosition,
    platform: Platform,
    workarounds: Workarounds,
) -> bool {
    &&& platform is MacOs
    &&& workarounds.drag_back_protection
    &&& target.monitor_scale_strategy == MonitorScaleStrategy::HigherToLower(
        WindowRestoreState::ApplySize,
    )
}

/// The target after a frame of the restore.
pub open spec fn target_after_frame(
    target: TargetPosition,
    scale_changed: bool,
    platform: Platform,
    workarounds: Workarounds,
) -> TargetPosition {
    let advanced = advanced_by(target, scale_changed);
    if waits_for_surface(advanced, platform, workarounds) {
        TargetPosition {
            fullscreen_restore_state: FullscreenRestoreState::ApplyFullscreen,
            ..advanced
        }
    } else {
        advanced
    }
}

/// The window after a frame of the restore.
pub open spec fn window_after_frame(
    target: TargetPosition,
    window: Window,
    scale_changed: bool,
    platform: Platform,
    workarounds: Workarounds,
) -> Window {
    let advanced = advanced_by(target, scale_changed);
    if waits_for_surface(advanced, platform, workarounds) {
        window
    } else {
        restore_applied(advanced, window, platform)
    }
}

/// What a frame of the restore brings: whether it is complete, and the
/// protection that then follows a restore toward a lower scale.
pub open spec fn outcome_of_frame(
    target: TargetPosition,
    scale_changed: bool,
    platform: Platform,
    workarounds: Workarounds,
) -> RestoreOutcome {
    let advanced = advanced_by(target, scale_changed);
    if waits_for_surface(advanced, platform, workarounds) || !restore_completes(advanced) {
        RestoreOutcome { status: RestoreStatus::Waiting, protection: None }
    } else {
        RestoreOutcome {
            status: RestoreStatus::Complete,
            protection: if protects_after(advanced, platform, workarounds) {
                Some(protection_after(advanced))
            } else {
                None
            },
        }
    }
}

/// Apply pending window restore. Runs once a frame while a target exists.
///
/// `scale_changed` tells whether the window system has reported a change of
/// the window's scale since the last frame. When the outcome says complete,
/// the target has served and is to be dropped.
pub fn restore_primary_window(
    scale_changed: bool,
    target: &mut TargetPosition,
    primary_window: &mut Window,
    platform: Platform,
    workarounds: Workarounds,
) -> (r: RestoreOutcome)
    ensures
        *final(target) == target_after_frame(*old(target), scale_changed, platform, workarounds),
        *final(primary_window) == window_after_frame(
            *old(target),
            *old(primary_window),
            scale_changed,
            platform,
            workarounds,
        ),
        r == outcome_of_frame(*old(target), scale_changed, platform, workarounds),
{
    if scale_changed && target.monitor_scale_strategy == MonitorScaleStrategy::HigherToLower(
        WindowRestoreState::WaitingForScaleChange,
    ) {
        target.monitor_scale_strategy = MonitorScaleStrategy::HigherToLower(
            WindowRestoreState::ApplySize,
        );
    }
    let on_windows = match platform {
        Platform::Windows => true,
        _ => false,
    };
    if on_windows && workarounds.deferred_fullscreen && target.mode.is_fullscreen()
        && target.fullscreen_restore_state == FullscreenRestoreState::WaitingForSurface {
        target.fullscreen_restore_state = FullscreenRestoreState::ApplyFullscreen;
        return RestoreOutcome { status: RestoreStatus::Waiting, protection: None };
    }
    let on_macos = match platform {
        Platform::MacOs => true,
        _ => false,
    };
    let was_higher_to_lower = target.monitor_scale_strategy == MonitorScaleStrategy::HigherToLower(
        WindowRestoreState::ApplySize,
    );
    match try_apply_restore(target, primary_window, platform) {
        RestoreStatus::Complete => {
            let protection = if on_macos && workarounds.drag_back_protection
                && was_higher_to_lower {
                Some(
                    DragBackSizeProtection {
                        expected_physical_size: target.size(),
                        launch_scale: target.starting_scale,
                        restored_scale: target.target_scale,
                        phase1_cached_size: UVec2::new(PLACEHOLDER_SIZE, PLACEHOLDER_SIZE),
                        state: CorrectionState::WaitingForDragBack,
                    },
                )
            } else {
                None
            };
            RestoreOutcome { status: RestoreStatus::Complete, protection }
        },
        RestoreStatus::Waiting => RestoreOutcome { status: RestoreStatus::Waiting, protection: None },
    }
}

} // verus!

verus! {

/// The position a save records: the window's position where it has one.
pub open spec fn observed_position(window: Window) -> Option<IVec2> {
    match window.position {
        WindowPosition::At(pos) => Some(pos),
        _ => None,
    }
}

/// The monitor a save records.
///
/// Under Wayland the window's position says nothing, so the monitor kept
/// beside the window is taken, and the first monitor where none is kept.
/// Elsewhere it is the monitor the window is on.
pub open spec fn recorded_monitor(
    window: Window,
    monitors: Seq<MonitorInfo>,
    existing_monitor: Option<CurrentMonitor>,
    platform: Platform,
) -> MonitorInfo {
    if platform is Wayland {
        match existing_monitor {
            Some(current) => current.0,
            None => monitors[0],
        }
    } else {
        monitors[window.monitor_index(monitors)]
    }
}

/// The mode a save records.
pub open spec fn recorded_mode(window: Window, monitors: Seq<MonitorInfo>) -> SavedWindowMode {
    SavedWindowMode::saved_from(window.spec_effective_mode(monitors))
}

/// What the cache holds once a frame of saving has looked at the window.
pub open spec fn seen(
    window: Window,
    monitors: Seq<MonitorInfo>,
    existing_monitor: Option<CurrentMonitor>,
    platform: Platform,
) -> CachedWindowState {
    CachedWindowState {
        position: observed_position(window),
        width: window.physical_width,
        height: window.physical_height,
        mode: Some(recorded_mode(window, monitors)),
        monitor_index: Some(recorded_monitor(window, monitors, existing_monitor, platform).index),
    }
}

/// Whether position, size or mode of the window differ from what was last seen.
pub open spec fn changed_since(
    cached: CachedWindowState,
    window: Window,
    monitors: Seq<MonitorInfo>,
) -> bool {
    ||| cached.position != observed_position(window)
    ||| cached.width != window.physical_width
    ||| cached.height != window.physical_height
    ||| cached.mode != Some(recorded_mode(window, monitors))
}

/// The state a save writes for the window.
pub open spec fn state_of(
    window: Window,
    monitors: Seq<MonitorInfo>,
    existing_monitor: Option<CurrentMonitor>,
    platform: Platform,
    app_name: String,
) -> WindowState {
    WindowState {
        position: match observed_position(window) {
            Some(pos) => Some((pos.x, pos.y)),
            None => None,
        },
        width: window.physical_width,
        height: window.physical_height,
        monitor_index: recorded_monitor(window, monitors, existing_monitor, platform).index,
        mode: recorded_mode(window, monitors),
        app_name,
    }
}

/// Whether saving looks a monitor up: it does not only where the monitor
/// kept beside the window is taken and the window's mode flag says all.
pub open spec fn save_looks_up_monitor(
    window: Window,
    existing_monitor: Option<CurrentMonitor>,
    platform: Platform,
) -> bool {
    ||| !(platform is Wayland)
    ||| existing_monitor is None
    ||| window.mode_depends_on_geometry()
}

/// Tell whether saving looks a monitor up, and so needs a registry that is
/// not empty.
pub fn looks_up_monitor(
    window: &Window,
    existing_monitor: Option<&CurrentMonitor>,
    platform: Platform,
) -> (r: bool)
    ensures
        r == save_looks_up_monitor(*window, spec_copied(existing_monitor), platform),
{
    let on_wayland = match platform {
        Platform::Wayland => true,
        _ => false,
    };
    let by_geometry = match (window.mode, window.position) {
        (WindowMode::Windowed, WindowPosition::At(_)) => true,
        _ => false,
    };
    !on_wayland || existing_monitor.is_none() || by_geometry
}

/// Save window state when position, size, or mode changes. Runs only when
/// no restore is in progress.
///
/// The outcome holds the state to write where one of the three has changed
/// since the last call, and nothing where none has. Wherever the monitor is
/// found from the window's position, the outcome also names that monitor.
pub fn save_window_state(
    window: &Window,
    monitors: &Monitors,
    existing_monitor: Option<&CurrentMonitor>,
    cached: &mut CachedWindowState,
    platform: Platform,
    app_name: String,
) -> (r: SaveOutcome)
    requires
        save_looks_up_monitor(*window, spec_copied(existing_monitor), platform) ==> monitors@.len()
            > 0,
    ensures
        *final(cached) == seen(*window, monitors@, spec_copied(existing_monitor), platform),
        r.state == if changed_since(*old(cached), *window, monitors@) {
            Some(state_of(*window, monitors@, spec_copied(existing_monitor), platform, app_name))
        } else {
            None
        },
        r.current_monitor == if platform is Wayland {
            None
        } else {
            Some(CurrentMonitor(monitors@[window.monitor_index(monitors@)]))
        },
        r.state is Some && !(platform is Wayland) ==> r.state.unwrap().monitor_index
            == window.monitor_index(monitors@) && r.state.unwrap().monitor_index < monitors@.len(),
{
    proof {
        monitors.lemma_indexed_and_ordered();
    }
    let pos = match window.position {
        WindowPosition::At(p) => Some(p),
        _ => None,
    };
    let width = window.physical_width;
    let height = window.physical_height;
    let mode = SavedWindowMode::from(&window.effective_mode(monitors));
    let on_wayland = match platform {
        Platform::Wayland => true,
        _ => false,
    };
    let (monitor_index, current_monitor) = if on_wayland {
        match existing_monitor {
            Some(current) => (current.0.index, None),
            None => (monitors.first().index, None),
        }
    } else {
        let info = window.monitor(monitors);
        (info.index, Some(CurrentMonitor(*info)))
    };
    let position_changed = cached.position != pos;
    let size_changed = cached.width != width || cached.height != height;
    let mode_changed = cached.mode != Some(mode);
    if !position_changed && !size_changed && !mode_changed {
        cached.monitor_index = Some(monitor_index);
        return SaveOutcome { current_monitor, state: None };
    }
    cached.position = pos;
    cached.width = width;
    cached.height = height;
    cached.mode = Some(mode);
    cached.monitor_index = Some(monitor_index);
    let state = WindowState {
        position: match pos {
            Some(p) => Some((p.x, p.y)),
            None => None,
        },
        width,
        height,
        monitor_index,
        mode,
        app_name,
    };
    SaveOutcome { current_monitor, state: Some(state) }
}

/// The value behind an optional reference.
pub open spec fn spec_copied(existing_monitor: Option<&CurrentMonitor>) -> Option<CurrentMonitor> {
    match existing_monitor {
        Some(current) => Some(*current),
        None => None,
    }
}

/// Whether `detected` is the index of the first monitor that holds
/// `position`: `None` where there is no position or no monitor holds it.
pub open spec fn is_monitor_at(
    monitors: Seq<MonitorInfo>,
    position: Option<IVec2>,
    detected: Option<usize>,
) -> bool {
    match position {
        Some(pos) => match detected {
            Some(index) => is_first_containing(monitors, pos.x as int, pos.y as int, index as int),
            None => none_contains(monitors, pos.x as int, pos.y as int),
        },
        None => detected is None,
    }
}

/// Follow the window's monitor where it cannot be found from the window's
/// position: from the position of the monitor that the window system names.
///
/// What the window system names is trusted only while the window has the
/// focus; without it nothing changes. With it, the index of the monitor at
/// `current_monitor_position` is remembered in `cached_index`, and where that
/// index is a new one the monitor is returned, to be kept beside the window.
pub fn update_wayland_monitor(
    focused: bool,
    current_monitor_position: Option<IVec2>,
    monitors: &Monitors,
    cached_index: &mut Option<usize>,
) -> (r: Option<CurrentMonitor>)
    ensures
        !focused ==> r is None && *final(cached_index) == *old(cached_index),
        focused ==> is_monitor_at(monitors@, current_monitor_position, *final(cached_index)),
        focused ==> r == match *final(cached_index) {
            Some(index) if *old(cached_index) != Some(index) => Some(
                CurrentMonitor(monitors@[index as int]),
            ),
            _ => None,
        },
{
    if !focused {
        return None;
    }
    let detected_index: Option<usize> = match current_monitor_position {
        Some(pos) => match monitors.at(pos.x, pos.y) {
            Some(info) => Some(info.index),
            None => None,
        },
        None => None,
    };
    let mut found: Option<CurrentMonitor> = None;
    if *cached_index != detected_index {
        if let Some(index) = detected_index {
            if let Some(info) = monitors.by_index(index) {
                found = Some(CurrentMonitor(*info));
            }
        }
        *cached_index = detected_index;
    }
    found
}

} // verus!
