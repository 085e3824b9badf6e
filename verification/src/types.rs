//! The values that describe a saved window and a restore in progress.

use vstd::prelude::*;
use vstd::std_specs::convert::FromSpecImpl;

use crate::scale::rescale_coordinate;
use crate::scale::rescale_length;
use crate::scale::scale_coordinate;
use crate::scale::scale_length;

verus! {

/// A pair of signed physical-pixel coordinates.
#[derive(Clone, Copy, Debug, PartialEq, Eq, Structural)]
pub struct IVec2 {
    pub x: i32,
    pub y: i32,
}

impl IVec2 {
    pub fn new(x: i32, y: i32) -> (r: Self)
        ensures
            r == (IVec2 { x, y }),
    {
        IVec2 { x, y }
    }
}

/// A pair of unsigned physical-pixel lengths.
#[derive(Clone, Copy, Debug, PartialEq, Eq, Structural)]
pub struct UVec2 {
    pub x: u32,
    pub y: u32,
}

impl UVec2 {
    pub fn new(x: u32, y: u32) -> (r: Self)
        ensures
            r == (UVec2 { x, y }),
    {
        UVec2 { x, y }
    }
}

/// A display mode that exclusive fullscreen can pin the monitor to.
#[derive(Clone, Copy, Debug, PartialEq, Eq, Structural)]
pub struct VideoMode {
    pub physical_size: UVec2,
    pub bit_depth: u16,
    pub refresh_rate_millihertz: u32,
}

/// Which monitor a fullscreen window covers.
#[derive(Clone, Copy, Debug, PartialEq, Eq, Structural)]
pub enum MonitorSelection {
    /// The monitor the window is on.
    Current,
    /// The monitor the system calls primary.
    Primary,
    /// The monitor at this index of the sorted monitor list.
    Index(usize),
    /// A monitor named by the host application's own handle.
    Entity(u64),
}

/// Which video mode exclusive fullscreen uses.
#[derive(Clone, Copy, Debug, PartialEq, Eq, Structural)]
pub enum VideoModeSelection {
    /// Whatever mode the monitor is in.
    Current,
    /// This mode exactly.
    Specific(VideoMode),
}

/// How a window is displayed.
#[derive(Clone, Copy, Debug, PartialEq, Eq, Structural)]
pub enum WindowMode {
    Windowed,
    BorderlessFullscreen(MonitorSelection),
    Fullscreen(MonitorSelection, VideoModeSelection),
}

/// Saved video mode for exclusive fullscreen.
#[derive(Clone, Copy, Debug, PartialEq, Eq, Structural)]
pub struct SavedVideoMode {
    pub physical_size: UVec2,
    pub bit_depth: u16,
    pub refresh_rate_millihertz: u32,
}

impl SavedVideoMode {
    /// The video mode this record stands for.
    pub fn to_video_mode(&self) -> (r: VideoMode)
        ensures
            r == self.video_mode(),
    {
        VideoMode {
            physical_size: self.physical_size,
            bit_depth: self.bit_depth,
            refresh_rate_millihertz: self.refresh_rate_millihertz,
        }
    }

    pub open spec fn video_mode(&self) -> VideoMode {
        VideoMode {
            physical_size: self.physical_size,
            bit_depth: self.bit_depth,
            refresh_rate_millihertz: self.refresh_rate_millihertz,
        }
    }
}

/// The window mode as it is written to the state file: without the monitor,
/// which the file names once for the whole window.
#[derive(Clone, Copy, Debug, PartialEq, Eq, Structural)]
pub enum SavedWindowMode {
    Windowed,
    BorderlessFullscreen,
    /// Exclusive fullscreen with optional specific video mode.
    Fullscreen {
        /// Video mode if explicitly set (`None` = use current display mode).
        video_mode: Option<SavedVideoMode>,
    },
}

impl SavedWindowMode {
    /// The window mode this saved mode stands for on the monitor at `monitor_index`.
    pub open spec fn window_mode(&self, monitor_index: usize) -> WindowMode {
        let selection = MonitorSelection::Index(monitor_index);
        match *self {
            SavedWindowMode::Windowed => WindowMode::Windowed,
            SavedWindowMode::BorderlessFullscreen => WindowMode::BorderlessFullscreen(selection),
            SavedWindowMode::Fullscreen { video_mode: None } => WindowMode::Fullscreen(
                selection,
                VideoModeSelection::Current,
            ),
            SavedWindowMode::Fullscreen { video_mode: Some(saved) } => WindowMode::Fullscreen(
                selection,
                VideoModeSelection::Specific(saved.video_mode()),
            ),
        }
    }

    /// What is kept of a window mode when it is saved: the kind of mode and
    /// the chosen video mode, not the monitor.
    pub open spec fn saved_from(mode: WindowMode) -> SavedWindowMode {
        match mode {
            WindowMode::Windowed => SavedWindowMode::Windowed,
            WindowMode::BorderlessFullscreen(_) => SavedWindowMode::BorderlessFullscreen,
            WindowMode::Fullscreen(_, VideoModeSelection::Current) => SavedWindowMode::Fullscreen {
                video_mode: None,
            },
            WindowMode::Fullscreen(
                _,
                VideoModeSelection::Specific(mode),
            ) => SavedWindowMode::Fullscreen {
                video_mode: Some(
                    SavedVideoMode {
                        physical_size: mode.physical_size,
                        bit_depth: mode.bit_depth,
                        refresh_rate_millihertz: mode.refresh_rate_millihertz,
                    },
                ),
            },
        }
    }

    /// Convert to a window mode on the monitor with the given index.
    pub fn to_window_mode(&self, monitor_index: usize) -> (r: WindowMode)
        ensures
            r == self.window_mode(monitor_index),
    {
        let selection = MonitorSelection::Index(monitor_index);
        match self {
            SavedWindowMode::Windowed => WindowMode::Windowed,
            SavedWindowMode::BorderlessFullscreen => WindowMode::BorderlessFullscreen(selection),
            SavedWindowMode::Fullscreen { video_mode: None } => WindowMode::Fullscreen(
                selection,
                VideoModeSelection::Current,
            ),
            SavedWindowMode::Fullscreen { video_mode: Some(saved) } => WindowMode::Fullscreen(
                selection,
                VideoModeSelection::Specific(saved.to_video_mode()),
            ),
        }
    }

    /// Check if this is a fullscreen mode (borderless or exclusive).
    pub fn is_fullscreen(&self) -> (r: bool)
        ensures
            r == !(*self is Windowed),
    {
        match self {
            SavedWindowMode::Windowed => false,
            _ => true,
        }
    }
}

impl From<&WindowMode> for SavedWindowMode {
    fn from(mode: &WindowMode) -> (r: Self) {
        match mode {
            WindowMode::Windowed => SavedWindowMode::Windowed,
            WindowMode::BorderlessFullscreen(_) => SavedWindowMode::BorderlessFullscreen,
            WindowMode::Fullscreen(_, VideoModeSelection::Current) => SavedWindowMode::Fullscreen {
                video_mode: None,
            },
            WindowMode::Fullscreen(
                _,
                VideoModeSelection::Specific(mode),
            ) => SavedWindowMode::Fullscreen {
                video_mode: Some(
                    SavedVideoMode {
                        physical_size: mode.physical_size,
                        bit_depth: mode.bit_depth,
                        refresh_rate_millihertz: mode.refresh_rate_millihertz,
                    },
                ),
            },
        }
    }
}

impl FromSpecImpl<&WindowMode> for SavedWindowMode {
    open spec fn obeys_from_spec() -> bool {
        true
    }

    open spec fn from_spec(mode: &WindowMode) -> Self {
        SavedWindowMode::saved_from(*mode)
    }
}

} // verus!

verus! {

/// Window decoration dimensions (title bar, borders).
#[derive(Clone, Copy, Debug, PartialEq, Eq, Structural)]
pub struct WindowDecoration {
    pub width: u32,
    pub height: u32,
}

/// What is known of the window when the application starts.
#[derive(Clone, Copy, Debug, PartialEq, Eq, Structural)]
pub struct WinitInfo {
    pub starting_monitor_index: usize,
    pub window_decoration: WindowDecoration,
}

impl WinitInfo {
    /// Get window decoration dimensions as a `UVec2`.
    pub fn decoration(&self) -> (r: UVec2)
        ensures
            r == (UVec2 { x: self.window_decoration.width, y: self.window_decoration.height }),
    {
        UVec2::new(self.window_decoration.width, self.window_decoration.height)
    }
}

/// The two steps of a restore from a higher to a lower scale.
///
/// The position is set before the size: a window that took its size while
/// still on the starting monitor would reach into the wrong monitor, or be
/// cut down to that monitor's bounds. So the window first moves, at a size of
/// 1x1, and takes its size once the window system has reported the new scale.
#[derive(Clone, Copy, Debug, PartialEq, Eq, Structural)]
pub enum WindowRestoreState {
    /// Position applied with compensation, waiting for the scale change.
    WaitingForScaleChange,
    /// Scale changed, ready to apply final size (position already set).
    ApplySize,
}

/// The two steps of a fullscreen restore where fullscreen must wait until the
/// window has been drawn once.
#[derive(Clone, Copy, Debug, PartialEq, Eq, Structural)]
pub enum FullscreenRestoreState {
    /// Waiting for first frame to render (surface creation).
    WaitingForSurface,
    /// Surface created, ready to apply fullscreen mode.
    ApplyFullscreen,
}

/// Restore strategy based on scale factor relationship between launch and target monitors.
#[derive(Clone, Copy, Debug, PartialEq, Eq, Structural)]
pub enum MonitorScaleStrategy {
    /// Same scale - apply position and size directly.
    ApplyUnchanged,
    /// Apply position directly, compensate size only.
    CompensateSizeOnly,
    /// Lower to higher scale - apply position and size with compensation (ratio below one).
    LowerToHigher,
    /// Higher to lower scale - requires two steps.
    HigherToLower(WindowRestoreState),
}

/// The windowing system the application runs on, as far as restoring differs.
#[derive(Clone, Copy, Debug, PartialEq, Eq, Structural)]
pub enum Platform {
    /// Positions are in physical pixels and need no compensation; sizes do.
    Windows,
    /// Positions and sizes are interpreted by the scale of the starting monitor.
    MacOs,
    /// As `MacOs`, on Linux with an X11 display server.
    X11,
    /// Window positions can be neither read nor set.
    Wayland,
}

/// Which of the patches for flaws of the windowing layer are in force.
///
/// Each patch acts only on the platform it is for, and each can be switched
/// off by itself, to find out whether the windowing layer still needs it. The
/// first four act on what this library decides. The last three are carried
/// out by the application alone; they stand here so that one value names
/// all the patches.
#[derive(Clone, Copy, Debug, PartialEq, Eq, Structural)]
pub struct Workarounds {
    /// Compensate position and size between monitors of different scale,
    /// where the windowing layer converts both by the wrong scale (macOS, X11).
    pub scale_compensation: bool,
    /// Keep the restored size when the window is dragged back to the monitor
    /// it started on (macOS).
    pub drag_back_protection: bool,
    /// Take the frame's top extent off the position before it is applied (X11).
    pub frame_extent_compensation: bool,
    /// Let the window be drawn once before it goes fullscreen (Windows).
    pub deferred_fullscreen: bool,
    /// Leave exclusive fullscreen before the windows are torn down at exit
    /// (macOS).
    pub fullscreen_exit_guard: bool,
    /// Answer a change of DPI with the rectangle the system suggests (Windows).
    pub dpi_change_interception: bool,
    /// Ask the windowing layer for the position when saving, since not every
    /// move reaches the window (X11).
    pub position_query: bool,
}

impl Workarounds {
    /// Every patch in force.
    pub open spec fn spec_all() -> Workarounds {
        Workarounds {
            scale_compensation: true,
            drag_back_protection: true,
            frame_extent_compensation: true,
            deferred_fullscreen: true,
            fullscreen_exit_guard: true,
            dpi_change_interception: true,
            position_query: true,
        }
    }

    /// No patch in force.
    pub open spec fn spec_none() -> Workarounds {
        Workarounds {
            scale_compensation: false,
            drag_back_protection: false,
            frame_extent_compensation: false,
            deferred_fullscreen: false,
            fullscreen_exit_guard: false,
            dpi_change_interception: false,
            position_query: false,
        }
    }

    /// Every patch in force.
    pub fn all() -> (r: Workarounds)
        ensures
            r == Workarounds::spec_all(),
    {
        Workarounds {
            scale_compensation: true,
            drag_back_protection: true,
            frame_extent_compensation: true,
            deferred_fullscreen: true,
            fullscreen_exit_guard: true,
            dpi_change_interception: true,
            position_query: true,
        }
    }

    /// No patch in force.
    pub fn none() -> (r: Workarounds)
        ensures
            r == Workarounds::spec_none(),
    {
        Workarounds {
            scale_compensation: false,
            drag_back_protection: false,
            frame_extent_compensation: false,
            deferred_fullscreen: false,
            fullscreen_exit_guard: false,
            dpi_change_interception: false,
            position_query: false,
        }
    }
}

impl Default for Workarounds {
    /// Every patch in force.
    fn default() -> (r: Workarounds)
        ensures
            r == Workarounds::spec_all(),
    {
        Workarounds::all()
    }
}

/// The quotient of two scale factors.
#[derive(Clone, Copy, Debug, PartialEq, Eq, Structural)]
pub struct ScaleRatio {
    pub numerator: u32,
    pub denominator: u32,
}

/// Holds the target window state during the restore process.
///
/// Its presence means that a restore is in progress. Dimensions stored here
/// are those of the content area.
#[derive(Clone, Copy, Debug, PartialEq, Eq, Structural)]
pub struct TargetPosition {
    /// Final clamped position (adjusted to fit within target monitor).
    /// `None` where window positions cannot be read.
    pub position: Option<IVec2>,
    /// Target width (content area, excluding window decoration).
    pub width: u32,
    /// Target height (content area, excluding window decoration).
    pub height: u32,
    /// Scale factor of the target monitor.
    pub target_scale: u32,
    /// Scale factor of the monitor where the window starts.
    pub starting_scale: u32,
    /// Strategy for handling scale factor differences between monitors.
    pub monitor_scale_strategy: MonitorScaleStrategy,
    /// Window mode to restore.
    pub mode: SavedWindowMode,
    /// Index of the monitor to restore to.
    pub target_monitor_index: usize,
    /// Fullscreen restore state.
    pub fullscreen_restore_state: FullscreenRestoreState,
}

impl TargetPosition {
    pub open spec fn spec_size(&self) -> UVec2 {
        UVec2 { x: self.width, y: self.height }
    }

    /// The position with each coordinate multiplied by the quotient of the
    /// starting scale by the target scale.
    pub open spec fn spec_compensated_position(&self) -> Option<IVec2> {
        match self.position {
            Some(pos) => Some(
                IVec2 {
                    x: rescale_coordinate(pos.x, self.starting_scale, self.target_scale) as i32,
                    y: rescale_coordinate(pos.y, self.starting_scale, self.target_scale) as i32,
                },
            ),
            None => None,
        }
    }

    /// The size with each length multiplied by the quotient of the starting
    /// scale by the target scale.
    pub open spec fn spec_compensated_size(&self) -> UVec2 {
        UVec2 {
            x: rescale_length(self.width, self.starting_scale, self.target_scale) as u32,
            y: rescale_length(self.height, self.starting_scale, self.target_scale) as u32,
        }
    }

    /// Get the target position as an `IVec2`, if available.
    pub fn position(&self) -> (r: Option<IVec2>)
        ensures
            r == self.position,
    {
        self.position
    }

    /// Get the target size as a `UVec2`.
    pub fn size(&self) -> (r: UVec2)
        ensures
            r == self.spec_size(),
    {
        UVec2::new(self.width, self.height)
    }

    /// Scale ratio between starting and target monitors.
    pub fn ratio(&self) -> (r: ScaleRatio)
        ensures
            r == (ScaleRatio { numerator: self.starting_scale, denominator: self.target_scale }),
    {
        ScaleRatio { numerator: self.starting_scale, denominator: self.target_scale }
    }

    /// Position compensated for scale factor differences.
    ///
    /// Returns `None` if position is not available.
    pub fn compensated_position(&self) -> (r: Option<IVec2>)
        ensures
            r == self.spec_compensated_position(),
    {
        match self.position {
            Some(pos) => Some(
                IVec2::new(
                    scale_coordinate(pos.x, self.starting_scale, self.target_scale),
                    scale_coordinate(pos.y, self.starting_scale, self.target_scale),
                ),
            ),
            None => None,
        }
    }

    /// Size compensated for scale factor differences.
    pub fn compensated_size(&self) -> (r: UVec2)
        ensures
            r == self.spec_compensated_size(),
    {
        UVec2::new(
            scale_length(self.width, self.starting_scale, self.target_scale),
            scale_length(self.height, self.starting_scale, self.target_scale),
        )
    }
}

/// Saved window state.
#[derive(Clone, Debug, PartialEq, Eq)]
pub struct WindowState {
    /// Position of the content area; `None` where it cannot be read.
    pub position: Option<(i32, i32)>,
    pub width: u32,
    pub height: u32,
    pub monitor_index: usize,
    pub mode: SavedWindowMode,
    pub app_name: String,
}

} // verus!

verus! {

/// The operating system the application was built for.
#[derive(Clone, Copy, Debug, PartialEq, Eq, Structural)]
pub enum HostOs {
    Windows,
    MacOs,
    Linux,
}

} // verus!
