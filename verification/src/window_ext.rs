//! The window as the restore logic sees it, and the queries that need the
//! monitor registry to answer.

use vstd::prelude::*;

use crate::monitors::is_first_nearest;
use crate::monitors::nearest_index;
use crate::monitors::MonitorInfo;
use crate::monitors::Monitors;
use crate::types::IVec2;
use crate::types::MonitorSelection;
use crate::types::UVec2;
use crate::types::WindowMode;

verus! {

/// Where a window is placed.
#[derive(Clone, Copy, Debug, PartialEq, Eq, Structural)]
pub enum WindowPosition {
    /// The window system chooses.
    Automatic,
    /// Centered on a monitor.
    Centered(MonitorSelection),
    /// At this physical position.
    At(IVec2),
}

/// What restoring and saving read and write of a window.
#[derive(Clone, Copy, Debug, PartialEq, Eq, Structural)]
pub struct Window {
    pub position: WindowPosition,
    /// Width of the content area in physical pixels.
    pub physical_width: u32,
    /// Height of the content area in physical pixels.
    pub physical_height: u32,
    /// Scale factor in thousandths.
    pub scale_factor: u32,
    pub mode: WindowMode,
    pub visible: bool,
    pub focused: bool,
}

impl Window {
    /// The window with another content size.
    pub open spec fn with_size(self, width: u32, height: u32) -> Window {
        Window { physical_width: width, physical_height: height, ..self }
    }

    /// The window at another position.
    pub open spec fn with_position(self, position: IVec2) -> Window {
        Window { position: WindowPosition::At(position), ..self }
    }

    /// The size of the content area.
    pub open spec fn spec_physical_size(self) -> UVec2 {
        UVec2 { x: self.physical_width, y: self.physical_height }
    }

    /// The point in the middle of the window, where the window has a position.
    pub open spec fn center(self) -> Option<(int, int)> {
        match self.position {
            WindowPosition::At(pos) => Some(
                ((pos.x + self.physical_width / 2) as int, (pos.y + self.physical_height / 2) as int),
            ),
            _ => None,
        }
    }

    /// Whether `monitors[i]` is the monitor the window is on: the one nearest
    /// to its center, and the first one where the window has no position.
    pub open spec fn is_on(self, monitors: Seq<MonitorInfo>, i: int) -> bool {
        match self.center() {
            Some((x, y)) => is_first_nearest(monitors, x, y, i),
            None => i == 0 && monitors.len() > 0,
        }
    }

    /// The index of the monitor the window is on.
    pub open spec fn monitor_index(self, monitors: Seq<MonitorInfo>) -> int {
        match self.center() {
            Some((x, y)) => nearest_index(monitors, x, y),
            None => 0,
        }
    }

    /// The mode the window is shown in, given the monitors.
    pub open spec fn spec_effective_mode(self, monitors: Seq<MonitorInfo>) -> WindowMode {
        self.effective_mode_on(monitors[self.monitor_index(monitors)])
    }

    /// Whether the window covers `monitor` from edge to edge: it is as wide,
    /// starts at its left edge and ends at its bottom edge.
    pub open spec fn fills(self, monitor: MonitorInfo) -> bool {
        match self.position {
            WindowPosition::At(pos) => {
                &&& self.physical_width == monitor.size.x
                &&& pos.x == monitor.position.x
                &&& pos.y + self.physical_height == monitor.bottom()
            },
            _ => false,
        }
    }

    /// Whether the mode the window is shown in can differ from its mode flag.
    pub open spec fn mode_depends_on_geometry(self) -> bool {
        self.mode is Windowed && self.position is At
    }

    /// The mode a window on `monitor` is shown in.
    pub open spec fn effective_mode_on(self, monitor: MonitorInfo) -> WindowMode {
        if !self.mode_depends_on_geometry() {
            self.mode
        } else if self.fills(monitor) {
            WindowMode::BorderlessFullscreen(MonitorSelection::Index(monitor.index))
        } else {
            WindowMode::Windowed
        }
    }

    /// Set the size of the content area in physical pixels.
    pub fn set_physical_resolution(&mut self, width: u32, height: u32)
        ensures
            *final(self) == old(self).with_size(width, height),
    {
        self.physical_width = width;
        self.physical_height = height;
    }
}

/// Monitor-aware methods of a window.
pub trait WindowExt {
    /// Get the monitor this window is currently on.
    ///
    /// If the window position is unknown, this is the first monitor; if it
    /// is outside all monitors, the closest one.
    fn monitor<'a>(&self, monitors: &'a Monitors) -> &'a MonitorInfo
        requires
            monitors@.len() > 0,
    ;

    /// Detect the effective window mode.
    ///
    /// A window that the window manager has enlarged to fill its monitor is
    /// shown fullscreen although its mode flag still says windowed. This
    /// method reports what the user sees:
    /// - if the mode flag says fullscreen, that mode unchanged;
    /// - if the window fills its monitor, borderless fullscreen on that monitor;
    /// - otherwise windowed.
    fn effective_mode(&self, monitors: &Monitors) -> WindowMode
        requires
            self.mode_needs_monitor() ==> monitors@.len() > 0,
    ;

    /// Whether the effective mode cannot be told without looking at the
    /// monitor the window is on.
    spec fn mode_needs_monitor(&self) -> bool;

    /// Set window position and size in one call.
    fn set_position_and_size(&mut self, position: IVec2, size: UVec2);
}

impl WindowExt for Window {
    fn monitor<'a>(&self, monitors: &'a Monitors) -> (r: &'a MonitorInfo)
        ensures
            self.is_on(monitors@, r.index as int),
            r.index == self.monitor_index(monitors@),
            *r == monitors@[r.index as int],
    {
        match self.position {
            WindowPosition::At(pos) => {
                // The center decides: it tells a window that reaches over a monitor's
                // edge from one on the next monitor, and it is not misled by the
                // invisible border that puts a maximized window's corner outside.
                let center_x = pos.x as i64 + (self.physical_width / 2) as i64;
                let center_y = pos.y as i64 + (self.physical_height / 2) as i64;
                monitors.closest_to_point(center_x, center_y)
            },
            _ => monitors.first(),
        }
    }

    open spec fn mode_needs_monitor(&self) -> bool {
        self.mode_depends_on_geometry()
    }

    fn effective_mode(&self, monitors: &Monitors) -> (r: WindowMode)
        ensures
            r == self.spec_effective_mode(monitors@),
    {
        match self.mode {
            WindowMode::Windowed => {
                match self.position {
                    WindowPosition::At(pos) => {
                        let monitor = self.monitor(monitors);
                        let full_width = self.physical_width == monitor.size.x;
                        let left_aligned = pos.x == monitor.position.x;
                        let reaches_bottom = pos.y as i64 + self.physical_height as i64
                            == monitor.position.y as i64 + monitor.size.y as i64;
                        if full_width && left_aligned && reaches_bottom {
                            WindowMode::BorderlessFullscreen(MonitorSelection::Index(monitor.index))
                        } else {
                            WindowMode::Windowed
                        }
                    },
                    _ => self.mode,
                }
            },
            _ => self.mode,
        }
    }

    fn set_position_and_size(&mut self, position: IVec2, size: UVec2)
        ensures
            *final(self) == old(self).with_position(position).with_size(size.x, size.y),
    {
        self.position = WindowPosition::At(position);
        self.set_physical_resolution(size.x, size.y);
    }
}

} // verus!
