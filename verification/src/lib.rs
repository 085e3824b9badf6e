//! Window position and size restoration for multi-monitor setups with
//! different scale factors.
//!
//! The position, size and mode of a window are saved whenever they change and
//! applied again at the next start. Between monitors of different scale the
//! windowing layer converts what it is given by the scale of the monitor the
//! window is on at that moment, so a position or a size must be written in
//! the form that comes out right after that conversion, and in the right
//! order. [`systems`] holds the steps, [`monitors`] the monitor registry,
//! [`types`] the saved state and the target of a restore, [`state`] the place
//! of the state file.
//!
//! This crate decides; it does not touch a window. [`RestoreWindows`] is the
//! state of one window's restore: the application calls
//! [`RestoreWindows::startup`] once and [`RestoreWindows::update`] every
//! frame, hands in what the window system reports, and carries out what comes
//! back.
//!
//! Scale factors are counted in thousandths throughout: see [`scale`]. Each
//! patch for a flaw of the windowing layer can be switched off: see
//! [`Workarounds`].

pub mod macos_drag_back_fix;
pub mod monitors;
pub mod scale;
pub mod session;
pub mod state;
pub mod systems;
pub mod types;
pub mod window_ext;
pub mod windows_dpi_fix;
pub mod x11_frame_extents;

pub use monitors::CurrentMonitor;
pub use monitors::MonitorInfo;
pub use monitors::Monitors;
pub use session::FrameEvents;
pub use session::Notification;
pub use session::RestoreWindows;
pub use types::SavedVideoMode;
pub use types::SavedWindowMode;
pub use types::Workarounds;
pub use window_ext::WindowExt;
