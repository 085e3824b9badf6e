//! The restore of one window from startup through the frames that follow.
//!
//! [`RestoreWindows`] holds what lasts from frame to frame: the target while a
//! restore is in progress, the protection of the restored size afterwards,
//! and what was last saved. [`RestoreWindows::startup`] begins a restore,
//! [`RestoreWindows::update`] takes it through a frame. A frame belongs
//! either to the restore or to saving, never to both, so that no size or
//! position that the window only passes through is ever written.

use vstd::prelude::*;

use crate::macos_drag_back_fix::apply_pending_correction;
use crate::macos_drag_back_fix::detect_user_resize;
use crate::macos_drag_back_fix::DragBackSizeProtection;
use crate::macos_drag_back_fix::handle_drag_back_scale_change;
use crate::monitors::is_indexed;
use crate::monitors::CurrentMonitor;
use crate::monitors::MonitorInfo;
use crate::monitors::Monitors;
use crate::monitors::lemma_first_nearest_unique;
use crate::monitors::nearest_index;
use crate::scale::scales_match;
use crate::systems::CachedWindowState;
use crate::systems::changed_since;
use crate::systems::cuts_size;
use crate::systems::decoration_between;
use crate::systems::init_winit_info;
use crate::systems::lies_within;
use crate::systems::load_target_position;
use crate::systems::looks_up_monitor;
use crate::systems::move_to_target_monitor;
use crate::systems::moved_to_target;
use crate::systems::outcome_of_frame;
use crate::systems::restore_primary_window;
use crate::systems::RestoreStatus;
use crate::systems::save_looks_up_monitor;
use crate::systems::save_window_state;
use crate::systems::SaveOutcome;
use crate::systems::seen;
use crate::systems::spec_copied;
use crate::systems::starting_scale_of;
use crate::systems::state_of;
use crate::systems::strategy_for;
use crate::systems::target_after_frame;
use crate::systems::target_for;
use crate::systems::window_after_frame;
use crate::types::IVec2;
use crate::types::MonitorScaleStrategy;
use crate::types::Platform;
use crate::types::TargetPosition;
use crate::types::UVec2;
use crate::types::VideoMode;
use crate::types::WindowRestoreState;
use crate::types::WindowState;
use crate::types::WinitInfo;
use crate::types::Workarounds;
use crate::window_ext::Window;
use crate::window_ext::WindowPosition;
use crate::x11_frame_extents::compensate_target_position;
use crate::x11_frame_extents::compensated_target;
use crate::x11_frame_extents::extent_fits;

verus! {

/// What the window system has reported since the last frame. Of several
/// notifications of one kind only the last counts.
#[derive(Clone, Copy, Debug, PartialEq, Eq, Structural)]
pub struct FrameEvents {
    /// The scale factor the window has changed to, where it has changed.
    pub scale_changed: Option<u32>,
    /// Whether the window was resized.
    pub resized: bool,
    /// The top frame extent, where the window manager has published it.
    pub frame_top: Option<i32>,
}

/// A notification of the window system that the restore acts upon. A move is
/// not among them: it shows in the window's position.
#[derive(Clone, Copy, Debug, PartialEq, Eq, Structural)]
pub enum Notification {
    /// The window was resized.
    Resized,
    /// The window's scale factor changed to this value.
    ScaleFactorChanged(u32),
}

/// The scale factor of the last change of scale among `notifications`.
pub open spec fn last_scale_change(notifications: Seq<Notification>) -> Option<u32>
    decreases notifications.len(),
{
    if notifications.len() == 0 {
        None
    } else {
        match notifications.last() {
            Notification::ScaleFactorChanged(scale) => Some(scale),
            Notification::Resized => last_scale_change(notifications.drop_last()),
        }
    }
}

/// Whether a resize is among `notifications`.
pub open spec fn any_resize(notifications: Seq<Notification>) -> bool {
    exists|i: int| 0 <= i < notifications.len() && #[trigger] notifications[i] is Resized
}

impl FrameEvents {
    /// The events of a frame from its notifications in the order of their
    /// delivery: of each kind the last one counts, the earlier ones are
    /// dropped.
    pub fn coalesce(notifications: &Vec<Notification>, frame_top: Option<i32>) -> (r: FrameEvents)
        ensures
            r.scale_changed == last_scale_change(notifications@),
            r.resized == any_resize(notifications@),
            r.frame_top == frame_top,
    {
        let mut scale_changed: Option<u32> = None;
        let mut resized = false;
        let mut i: usize = 0;
        assert(notifications@.take(0) =~= Seq::<Notification>::empty());
        while i < notifications.len()
            invariant
                i <= notifications@.len(),
                scale_changed == last_scale_change(notifications@.take(i as int)),
                resized == any_resize(notifications@.take(i as int)),
            decreases notifications@.len() - i,
        {
            let ghost seen = notifications@.take(i as int);
            let ghost next = notifications@.take(i + 1);
            assert(next.drop_last() =~= seen);
            assert(next.last() == notifications@[i as int]);
            match notifications[i] {
                Notification::Resized => {
                    resized = true;
                    assert(next[i as int] is Resized);
                },
                Notification::ScaleFactorChanged(scale) => {
                    scale_changed = Some(scale);
                    assert(any_resize(next) == any_resize(seen)) by {
                        if any_resize(seen) {
                            let k = choose|k: int| 0 <= k < seen.len() && #[trigger] seen[k] is Resized;
                            assert(next[k] is Resized);
                        }
                        if any_resize(next) {
                            let k = choose|k: int| 0 <= k < next.len() && #[trigger] next[k] is Resized;
                            assert(seen[k] is Resized);
                        }
                    }
                },
            }
            i += 1;
        }
        assert(notifications@.take(notifications@.len() as int) =~= notifications@);
        FrameEvents { scale_changed, resized, frame_top }
    }
}

/// The state of restoring and saving one window.
///
/// While `target` is there a restore is in progress, and nothing is saved.
#[derive(Clone, Copy, Debug, PartialEq, Eq, Structural)]
pub struct RestoreWindows {
    pub platform: Platform,
    /// The patches in force.
    pub workarounds: Workarounds,
    pub winit_info: WinitInfo,
    /// The target of the restore in progress.
    pub target: Option<TargetPosition>,
    /// Whether the target position needs no more compensation for the frame.
    pub frame_compensated: bool,
    /// The protection of the restored size, while it lasts.
    pub protection: Option<DragBackSizeProtection>,
    /// What was last seen of the window when saving.
    pub cached: CachedWindowState,
}

impl RestoreWindows {
    /// What is known at startup of a window with these sizes and this position.
    pub open spec fn winit_info_of(
        outer_size: UVec2,
        inner_size: UVec2,
        outer_position: Option<IVec2>,
        monitors: Seq<MonitorInfo>,
    ) -> WinitInfo {
        WinitInfo {
            starting_monitor_index: match outer_position {
                Some(pos) => nearest_index(monitors, pos.x as int, pos.y as int),
                None => nearest_index(monitors, 0, 0),
            } as usize,
            window_decoration: decoration_between(outer_size, inner_size),
        }
    }

    /// The state in which a restore of `saved` starts.
    pub open spec fn started(
        saved: Option<WindowState>,
        winit_info: WinitInfo,
        monitors: Seq<MonitorInfo>,
        platform: Platform,
        workarounds: Workarounds,
        video_modes: Seq<VideoMode>,
    ) -> RestoreWindows {
        RestoreWindows {
            platform,
            workarounds,
            winit_info,
            target: match saved {
                Some(state) => target_for(
                    state,
                    monitors,
                    winit_info,
                    platform,
                    workarounds,
                    video_modes,
                ),
                None => None,
            },
            frame_compensated: !(platform is X11 && workarounds.frame_extent_compensation),
            protection: None,
            cached: CachedWindowState::empty(),
        }
    }

    /// The window after startup: moved toward the target where there is one,
    /// and untouched where there is none.
    pub open spec fn window_started(self, window: Window) -> Window {
        match self.target {
            Some(target) => moved_to_target(window, target),
            None => window,
        }
    }

    /// Whether the frame extents are settled after a frame with `events`.
    pub open spec fn settled(self, events: FrameEvents) -> bool {
        ||| self.frame_compensated
        ||| self.target matches Some(target) && target.position is None
        ||| events.frame_top is Some
    }

    /// The target of this frame, compensated for the frame extents where
    /// that is still due.
    pub open spec fn target_of_frame(self, events: FrameEvents) -> TargetPosition
        recommends
            self.target is Some,
    {
        if self.frame_compensated {
            self.target.unwrap()
        } else {
            compensated_target(self.target.unwrap(), events.frame_top)
        }
    }

    /// The state after a frame.
    ///
    /// While a restore is in progress the frame belongs to it: once the
    /// frame extents are settled the restore goes a step on, and where it
    /// completes, the target goes and the protection comes. Otherwise the
    /// protection, where there is one, is taken through its steps, and the
    /// cache takes in what the window then shows.
    pub open spec fn after_frame(
        self,
        window: Window,
        monitors: Seq<MonitorInfo>,
        existing_monitor: Option<CurrentMonitor>,
        events: FrameEvents,
    ) -> RestoreWindows {
        if self.target is Some {
            let target = self.target_of_frame(events);
            if !self.settled(events) {
                RestoreWindows { target: Some(target), ..self }
            } else {
                let scale_changed = events.scale_changed is Some;
                let outcome = outcome_of_frame(
                    target,
                    scale_changed,
                    self.platform,
                    self.workarounds,
                );
                if outcome.status is Complete {
                    RestoreWindows {
                        target: None,
                        frame_compensated: true,
                        protection: outcome.protection,
                        ..self
                    }
                } else {
                    RestoreWindows {
                        target: Some(
                            target_after_frame(
                                target,
                                scale_changed,
                                self.platform,
                                self.workarounds,
                            ),
                        ),
                        frame_compensated: true,
                        ..self
                    }
                }
            }
        } else {
            RestoreWindows {
                protection: self.protection_after_frame(window, events),
                cached: seen(
                    self.window_after_frame(window, events),
                    monitors,
                    existing_monitor,
                    self.platform,
                ),
                ..self
            }
        }
    }

    /// The protection after a frame in which no restore is in progress.
    pub open spec fn protection_after_frame(
        self,
        window: Window,
        events: FrameEvents,
    ) -> Option<DragBackSizeProtection> {
        match self.protection {
            Some(protection) => {
                if events.resized && protection.shows_user_resize(
                    window.spec_physical_size(),
                    window.scale_factor,
                ) {
                    None
                } else {
                    let advanced = protection.after_scale_change(events.scale_changed);
                    if advanced.correction_due(window.spec_physical_size(), events.resized) {
                        None
                    } else {
                        Some(advanced)
                    }
                }
            },
            None => None,
        }
    }

    /// The window after a frame.
    pub open spec fn window_after_frame(self, window: Window, events: FrameEvents) -> Window {
        match self.target {
            Some(_) => {
                if self.settled(events) {
                    window_after_frame(
                        self.target_of_frame(events),
                        window,
                        events.scale_changed is Some,
                        self.platform,
                        self.workarounds,
                    )
                } else {
                    window
                }
            },
            None => match self.protection {
                Some(protection) => {
                    if events.resized && protection.shows_user_resize(
                        window.spec_physical_size(),
                        window.scale_factor,
                    ) {
                        window
                    } else {
                        protection.after_scale_change(events.scale_changed).after_correction(
                            window,
                            events.resized,
                        )
                    }
                },
                None => window,
            },
        }
    }

    /// What a frame gives to save.
    pub open spec fn saved_in_frame(
        self,
        window: Window,
        monitors: Seq<MonitorInfo>,
        existing_monitor: Option<CurrentMonitor>,
        events: FrameEvents,
        app_name: String,
    ) -> Option<WindowState> {
        let shown = self.window_after_frame(window, events);
        if self.target is None && changed_since(self.cached, shown, monitors) {
            Some(state_of(shown, monitors, existing_monitor, self.platform, app_name))
        } else {
            None
        }
    }

    /// Whether `update` can be called for this frame. While a restore is in
    /// progress the frame extent, where it is about to be taken off the target
    /// position, must leave it in range. Otherwise there must be a monitor
    /// where saving looks one up.
    pub open spec fn accepts(
        self,
        window: Window,
        monitors: Seq<MonitorInfo>,
        existing_monitor: Option<CurrentMonitor>,
        events: FrameEvents,
    ) -> bool {
        match self.target {
            Some(target) => self.frame_compensated || extent_fits(
                target.position,
                events.frame_top,
            ),
            None => save_looks_up_monitor(window, existing_monitor, self.platform)
                ==> monitors.len() > 0,
        }
    }

    /// Tell whether `update` can be called for this frame.
    pub fn can_update(
        &self,
        window: &Window,
        monitors: &Monitors,
        existing_monitor: Option<&CurrentMonitor>,
        events: &FrameEvents,
    ) -> (r: bool)
        ensures
            r == self.accepts(*window, monitors@, spec_copied(existing_monitor), *events),
    {
        match self.target {
            Some(target) => {
                if self.frame_compensated {
                    return true;
                }
                match (target.position, events.frame_top) {
                    (Some(pos), Some(top)) => {
                        let row = pos.y as i64 - top as i64;
                        -0x8000_0000 <= row && row <= 0x7fff_ffff
                    },
                    _ => true,
                }
            },
            None => !looks_up_monitor(window, existing_monitor, self.platform) || monitors.len()
                > 0,
        }
    }

    /// Begin the restore of `saved`, before the first frame.
    ///
    /// Records the window's decoration and starting monitor, computes the
    /// target, and moves the window toward it. Where nothing was saved, or
    /// the saved monitor is gone, there is no target and the window is left
    /// as it is. `video_modes` are the video modes that the saved monitor
    /// offers.
    pub fn startup(
        saved: Option<&WindowState>,
        outer_size: UVec2,
        inner_size: UVec2,
        outer_position: Option<IVec2>,
        monitors: &Monitors,
        platform: Platform,
        workarounds: Workarounds,
        video_modes: &Vec<VideoMode>,
        window: &mut Window,
    ) -> (r: (RestoreWindows, CurrentMonitor))
        requires
            monitors@.len() > 0,
        ensures
            r.0 == Self::started(
                match saved {
                    Some(state) => Some(*state),
                    None => None,
                },
                Self::winit_info_of(outer_size, inner_size, outer_position, monitors@),
                monitors@,
                platform,
                workarounds,
                video_modes@,
            ),
            r.1 == CurrentMonitor(monitors@[r.0.winit_info.starting_monitor_index as int]),
            *final(window) == r.0.window_started(*old(window)),
    {
        let (winit_info, current_monitor) = init_winit_info(
            outer_size,
            inner_size,
            outer_position,
            monitors,
        );
        let target = load_target_position(
            saved,
            monitors,
            &winit_info,
            platform,
            workarounds,
            video_modes,
        );
        if let Some(target) = &target {
            move_to_target_monitor(window, target);
        }
        let frame_compensated = match platform {
            Platform::X11 => !workarounds.frame_extent_compensation,
            _ => true,
        };
        (
            RestoreWindows {
                platform,
                workarounds,
                winit_info,
                target,
                frame_compensated,
                protection: None,
                cached: CachedWindowState::default(),
            },
            current_monitor,
        )
    }

    /// Take the restore, or else the saving, through one frame.
    ///
    /// The outcome names the state to write, where there is one; while a
    /// restore is in progress there is none.
    pub fn update(
        &mut self,
        window: &mut Window,
        monitors: &Monitors,
        existing_monitor: Option<&CurrentMonitor>,
        events: &FrameEvents,
        app_name: String,
    ) -> (r: SaveOutcome)
        requires
            old(self).accepts(*old(window), monitors@, spec_copied(existing_monitor), *events),
        ensures
            *final(self) == old(self).after_frame(
                *old(window),
                monitors@,
                spec_copied(existing_monitor),
                *events,
            ),
            *final(window) == old(self).window_after_frame(*old(window), *events),
            r.state == old(self).saved_in_frame(
                *old(window),
                monitors@,
                spec_copied(existing_monitor),
                *events,
                app_name,
            ),
            old(self).target is Some ==> r.state is None && r.current_monitor is None,
            old(self).target is None ==> r.current_monitor == if old(self).platform is Wayland {
                None
            } else {
                Some(CurrentMonitor(monitors@[final(window).monitor_index(monitors@)]))
            },
    {
        if let Some(mut target) = self.target {
            if !self.frame_compensated {
                self.frame_compensated = compensate_target_position(&mut target, events.frame_top);
            }
            if self.frame_compensated {
                let outcome = restore_primary_window(
                    events.scale_changed.is_some(),
                    &mut target,
                    window,
                    self.platform,
                    self.workarounds,
                );
                match outcome.status {
                    RestoreStatus::Complete => {
                        self.target = None;
                        self.protection = outcome.protection;
                    },
                    RestoreStatus::Waiting => {
                        self.target = Some(target);
                    },
                }
            } else {
                self.target = Some(target);
            }
            return SaveOutcome { current_monitor: None, state: None };
        }
        if let Some(mut protection) = self.protection {
            if detect_user_resize(&protection, window, events.resized) {
                self.protection = None;
            } else {
                handle_drag_back_scale_change(&mut protection, events.scale_changed);
                if apply_pending_correction(&protection, window, events.resized) {
                    self.protection = None;
                } else {
                    self.protection = Some(protection);
                }
            }
        }
        save_window_state(
            window,
            monitors,
            existing_monitor,
            &mut self.cached,
            self.platform,
            app_name,
        )
    }
}

impl RestoreWindows {
    /// The state and the window after the frames of `frames`, in turn.
    pub open spec fn after_frames(
        self,
        window: Window,
        monitors: Seq<MonitorInfo>,
        existing_monitor: Option<CurrentMonitor>,
        frames: Seq<FrameEvents>,
    ) -> (RestoreWindows, Window)
        decreases frames.len(),
    {
        if frames.len() == 0 {
            (self, window)
        } else {
            let (state, shown) = self.after_frames(
                window,
                monitors,
                existing_monitor,
                frames.drop_last(),
            );
            (
                state.after_frame(shown, monitors, existing_monitor, frames.last()),
                state.window_after_frame(shown, frames.last()),
            )
        }
    }

    /// Whether a windowed restore toward a lower scale waits for the scale to
    /// change.
    pub open spec fn awaits_scale_change(self) -> bool {
        &&& self.target matches Some(target)
        &&& target.mode is Windowed
        &&& target.monitor_scale_strategy == MonitorScaleStrategy::HigherToLower(
            WindowRestoreState::WaitingForScaleChange,
        )
    }
}

/// A restore that waits for the scale to change goes on waiting through any
/// number of frames in which the scale does not change. The window is not
/// touched, the size of the target stays, and once the frame extents are
/// settled nothing changes at all.
pub proof fn lemma_waiting_lasts(
    state: RestoreWindows,
    window: Window,
    monitors: Seq<MonitorInfo>,
    existing_monitor: Option<CurrentMonitor>,
    frames: Seq<FrameEvents>,
)
    requires
        state.awaits_scale_change(),
        forall|i: int| 0 <= i < frames.len() ==> (#[trigger] frames[i]).scale_changed is None,
    ensures
        ({
            let (end, shown) = state.after_frames(window, monitors, existing_monitor, frames);
            &&& end.awaits_scale_change()
            &&& end.target.unwrap().width == state.target.unwrap().width
            &&& end.target.unwrap().height == state.target.unwrap().height
            &&& end.target.unwrap().position is None <==> state.target.unwrap().position is None
            &&& shown == window
            &&& state.frame_compensated ==> end == state
        }),
    decreases frames.len(),
{
    if frames.len() > 0 {
        lemma_waiting_lasts(state, window, monitors, existing_monitor, frames.drop_last());
        assert(frames.last() == frames[frames.len() - 1]);
    }
}

/// A windowed restore toward a lower scale is complete in the very frame in
/// which the change of scale is reported, however many frames have passed
/// before. The window then has the size of the target exactly, is visible,
/// and is where the first move has put it.
///
/// Under X11 the frame extents must be known by that frame.
pub proof fn lemma_higher_to_lower_converges(
    state: RestoreWindows,
    window: Window,
    monitors: Seq<MonitorInfo>,
    existing_monitor: Option<CurrentMonitor>,
    frames: Seq<FrameEvents>,
    notified: FrameEvents,
)
    requires
        state.awaits_scale_change(),
        forall|i: int| 0 <= i < frames.len() ==> (#[trigger] frames[i]).scale_changed is None,
        notified.scale_changed is Some,
        state.settled(notified),
    ensures
        ({
            let (end, shown) = state.after_frames(
                window,
                monitors,
                existing_monitor,
                frames.push(notified),
            );
            &&& end.target is None
            &&& shown.physical_width == state.target.unwrap().width
            &&& shown.physical_height == state.target.unwrap().height
            &&& shown.visible
            &&& shown.position == window.position
        }),
{
    lemma_waiting_lasts(state, window, monitors, existing_monitor, frames);
    assert(frames.push(notified).drop_last() =~= frames);
    assert(frames.push(notified).last() == notified);
}

/// A restore of a windowed state from a higher to a lower scale, on a
/// platform where positions are compensated, starts in the state that
/// [`lemma_higher_to_lower_converges`] speaks of. Its target has the size
/// that was saved, unless the window is cut to keep it off a monitor of
/// another scale.
pub proof fn lemma_higher_to_lower_starts_waiting(
    saved: WindowState,
    winit_info: WinitInfo,
    monitors: Seq<MonitorInfo>,
    platform: Platform,
    workarounds: Workarounds,
    video_modes: Seq<VideoMode>,
)
    requires
        saved.mode is Windowed,
        saved.monitor_index < monitors.len(),
        platform is MacOs || platform is X11,
        workarounds.scale_compensation,
        !scales_match(
            starting_scale_of(monitors, winit_info),
            monitors[saved.monitor_index as int].scale,
        ),
        starting_scale_of(monitors, winit_info) > monitors[saved.monitor_index as int].scale,
    ensures
        ({
            let start = RestoreWindows::started(
                Some(saved),
                winit_info,
                monitors,
                platform,
                workarounds,
                video_modes,
            );
            let cut = cuts_size(
                saved,
                monitors,
                UVec2 {
                    x: winit_info.window_decoration.width,
                    y: winit_info.window_decoration.height,
                },
                monitors[saved.monitor_index as int],
                platform,
            );
            &&& start.awaits_scale_change()
            &&& !cut ==> start.target.unwrap().width == saved.width
            &&& !cut ==> start.target.unwrap().height == saved.height
        }),
{
}

/// A restore in progress takes no notice of resizes: whether or not the
/// window was resized in a frame, the frame ends the same.
pub proof fn lemma_restore_ignores_resizes(
    state: RestoreWindows,
    window: Window,
    monitors: Seq<MonitorInfo>,
    existing_monitor: Option<CurrentMonitor>,
    events: FrameEvents,
    app_name: String,
)
    requires
        state.target is Some,
    ensures
        ({
            let other = FrameEvents { resized: !events.resized, ..events };
            &&& state.after_frame(window, monitors, existing_monitor, other) == state.after_frame(
                window,
                monitors,
                existing_monitor,
                events,
            )
            &&& state.window_after_frame(window, other) == state.window_after_frame(window, events)
            &&& state.saved_in_frame(window, monitors, existing_monitor, events, app_name) is None
        }),
{
}

/// The steps of a restore are taken forward only: a frame never takes a
/// target back to waiting for the scale to change or for the first drawing,
/// and never takes a protection back to waiting for the drag back.
pub proof fn lemma_steps_go_forward(
    state: RestoreWindows,
    window: Window,
    monitors: Seq<MonitorInfo>,
    existing_monitor: Option<CurrentMonitor>,
    events: FrameEvents,
)
    ensures
        ({
            let next = state.after_frame(window, monitors, existing_monitor, events);
            &&& state.target is None ==> next.target is None
            &&& (state.target is Some && next.target is Some) ==> {
                &&& next.target.unwrap().monitor_scale_strategy
                    == MonitorScaleStrategy::HigherToLower(
                    WindowRestoreState::WaitingForScaleChange,
                ) ==> state.target.unwrap().monitor_scale_strategy
                    == next.target.unwrap().monitor_scale_strategy
                &&& next.target.unwrap().fullscreen_restore_state is WaitingForSurface
                    ==> state.target.unwrap().fullscreen_restore_state is WaitingForSurface
            }
            &&& (state.target is None && state.protection is Some && next.protection is Some) ==> (
            next.protection.unwrap().state is WaitingForDragBack
                ==> state.protection.unwrap().state is WaitingForDragBack)
        }),
{
}

/// Where nothing was saved no restore begins: there is no target at startup
/// and none in any later frame, and the window is touched neither at startup
/// nor in any frame.
pub proof fn lemma_nothing_saved_nothing_restored(
    winit_info: WinitInfo,
    monitors: Seq<MonitorInfo>,
    platform: Platform,
    workarounds: Workarounds,
    video_modes: Seq<VideoMode>,
    window: Window,
    existing_monitor: Option<CurrentMonitor>,
    frames: Seq<FrameEvents>,
)
    ensures
        ({
            let start = RestoreWindows::started(
                None,
                winit_info,
                monitors,
                platform,
                workarounds,
                video_modes,
            );
            let (end, shown) = start.after_frames(window, monitors, existing_monitor, frames);
            &&& start.target is None
            &&& start.window_started(window) == window
            &&& end.target is None
            &&& end.protection is None
            &&& shown == window
        }),
    decreases frames.len(),
{
    if frames.len() > 0 {
        lemma_nothing_saved_nothing_restored(
            winit_info,
            monitors,
            platform,
            workarounds,
            video_modes,
            window,
            existing_monitor,
            frames.drop_last(),
        );
    }
}

/// The window that `saved` describes, with what it does not describe taken
/// from `window`.
pub open spec fn window_as_saved(saved: WindowState, window: Window) -> Window {
    Window {
        position: match saved.position {
            Some((x, y)) => WindowPosition::At(IVec2 { x, y }),
            None => window.position,
        },
        physical_width: saved.width,
        physical_height: saved.height,
        ..window
    }
}

/// Whether `saved` is restored to just what it says, so that the window then
/// shows what was saved.
///
/// This asks that the window is windowed, before and after; that the scales
/// of the starting and the saved monitor call for no compensation; that the
/// saved position, where there is one, lies within the saved monitor and is
/// not shifted for the frame; that without a saved position the window has
/// none either; that the window as saved neither fills its monitor nor is
/// found on another monitor than the saved one.
pub open spec fn restores_in_place(
    saved: WindowState,
    winit_info: WinitInfo,
    monitors: Seq<MonitorInfo>,
    platform: Platform,
    workarounds: Workarounds,
    window: Window,
    existing_monitor: Option<CurrentMonitor>,
    frame_top: Option<i32>,
) -> bool {
    let placed = window_as_saved(saved, window);
    &&& saved.monitor_index < monitors.len()
    &&& saved.mode is Windowed
    &&& window.mode is Windowed
    &&& strategy_for(
        starting_scale_of(monitors, winit_info),
        monitors[saved.monitor_index as int].scale,
        platform,
        workarounds,
    ) is ApplyUnchanged
    &&& match saved.position {
        Some((x, y)) => {
            &&& platform is Wayland || lies_within(
                IVec2 { x, y },
                UVec2 { x: saved.width, y: saved.height },
                UVec2 {
                    x: winit_info.window_decoration.width,
                    y: winit_info.window_decoration.height,
                },
                monitors[saved.monitor_index as int],
            )
            &&& platform is X11 && workarounds.frame_extent_compensation ==> frame_top == Some(
                0i32,
            )
        },
        None => !(window.position is At),
    }
    &&& !placed.fills(monitors[placed.monitor_index(monitors)])
    &&& if platform is Wayland {
        match existing_monitor {
            Some(current) => current.0.index == saved.monitor_index,
            None => saved.monitor_index == 0,
        }
    } else {
        placed.is_on(monitors, saved.monitor_index as int)
    }
}

/// Restoring and then saving, with nothing done to the window in between,
/// writes what was read: the same position, size, mode and monitor index.
///
/// The restore is complete after one frame, and the next frame saves. This
/// holds of a state that is restored to just what it says
/// ([`restores_in_place`]).
pub proof fn lemma_restore_then_save_is_stable(
    saved: WindowState,
    winit_info: WinitInfo,
    monitors: Seq<MonitorInfo>,
    platform: Platform,
    workarounds: Workarounds,
    video_modes: Seq<VideoMode>,
    window: Window,
    existing_monitor: Option<CurrentMonitor>,
    first: FrameEvents,
    second: FrameEvents,
    app_name: String,
)
    requires
        is_indexed(monitors),
        restores_in_place(
            saved,
            winit_info,
            monitors,
            platform,
            workarounds,
            window,
            existing_monitor,
            first.frame_top,
        ),
    ensures
        ({
            let start = RestoreWindows::started(
                Some(saved),
                winit_info,
                monitors,
                platform,
                workarounds,
                video_modes,
            );
            let moved = start.window_started(window);
            let restored = start.after_frame(moved, monitors, existing_monitor, first);
            let shown = start.window_after_frame(moved, first);
            let written = restored.saved_in_frame(
                shown,
                monitors,
                existing_monitor,
                second,
                app_name,
            );
            &&& start.target is Some
            &&& restored.target is None
            &&& shown == window_as_saved(saved, window)
            &&& written matches Some(state)
            &&& state.position == saved.position
            &&& state.width == saved.width
            &&& state.height == saved.height
            &&& state.mode == saved.mode
            &&& state.monitor_index == saved.monitor_index
        }),
{
    let placed = window_as_saved(saved, window);
    if !(platform is Wayland) {
        match placed.center() {
            Some((x, y)) => {
                lemma_first_nearest_unique(monitors, x, y, saved.monitor_index as int);
            },
            None => {},
        }
    }
    let start = RestoreWindows::started(
        Some(saved),
        winit_info,
        monitors,
        platform,
        workarounds,
        video_modes,
    );
    let moved = start.window_started(window);
    let shown = start.window_after_frame(moved, first);
    assert(shown == placed);
}

} // verus!
