use restore_windows::macos_drag_back_fix::CorrectionState;
use restore_windows::macos_drag_back_fix::DragBackSizeProtection;
use restore_windows::monitors::build_monitors;
use restore_windows::monitors::CurrentMonitor;
use restore_windows::monitors::Monitor;
use restore_windows::monitors::Monitors;
use restore_windows::systems::CachedWindowState;
use restore_windows::types::FullscreenRestoreState;
use restore_windows::types::IVec2;
use restore_windows::types::MonitorScaleStrategy;
use restore_windows::types::MonitorSelection;
use restore_windows::types::Platform;
use restore_windows::types::SavedVideoMode;
use restore_windows::types::SavedWindowMode;
use restore_windows::types::UVec2;
use restore_windows::types::VideoMode;
use restore_windows::types::VideoModeSelection;
use restore_windows::types::WindowDecoration;
use restore_windows::types::WindowMode;
use restore_windows::types::WindowRestoreState;
use restore_windows::types::WindowState;
use restore_windows::types::WinitInfo;
use restore_windows::types::Workarounds;
use restore_windows::window_ext::Window;
use restore_windows::window_ext::WindowPosition;
use restore_windows::FrameEvents;
use restore_windows::Notification;
use restore_windows::RestoreWindows;

fn display(x: i32, y: i32, width: u32, height: u32, scale_factor: u32) -> Monitor {
    Monitor {
        scale_factor,
        physical_position: IVec2::new(x, y),
        physical_width: width,
        physical_height: height,
    }
}

/// Monitor A at the origin, 3000x2000 at scale 2; monitor B at (3000, 0),
/// 1920x1080 at scale 1.
fn two_monitors() -> Monitors {
    build_monitors(&vec![
        display(3000, 0, 1920, 1080, 1000),
        display(0, 0, 3000, 2000, 2000),
    ])
}

fn saved(position: Option<(i32, i32)>, monitor_index: usize, mode: SavedWindowMode) -> WindowState {
    WindowState {
        position,
        width: 800,
        height: 600,
        monitor_index,
        mode,
        app_name: String::from("demo"),
    }
}

fn fresh_window() -> Window {
    Window {
        position: WindowPosition::Automatic,
        physical_width: 1280,
        physical_height: 720,
        scale_factor: 2000,
        mode: WindowMode::Windowed,
        visible: true,
        focused: true,
    }
}

fn quiet() -> FrameEvents {
    FrameEvents {
        scale_changed: None,
        resized: false,
        frame_top: None,
    }
}

fn start(
    state: Option<&WindowState>,
    outer_position: (i32, i32),
    monitors: &Monitors,
    platform: Platform,
    window: &mut Window,
) -> RestoreWindows {
    let size = UVec2::new(window.physical_width, window.physical_height);
    RestoreWindows::startup(
        state,
        size,
        size,
        Some(IVec2::new(outer_position.0, outer_position.1)),
        monitors,
        platform,
        Workarounds::all(),
        &Vec::new(),
        window,
    )
    .0
}

#[test]
fn notifications_coalesce_to_the_last_of_each_kind() {
    assert_eq!(
        FrameEvents::coalesce(
            &vec![
                Notification::Resized,
                Notification::ScaleFactorChanged(1000),
                Notification::ScaleFactorChanged(2000),
                Notification::Resized,
            ],
            Some(28)
        ),
        FrameEvents {
            scale_changed: Some(2000),
            resized: true,
            frame_top: Some(28)
        }
    );
    assert_eq!(
        FrameEvents::coalesce(&vec![Notification::ScaleFactorChanged(1500)], None),
        FrameEvents {
            scale_changed: Some(1500),
            resized: false,
            frame_top: None
        }
    );
    assert_eq!(
        FrameEvents::coalesce(&vec![Notification::Resized], None),
        FrameEvents {
            scale_changed: None,
            resized: true,
            frame_top: None
        }
    );
    assert_eq!(FrameEvents::coalesce(&Vec::new(), None), quiet());
}

#[test]
fn startup_records_what_is_known_of_the_window() {
    let monitors = two_monitors();
    let mut window = fresh_window();
    let (session, current) = RestoreWindows::startup(
        None,
        UVec2::new(1282, 748),
        UVec2::new(1280, 720),
        Some(IVec2::new(3500, 10)),
        &monitors,
        Platform::X11,
        Workarounds::all(),
        &Vec::new(),
        &mut window,
    );
    assert_eq!(
        session,
        RestoreWindows {
            platform: Platform::X11,
            workarounds: Workarounds::all(),
            winit_info: WinitInfo {
                starting_monitor_index: 1,
                window_decoration: WindowDecoration {
                    width: 2,
                    height: 28
                },
            },
            target: None,
            frame_compensated: false,
            protection: None,
            cached: CachedWindowState::default(),
        }
    );
    assert_eq!(current, CurrentMonitor(*monitors.by_index(1).unwrap()));
}

#[test]
fn without_a_saved_state_nothing_is_restored() {
    let monitors = two_monitors();
    let mut window = fresh_window();
    let mut session = start(None, (100, 100), &monitors, Platform::MacOs, &mut window);
    assert_eq!(session.target, None);
    assert_eq!(window, fresh_window());
    for _ in 0..3 {
        session.update(
            &mut window,
            &monitors,
            None,
            &FrameEvents {
                scale_changed: Some(1000),
                resized: true,
                frame_top: Some(28),
            },
            String::from("demo"),
        );
        assert_eq!(session.target, None);
        assert_eq!(session.protection, None);
        assert_eq!(window, fresh_window());
    }
}

#[test]
fn restore_from_the_high_scale_monitor_to_the_low_scale_monitor() {
    let monitors = two_monitors();
    let state = saved(Some((3100, 100)), 1, SavedWindowMode::Windowed);
    let mut window = fresh_window();
    let mut session = start(Some(&state), (100, 100), &monitors, Platform::MacOs, &mut window);

    assert_eq!(session.winit_info.starting_monitor_index, 0);
    let target = session.target.unwrap();
    assert_eq!(
        target.monitor_scale_strategy,
        MonitorScaleStrategy::HigherToLower(WindowRestoreState::WaitingForScaleChange)
    );
    assert_eq!(target.position, Some(IVec2::new(3100, 100)));
    assert_eq!(target.size(), UVec2::new(800, 600));
    assert_eq!(target.starting_scale, 2000);
    assert_eq!(target.target_scale, 1000);
    assert_eq!(monitors.at(3100, 100).unwrap().index, 1);

    let moved = Window {
        position: WindowPosition::At(IVec2::new(6200, 200)),
        physical_width: 1,
        physical_height: 1,
        visible: false,
        ..fresh_window()
    };
    assert_eq!(window, moved);

    for _ in 0..5 {
        let outcome = session.update(&mut window, &monitors, None, &quiet(), String::from("demo"));
        assert_eq!(outcome.state, None);
        assert_eq!(outcome.current_monitor, None);
        assert_eq!(session.target, Some(target));
        assert_eq!(window, moved);
    }

    let notified = FrameEvents {
        scale_changed: Some(1000),
        resized: false,
        frame_top: None,
    };
    let outcome = session.update(&mut window, &monitors, None, &notified, String::from("demo"));
    assert_eq!(outcome.state, None);
    assert_eq!(session.target, None);
    assert_eq!(
        window,
        Window {
            position: WindowPosition::At(IVec2::new(6200, 200)),
            physical_width: 800,
            physical_height: 600,
            visible: true,
            ..fresh_window()
        }
    );
    assert_eq!(
        session.protection,
        Some(DragBackSizeProtection {
            expected_physical_size: UVec2::new(800, 600),
            launch_scale: 2000,
            restored_scale: 1000,
            phase1_cached_size: UVec2::new(1, 1),
            state: CorrectionState::WaitingForDragBack,
        })
    );
}

#[test]
fn restore_then_save_writes_what_was_read() {
    let monitors = two_monitors();
    for platform in vec![Platform::MacOs, Platform::Windows] {
        let state = saved(Some((3100, 100)), 1, SavedWindowMode::Windowed);
        let mut window = fresh_window();
        let mut session = start(Some(&state), (3500, 10), &monitors, platform, &mut window);
        assert_eq!(
            session.target.unwrap().monitor_scale_strategy,
            MonitorScaleStrategy::ApplyUnchanged
        );
        let first = session.update(&mut window, &monitors, None, &quiet(), String::from("demo"));
        assert_eq!(first.state, None);
        assert_eq!(session.target, None);
        assert_eq!(session.protection, None);
        let second = session.update(&mut window, &monitors, None, &quiet(), String::from("demo"));
        assert_eq!(second.state, Some(state));
        assert_eq!(
            second.current_monitor,
            Some(CurrentMonitor(*monitors.by_index(1).unwrap()))
        );
        let third = session.update(&mut window, &monitors, None, &quiet(), String::from("demo"));
        assert_eq!(third.state, None);
    }
}

#[test]
fn restore_then_save_under_x11_with_no_frame() {
    let monitors = two_monitors();
    let state = saved(Some((3100, 100)), 1, SavedWindowMode::Windowed);
    let mut window = fresh_window();
    let mut session = start(Some(&state), (3500, 10), &monitors, Platform::X11, &mut window);
    assert!(!session.frame_compensated);
    let waiting = session.update(&mut window, &monitors, None, &quiet(), String::from("demo"));
    assert_eq!(waiting.state, None);
    assert!(session.target.is_some());
    assert!(!session.frame_compensated);
    let events = FrameEvents {
        scale_changed: None,
        resized: false,
        frame_top: Some(0),
    };
    session.update(&mut window, &monitors, None, &events, String::from("demo"));
    assert_eq!(session.target, None);
    assert!(session.frame_compensated);
    let written = session.update(&mut window, &monitors, None, &quiet(), String::from("demo"));
    assert_eq!(written.state, Some(state));
}

#[test]
fn restore_under_x11_takes_the_frame_off_the_position() {
    let monitors = two_monitors();
    let state = saved(Some((3100, 100)), 1, SavedWindowMode::Windowed);
    let mut window = fresh_window();
    let mut session = start(Some(&state), (3500, 10), &monitors, Platform::X11, &mut window);
    let events = FrameEvents {
        scale_changed: None,
        resized: false,
        frame_top: Some(37),
    };
    session.update(&mut window, &monitors, None, &events, String::from("demo"));
    assert_eq!(session.target, None);
    assert_eq!(window.position, WindowPosition::At(IVec2::new(3100, 63)));
    assert_eq!((window.physical_width, window.physical_height), (800, 600));
}

#[test]
fn restore_under_wayland_without_a_position() {
    let monitors = two_monitors();
    let state = saved(None, 1, SavedWindowMode::Windowed);
    let kept = CurrentMonitor(*monitors.by_index(1).unwrap());
    let mut window = fresh_window();
    let mut session = start(Some(&state), (0, 0), &monitors, Platform::Wayland, &mut window);
    assert_eq!(
        window,
        Window {
            physical_width: 800,
            physical_height: 600,
            ..fresh_window()
        }
    );
    session.update(&mut window, &monitors, Some(&kept), &quiet(), String::from("demo"));
    assert_eq!(session.target, None);
    let written = session.update(&mut window, &monitors, Some(&kept), &quiet(), String::from("demo"));
    assert_eq!(written.state, Some(state));
    assert_eq!(written.current_monitor, None);
}

#[test]
fn exclusive_fullscreen_is_restored_borderless_where_unsupported() {
    let monitors = two_monitors();
    let mode = SavedVideoMode {
        physical_size: UVec2::new(1920, 1080),
        bit_depth: 32,
        refresh_rate_millihertz: 60000,
    };
    let state = saved(
        None,
        0,
        SavedWindowMode::Fullscreen {
            video_mode: Some(mode),
        },
    );
    let offered = vec![VideoMode {
        physical_size: UVec2::new(1920, 1080),
        bit_depth: 32,
        refresh_rate_millihertz: 60000,
    }];
    let mut window = fresh_window();
    let (mut session, _) = RestoreWindows::startup(
        Some(&state),
        UVec2::new(1280, 720),
        UVec2::new(1280, 720),
        None,
        &monitors,
        Platform::Wayland,
        Workarounds::all(),
        &offered,
        &mut window,
    );
    assert_eq!(session.target.unwrap().mode, state.mode);
    assert_eq!(window, fresh_window());
    session.update(&mut window, &monitors, None, &quiet(), String::from("demo"));
    assert_eq!(session.target, None);
    assert_eq!(
        window,
        Window {
            mode: WindowMode::BorderlessFullscreen(MonitorSelection::Index(0)),
            ..fresh_window()
        }
    );
}

#[test]
fn exclusive_fullscreen_is_restored_where_supported() {
    let monitors = two_monitors();
    let state = saved(
        Some((3100, 100)),
        1,
        SavedWindowMode::Fullscreen { video_mode: None },
    );
    let mut window = fresh_window();
    let mut session = start(Some(&state), (100, 100), &monitors, Platform::MacOs, &mut window);
    assert_eq!(
        window,
        Window {
            position: WindowPosition::At(IVec2::new(3100, 100)),
            ..fresh_window()
        }
    );
    session.update(&mut window, &monitors, None, &quiet(), String::from("demo"));
    assert_eq!(session.target, None);
    assert_eq!(session.protection, None);
    assert_eq!(
        window.mode,
        WindowMode::Fullscreen(MonitorSelection::Index(1), VideoModeSelection::Current)
    );
}

#[test]
fn fullscreen_on_windows_takes_two_frames() {
    let monitors = two_monitors();
    let state = saved(Some((3100, 100)), 1, SavedWindowMode::BorderlessFullscreen);
    let mut window = fresh_window();
    let mut session = start(Some(&state), (100, 100), &monitors, Platform::Windows, &mut window);
    assert_eq!(
        session.target.unwrap().fullscreen_restore_state,
        FullscreenRestoreState::WaitingForSurface
    );
    session.update(&mut window, &monitors, None, &quiet(), String::from("demo"));
    assert_eq!(
        session.target.unwrap().fullscreen_restore_state,
        FullscreenRestoreState::ApplyFullscreen
    );
    assert_eq!(window.mode, WindowMode::Windowed);
    session.update(&mut window, &monitors, None, &quiet(), String::from("demo"));
    assert_eq!(session.target, None);
    assert_eq!(
        window.mode,
        WindowMode::BorderlessFullscreen(MonitorSelection::Index(1))
    );
}

#[test]
fn a_vanished_monitor_leaves_the_window_alone() {
    let monitors = two_monitors();
    let state = saved(Some((3100, 100)), 2, SavedWindowMode::Windowed);
    let mut window = fresh_window();
    let session = start(Some(&state), (100, 100), &monitors, Platform::MacOs, &mut window);
    assert_eq!(session.target, None);
    assert_eq!(window, fresh_window());
}

#[test]
fn nothing_is_saved_while_a_restore_is_in_progress() {
    let monitors = two_monitors();
    let state = saved(Some((3100, 100)), 1, SavedWindowMode::Windowed);
    let mut window = fresh_window();
    let mut session = start(Some(&state), (100, 100), &monitors, Platform::MacOs, &mut window);
    let resized = FrameEvents {
        scale_changed: None,
        resized: true,
        frame_top: None,
    };
    for _ in 0..3 {
        window.physical_width += 10;
        let outcome = session.update(&mut window, &monitors, None, &resized, String::from("demo"));
        assert_eq!(outcome.state, None);
        assert_eq!(session.cached, CachedWindowState::default());
    }
}

#[test]
fn drag_back_to_the_launch_monitor_is_corrected() {
    let monitors = two_monitors();
    let state = saved(Some((3100, 100)), 1, SavedWindowMode::Windowed);
    let mut window = fresh_window();
    let mut session = start(Some(&state), (100, 100), &monitors, Platform::MacOs, &mut window);
    let notified = FrameEvents {
        scale_changed: Some(1000),
        resized: false,
        frame_top: None,
    };
    session.update(&mut window, &monitors, None, &notified, String::from("demo"));
    assert!(session.protection.is_some());

    // The window system reports where the window has landed.
    window.position = WindowPosition::At(IVec2::new(3100, 100));
    window.scale_factor = 1000;
    session.update(&mut window, &monitors, None, &quiet(), String::from("demo"));
    assert_eq!(
        session.protection.unwrap().state,
        CorrectionState::WaitingForDragBack
    );

    // The user drags the window back; the scale changes first.
    window.position = WindowPosition::At(IVec2::new(200, 100));
    window.scale_factor = 2000;
    let back = FrameEvents {
        scale_changed: Some(2000),
        resized: false,
        frame_top: None,
    };
    session.update(&mut window, &monitors, None, &back, String::from("demo"));
    assert_eq!(
        session.protection.unwrap().state,
        CorrectionState::PendingCorrection {
            corrected_size: UVec2::new(1600, 1200),
            wrong_cached_size: UVec2::new(1, 1),
        }
    );
    assert_eq!((window.physical_width, window.physical_height), (800, 600));

    // Then the remembered size arrives, and is corrected at once.
    window.physical_width = 2;
    window.physical_height = 2;
    let resized = FrameEvents {
        scale_changed: None,
        resized: true,
        frame_top: None,
    };
    let outcome = session.update(&mut window, &monitors, None, &resized, String::from("demo"));
    assert_eq!(session.protection, None);
    assert_eq!((window.physical_width, window.physical_height), (1600, 1200));
    let written = outcome.state.unwrap();
    assert_eq!((written.width, written.height), (1600, 1200));
    assert_eq!(written.monitor_index, 0);
}

#[test]
fn a_user_resize_ends_the_protection() {
    let monitors = two_monitors();
    let state = saved(Some((3100, 100)), 1, SavedWindowMode::Windowed);
    let mut window = fresh_window();
    let mut session = start(Some(&state), (100, 100), &monitors, Platform::MacOs, &mut window);
    let notified = FrameEvents {
        scale_changed: Some(1000),
        resized: false,
        frame_top: None,
    };
    session.update(&mut window, &monitors, None, &notified, String::from("demo"));
    window.position = WindowPosition::At(IVec2::new(3100, 100));
    window.scale_factor = 1000;
    window.physical_width = 900;
    let resized = FrameEvents {
        scale_changed: None,
        resized: true,
        frame_top: None,
    };
    let outcome = session.update(&mut window, &monitors, None, &resized, String::from("demo"));
    assert_eq!(session.protection, None);
    assert_eq!((window.physical_width, window.physical_height), (900, 600));
    assert_eq!(outcome.state.unwrap().width, 900);
}

#[test]
fn without_frame_extent_compensation_x11_restores_at_once() {
    let monitors = two_monitors();
    let off = Workarounds {
        frame_extent_compensation: false,
        ..Workarounds::all()
    };
    let state = saved(Some((3100, 100)), 1, SavedWindowMode::Windowed);
    let mut window = fresh_window();
    let (mut session, _) = RestoreWindows::startup(
        Some(&state),
        UVec2::new(1280, 720),
        UVec2::new(1280, 720),
        Some(IVec2::new(3500, 10)),
        &monitors,
        Platform::X11,
        off,
        &Vec::new(),
        &mut window,
    );
    assert!(session.frame_compensated);
    let events = FrameEvents {
        scale_changed: None,
        resized: false,
        frame_top: Some(37),
    };
    session.update(&mut window, &monitors, None, &events, String::from("demo"));
    assert_eq!(session.target, None);
    assert_eq!(window.position, WindowPosition::At(IVec2::new(3100, 100)));
}

#[test]
fn without_scale_compensation_the_restore_is_one_step() {
    let monitors = two_monitors();
    let off = Workarounds {
        scale_compensation: false,
        ..Workarounds::all()
    };
    let state = saved(Some((3100, 100)), 1, SavedWindowMode::Windowed);
    let mut window = fresh_window();
    let (mut session, _) = RestoreWindows::startup(
        Some(&state),
        UVec2::new(1280, 720),
        UVec2::new(1280, 720),
        Some(IVec2::new(100, 100)),
        &monitors,
        Platform::MacOs,
        off,
        &Vec::new(),
        &mut window,
    );
    assert_eq!(session.workarounds, off);
    assert_eq!(
        session.target.unwrap().monitor_scale_strategy,
        MonitorScaleStrategy::ApplyUnchanged
    );
    session.update(&mut window, &monitors, None, &quiet(), String::from("demo"));
    assert_eq!(session.target, None);
    assert_eq!(session.protection, None);
    assert_eq!(window.position, WindowPosition::At(IVec2::new(3100, 100)));
    assert_eq!((window.physical_width, window.physical_height), (800, 600));
    assert!(window.visible);
}

#[test]
fn update_can_be_called_where_its_needs_are_met() {
    let monitors = two_monitors();
    let none = build_monitors(&Vec::new());
    let kept = CurrentMonitor(*monitors.by_index(1).unwrap());
    let mut window = fresh_window();
    let idle = start(None, (100, 100), &monitors, Platform::Wayland, &mut window);
    assert!(idle.can_update(&window, &monitors, None, &quiet()));
    assert!(!idle.can_update(&window, &none, None, &quiet()));
    assert!(idle.can_update(&window, &none, Some(&kept), &quiet()));

    let state = saved(Some((3100, i32::MIN + 5)), 1, SavedWindowMode::Windowed);
    let mut restoring = start(Some(&state), (3500, 10), &monitors, Platform::X11, &mut window);
    assert!(restoring.can_update(&window, &none, None, &quiet()));
    let mut events = quiet();
    events.frame_top = Some(37);
    assert!(restoring.can_update(&window, &monitors, None, &events));
    restoring.target = restoring.target.map(|mut target| {
        target.position = Some(IVec2::new(3100, i32::MIN + 5));
        target
    });
    assert!(!restoring.can_update(&window, &monitors, None, &events));
    events.frame_top = Some(5);
    assert!(restoring.can_update(&window, &monitors, None, &events));
    events.frame_top = Some(37);
    restoring.frame_compensated = true;
    assert!(restoring.can_update(&window, &monitors, None, &events));
}
