use restore_windows::types::FullscreenRestoreState;
use restore_windows::types::IVec2;
use restore_windows::types::MonitorScaleStrategy;
use restore_windows::types::MonitorSelection;
use restore_windows::types::SavedVideoMode;
use restore_windows::types::SavedWindowMode;
use restore_windows::types::ScaleRatio;
use restore_windows::types::TargetPosition;
use restore_windows::types::UVec2;
use restore_windows::types::VideoMode;
use restore_windows::types::VideoModeSelection;
use restore_windows::types::WindowDecoration;
use restore_windows::types::WindowMode;
use restore_windows::types::WindowRestoreState;
use restore_windows::types::WinitInfo;
use restore_windows::types::Workarounds;

fn saved_video_mode() -> SavedVideoMode {
    SavedVideoMode {
        physical_size: UVec2::new(1920, 1080),
        bit_depth: 32,
        refresh_rate_millihertz: 60000,
    }
}

fn video_mode() -> VideoMode {
    VideoMode {
        physical_size: UVec2::new(1920, 1080),
        bit_depth: 32,
        refresh_rate_millihertz: 60000,
    }
}

fn target(position: Option<IVec2>, starting_scale: u32, target_scale: u32) -> TargetPosition {
    TargetPosition {
        position,
        width: 800,
        height: 601,
        target_scale,
        starting_scale,
        monitor_scale_strategy: MonitorScaleStrategy::LowerToHigher,
        mode: SavedWindowMode::Windowed,
        target_monitor_index: 1,
        fullscreen_restore_state: FullscreenRestoreState::ApplyFullscreen,
    }
}

#[test]
fn vectors_hold_their_coordinates() {
    assert_eq!(IVec2::new(-3, 4), IVec2 { x: -3, y: 4 });
    assert_eq!(UVec2::new(3, 4), UVec2 { x: 3, y: 4 });
}

#[test]
fn saved_video_mode_converts_field_by_field() {
    assert_eq!(saved_video_mode().to_video_mode(), video_mode());
}

#[test]
fn saved_mode_converts_to_a_window_mode_on_the_given_monitor() {
    assert_eq!(SavedWindowMode::Windowed.to_window_mode(2), WindowMode::Windowed);
    assert_eq!(
        SavedWindowMode::BorderlessFullscreen.to_window_mode(2),
        WindowMode::BorderlessFullscreen(MonitorSelection::Index(2))
    );
    assert_eq!(
        SavedWindowMode::Fullscreen { video_mode: None }.to_window_mode(0),
        WindowMode::Fullscreen(MonitorSelection::Index(0), VideoModeSelection::Current)
    );
    assert_eq!(
        SavedWindowMode::Fullscreen {
            video_mode: Some(saved_video_mode())
        }
        .to_window_mode(3),
        WindowMode::Fullscreen(
            MonitorSelection::Index(3),
            VideoModeSelection::Specific(video_mode())
        )
    );
}

#[test]
fn only_windowed_is_not_fullscreen() {
    assert!(!SavedWindowMode::Windowed.is_fullscreen());
    assert!(SavedWindowMode::BorderlessFullscreen.is_fullscreen());
    assert!(SavedWindowMode::Fullscreen { video_mode: None }.is_fullscreen());
    assert!(SavedWindowMode::Fullscreen {
        video_mode: Some(saved_video_mode())
    }
    .is_fullscreen());
}

#[test]
fn window_mode_is_saved_without_its_monitor() {
    assert_eq!(
        SavedWindowMode::from(&WindowMode::Windowed),
        SavedWindowMode::Windowed
    );
    assert_eq!(
        SavedWindowMode::from(&WindowMode::BorderlessFullscreen(MonitorSelection::Primary)),
        SavedWindowMode::BorderlessFullscreen
    );
    assert_eq!(
        SavedWindowMode::from(&WindowMode::BorderlessFullscreen(MonitorSelection::Entity(77))),
        SavedWindowMode::BorderlessFullscreen
    );
    assert_eq!(
        SavedWindowMode::from(&WindowMode::Fullscreen(
            MonitorSelection::Current,
            VideoModeSelection::Current
        )),
        SavedWindowMode::Fullscreen { video_mode: None }
    );
    assert_eq!(
        SavedWindowMode::from(&WindowMode::Fullscreen(
            MonitorSelection::Index(1),
            VideoModeSelection::Specific(video_mode())
        )),
        SavedWindowMode::Fullscreen {
            video_mode: Some(saved_video_mode())
        }
    );
}

#[test]
fn saving_a_restored_mode_gives_the_saved_mode() {
    let modes = vec![
        SavedWindowMode::Windowed,
        SavedWindowMode::BorderlessFullscreen,
        SavedWindowMode::Fullscreen { video_mode: None },
        SavedWindowMode::Fullscreen {
            video_mode: Some(saved_video_mode()),
        },
    ];
    for mode in modes {
        assert_eq!(SavedWindowMode::from(&mode.to_window_mode(4)), mode);
    }
}

#[test]
fn decoration_as_a_vector() {
    let info = WinitInfo {
        starting_monitor_index: 0,
        window_decoration: WindowDecoration {
            width: 2,
            height: 28,
        },
    };
    assert_eq!(info.decoration(), UVec2::new(2, 28));
}

#[test]
fn target_position_and_size() {
    let t = target(Some(IVec2::new(100, -50)), 1000, 2000);
    assert_eq!(t.position(), Some(IVec2::new(100, -50)));
    assert_eq!(t.size(), UVec2::new(800, 601));
    assert_eq!(target(None, 1000, 2000).position(), None);
}

#[test]
fn target_ratio_is_starting_over_target() {
    assert_eq!(
        target(None, 1000, 2000).ratio(),
        ScaleRatio {
            numerator: 1000,
            denominator: 2000
        }
    );
}

#[test]
fn compensated_position_multiplies_and_truncates() {
    assert_eq!(
        target(Some(IVec2::new(101, -51)), 1000, 2000).compensated_position(),
        Some(IVec2::new(50, -25))
    );
    assert_eq!(
        target(Some(IVec2::new(3100, 100)), 2000, 1000).compensated_position(),
        Some(IVec2::new(6200, 200))
    );
    assert_eq!(target(None, 2000, 1000).compensated_position(), None);
}

#[test]
fn compensated_size_multiplies_and_truncates() {
    assert_eq!(
        target(None, 1000, 2000).compensated_size(),
        UVec2::new(400, 300)
    );
    assert_eq!(
        target(None, 2000, 1000).compensated_size(),
        UVec2::new(1600, 1202)
    );
    assert_eq!(
        target(None, 1250, 1000).compensated_size(),
        UVec2::new(1000, 751)
    );
}

#[test]
fn restore_states_are_distinct() {
    assert_ne!(
        WindowRestoreState::WaitingForScaleChange,
        WindowRestoreState::ApplySize
    );
    assert_ne!(
        FullscreenRestoreState::WaitingForSurface,
        FullscreenRestoreState::ApplyFullscreen
    );
}

#[test]
fn by_default_every_patch_is_in_force() {
    let all = Workarounds {
        scale_compensation: true,
        drag_back_protection: true,
        frame_extent_compensation: true,
        deferred_fullscreen: true,
        fullscreen_exit_guard: true,
        dpi_change_interception: true,
        position_query: true,
    };
    assert_eq!(Workarounds::default(), all);
    assert_eq!(Workarounds::all(), all);
}

#[test]
fn all_patches_can_be_out_of_force() {
    assert_eq!(
        Workarounds::none(),
        Workarounds {
            scale_compensation: false,
            drag_back_protection: false,
            frame_extent_compensation: false,
            deferred_fullscreen: false,
            fullscreen_exit_guard: false,
            dpi_change_interception: false,
            position_query: false,
        }
    );
}
