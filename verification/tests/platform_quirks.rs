use restore_windows::types::FullscreenRestoreState;
use restore_windows::types::IVec2;
use restore_windows::types::MonitorScaleStrategy;
use restore_windows::types::SavedWindowMode;
use restore_windows::types::TargetPosition;
use restore_windows::windows_dpi_fix::handle_dpi_changed;
use restore_windows::windows_dpi_fix::Placement;
use restore_windows::windows_dpi_fix::Rect;
use restore_windows::x11_frame_extents::compensate_target_position;
use restore_windows::x11_frame_extents::query_frame_top;

fn target(position: Option<IVec2>) -> TargetPosition {
    TargetPosition {
        position,
        width: 800,
        height: 600,
        target_scale: 1000,
        starting_scale: 1000,
        monitor_scale_strategy: MonitorScaleStrategy::ApplyUnchanged,
        mode: SavedWindowMode::Windowed,
        target_monitor_index: 0,
        fullscreen_restore_state: FullscreenRestoreState::ApplyFullscreen,
    }
}

#[test]
fn the_top_extent_is_the_third_value() {
    assert_eq!(query_frame_top(&vec![1, 2, 37, 4]), Some(37));
    assert_eq!(query_frame_top(&vec![0, 0, 0, 0]), Some(0));
    assert_eq!(query_frame_top(&vec![1, 2, 37, 4, 5]), Some(37));
}

#[test]
fn an_incomplete_property_gives_no_extent() {
    assert_eq!(query_frame_top(&vec![1, 2, 37]), None);
    assert_eq!(query_frame_top(&Vec::new()), None);
}

#[test]
fn the_top_extent_keeps_its_bits() {
    assert_eq!(query_frame_top(&vec![0, 0, 2147483647, 0]), Some(i32::MAX));
    assert_eq!(query_frame_top(&vec![0, 0, 2147483648, 0]), Some(i32::MIN));
    assert_eq!(query_frame_top(&vec![0, 0, u32::MAX, 0]), Some(-1));
}

#[test]
fn the_top_extent_is_taken_off_the_row() {
    let mut t = target(Some(IVec2::new(100, 200)));
    assert!(compensate_target_position(&mut t, Some(37)));
    assert_eq!(t, target(Some(IVec2::new(100, 163))));
}

#[test]
fn compensation_waits_for_the_extents() {
    let mut t = target(Some(IVec2::new(100, 200)));
    assert!(!compensate_target_position(&mut t, None));
    assert_eq!(t, target(Some(IVec2::new(100, 200))));
}

#[test]
fn without_a_position_nothing_is_to_compensate() {
    let mut t = target(None);
    assert!(compensate_target_position(&mut t, None));
    assert_eq!(t, target(None));
    assert!(compensate_target_position(&mut t, Some(37)));
    assert_eq!(t, target(None));
}

#[test]
fn the_suggested_rectangle_becomes_the_placement() {
    assert_eq!(
        handle_dpi_changed(&Rect {
            left: 100,
            top: 50,
            right: 900,
            bottom: 650
        }),
        Placement {
            x: 100,
            y: 50,
            width: 800,
            height: 600
        }
    );
    assert_eq!(
        handle_dpi_changed(&Rect {
            left: -1920,
            top: -10,
            right: -1120,
            bottom: 590
        }),
        Placement {
            x: -1920,
            y: -10,
            width: 800,
            height: 600
        }
    );
}
