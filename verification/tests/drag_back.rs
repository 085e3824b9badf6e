use restore_windows::macos_drag_back_fix::apply_pending_correction;
use restore_windows::macos_drag_back_fix::detect_user_resize;
use restore_windows::macos_drag_back_fix::handle_drag_back_scale_change;
use restore_windows::macos_drag_back_fix::CorrectionState;
use restore_windows::macos_drag_back_fix::DragBackSizeProtection;
use restore_windows::macos_drag_back_fix::SIZE_TOLERANCE;
use restore_windows::types::UVec2;
use restore_windows::types::WindowMode;
use restore_windows::window_ext::Window;
use restore_windows::window_ext::WindowPosition;

fn waiting() -> DragBackSizeProtection {
    DragBackSizeProtection {
        expected_physical_size: UVec2::new(800, 600),
        launch_scale: 2000,
        restored_scale: 1000,
        phase1_cached_size: UVec2::new(400, 300),
        state: CorrectionState::WaitingForDragBack,
    }
}

fn pending() -> DragBackSizeProtection {
    DragBackSizeProtection {
        state: CorrectionState::PendingCorrection {
            corrected_size: UVec2::new(1600, 1200),
            wrong_cached_size: UVec2::new(400, 300),
        },
        ..waiting()
    }
}

fn window(width: u32, height: u32, scale_factor: u32) -> Window {
    Window {
        position: WindowPosition::Automatic,
        physical_width: width,
        physical_height: height,
        scale_factor,
        mode: WindowMode::Windowed,
        visible: true,
        focused: true,
    }
}

#[test]
fn tolerance_is_two_pixels() {
    assert_eq!(SIZE_TOLERANCE, 2);
}

#[test]
fn a_new_size_on_the_restored_monitor_is_the_users() {
    assert!(detect_user_resize(&waiting(), &window(900, 700, 1000), true));
    assert!(detect_user_resize(&waiting(), &window(800, 601, 1000), true));
    assert!(detect_user_resize(&waiting(), &window(801, 600, 1005), true));
}

#[test]
fn without_a_resize_nothing_is_detected() {
    assert!(!detect_user_resize(&waiting(), &window(900, 700, 1000), false));
    assert!(!detect_user_resize(&pending(), &window(900, 700, 2000), false));
}

#[test]
fn the_known_sizes_are_not_the_users() {
    assert!(!detect_user_resize(&waiting(), &window(800, 600, 1000), true));
    assert!(!detect_user_resize(&waiting(), &window(400, 300, 1000), true));
    assert!(!detect_user_resize(&waiting(), &window(402, 298, 1000), true));
    assert!(detect_user_resize(&waiting(), &window(403, 300, 1000), true));
    assert!(detect_user_resize(&waiting(), &window(400, 297, 1000), true));
}

#[test]
fn a_resize_on_another_monitor_is_not_judged_while_waiting() {
    assert!(!detect_user_resize(&waiting(), &window(900, 700, 2000), true));
    assert!(!detect_user_resize(&waiting(), &window(900, 700, 1011), true));
    assert!(detect_user_resize(&waiting(), &window(900, 700, 1010), true));
}

#[test]
fn a_new_size_while_the_correction_is_pending_is_the_users() {
    assert!(detect_user_resize(&pending(), &window(900, 700, 2000), true));
    assert!(!detect_user_resize(&pending(), &window(800, 600, 2000), true));
    assert!(!detect_user_resize(&pending(), &window(401, 302, 2000), true));
    assert!(detect_user_resize(&pending(), &window(1600, 1200, 2000), true));
}

#[test]
fn a_change_to_the_launch_scale_makes_the_correction_pending() {
    let mut protection = waiting();
    handle_drag_back_scale_change(&mut protection, Some(2000));
    assert_eq!(protection, pending());
}

#[test]
fn the_corrected_size_is_carried_to_the_launch_scale() {
    let mut protection = waiting();
    protection.expected_physical_size = UVec2::new(801, 333);
    protection.launch_scale = 1500;
    handle_drag_back_scale_change(&mut protection, Some(1500));
    assert_eq!(
        protection.state,
        CorrectionState::PendingCorrection {
            corrected_size: UVec2::new(1201, 499),
            wrong_cached_size: UVec2::new(400, 300),
        }
    );
}

#[test]
fn a_change_to_another_scale_is_ignored() {
    let mut protection = waiting();
    handle_drag_back_scale_change(&mut protection, Some(1500));
    assert_eq!(protection, waiting());
    handle_drag_back_scale_change(&mut protection, Some(2011));
    assert_eq!(protection, waiting());
    handle_drag_back_scale_change(&mut protection, Some(1000));
    assert_eq!(protection, waiting());
    handle_drag_back_scale_change(&mut protection, None);
    assert_eq!(protection, waiting());
}

#[test]
fn a_scale_within_the_epsilon_of_the_launch_scale_counts() {
    let mut protection = waiting();
    handle_drag_back_scale_change(&mut protection, Some(2010));
    assert_eq!(protection, pending());
    let mut protection = waiting();
    handle_drag_back_scale_change(&mut protection, Some(1990));
    assert_eq!(protection, pending());
}

#[test]
fn a_pending_correction_does_not_start_again() {
    let mut protection = pending();
    protection.phase1_cached_size = UVec2::new(1, 1);
    let before = protection;
    handle_drag_back_scale_change(&mut protection, Some(2000));
    assert_eq!(protection, before);
}

#[test]
fn the_correction_is_applied_when_the_wrong_size_arrives() {
    let mut w = window(400, 300, 2000);
    assert!(apply_pending_correction(&pending(), &mut w, true));
    assert_eq!(w, window(1600, 1200, 2000));
    let mut w = window(398, 302, 2000);
    assert!(apply_pending_correction(&pending(), &mut w, true));
    assert_eq!(w, window(1600, 1200, 2000));
}

#[test]
fn the_correction_waits_for_the_wrong_size() {
    let mut w = window(800, 600, 2000);
    assert!(!apply_pending_correction(&pending(), &mut w, true));
    assert_eq!(w, window(800, 600, 2000));
    let mut w = window(397, 300, 2000);
    assert!(!apply_pending_correction(&pending(), &mut w, true));
    assert_eq!(w, window(397, 300, 2000));
}

#[test]
fn the_correction_waits_for_a_resize() {
    let mut w = window(400, 300, 2000);
    assert!(!apply_pending_correction(&pending(), &mut w, false));
    assert_eq!(w, window(400, 300, 2000));
}

#[test]
fn nothing_is_corrected_before_the_drag_back() {
    let mut w = window(400, 300, 2000);
    assert!(!apply_pending_correction(&waiting(), &mut w, true));
    assert_eq!(w, window(400, 300, 2000));
}
