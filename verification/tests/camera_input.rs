//! Camera and input-handling scenarios.

use orbit_cube::camera::{
    normalize_scroll, Camera, ScrollDelta, DEFAULT_DISTANCE_MILLI, MIN_DISTANCE_MILLI,
    PITCH_LIMIT_URAD,
};
use orbit_cube::render::RenderState;
use orbit_cube::shell::{handle_window_event, AppEvent, ShellAction};

fn test_state() -> RenderState {
    RenderState::new(800, 400, String::from("vs"), String::from("fs"))
}

#[test]
fn new_camera_matches_the_starting_orbit() {
    let c = Camera::new();
    assert_eq!(c.yaw, 0);
    assert_eq!(c.pitch, 0);
    assert_eq!(c.distance, DEFAULT_DISTANCE_MILLI);
    assert_eq!((c.target.x, c.target.y, c.target.z), (0, 0, 0));
    assert_eq!((c.up.x, c.up.y, c.up.z), (0, 1000, 0));
    assert_eq!(Camera::default(), c);
}

#[test]
fn drag_of_100_pixels_turns_yaw_by_minus_one_radian() {
    // 100 pixels at 0.01 radians per pixel: yaw goes from 0 to -1.0 radian.
    let mut c = Camera::new();
    c.apply_drag(100_000, 0);
    assert_eq!(c.yaw, -1_000_000);
    assert_eq!(c.pitch, 0);
    assert_eq!(c.distance, DEFAULT_DISTANCE_MILLI);
}

#[test]
fn small_drag_moves_pitch_without_clamping() {
    let mut c = Camera::new();
    c.apply_drag(0, 50_000);
    assert_eq!(c.pitch, -500_000);
}

#[test]
fn huge_drags_clamp_pitch_at_89_degrees() {
    let mut c = Camera::new();
    c.apply_drag(0, -1_000_000);
    assert_eq!(c.pitch, PITCH_LIMIT_URAD);
    c.apply_drag(0, 1_000_000);
    assert_eq!(c.pitch, -PITCH_LIMIT_URAD);
}

#[test]
fn scroll_of_one_line_zooms_5_to_4_5() {
    // distance 5.0, scroll 1.0 line, zoom speed 0.1: distance becomes 4.5.
    let mut c = Camera::new();
    c.apply_scroll(1_000);
    assert_eq!(c.distance, 4_500);
}

#[test]
fn repeated_scroll_converges_to_the_floor_and_never_below() {
    let mut c = Camera::new();
    let mut previous = c.distance;
    for _ in 0..50 {
        c.apply_scroll(1_000);
        assert!(c.distance <= previous);
        assert!(c.distance >= MIN_DISTANCE_MILLI);
        previous = c.distance;
    }
    assert_eq!(c.distance, MIN_DISTANCE_MILLI);
}

#[test]
fn oversized_scroll_drops_straight_to_the_floor() {
    // A scroll of 20 lines makes the scale factor negative.
    let mut c = Camera::new();
    c.apply_scroll(20_000);
    assert_eq!(c.distance, MIN_DISTANCE_MILLI);
}

#[test]
fn negative_scroll_zooms_out() {
    let mut c = Camera::new();
    c.apply_scroll(-1_000);
    assert_eq!(c.distance, 5_500);
}

#[test]
fn pixel_scroll_normalizes_to_lines_by_120() {
    assert_eq!(normalize_scroll(&ScrollDelta::Pixels(240_000)), 2_000);
    assert_eq!(normalize_scroll(&ScrollDelta::Pixels(-240_000)), -2_000);
    assert_eq!(normalize_scroll(&ScrollDelta::Pixels(100)), 0);
    assert_eq!(normalize_scroll(&ScrollDelta::Lines(1_500)), 1_500);
}

#[test]
fn close_request_exits() {
    let mut s = test_state();
    assert_eq!(handle_window_event(&mut s, AppEvent::CloseRequested), ShellAction::Exit);
}

#[test]
fn redraw_request_renders() {
    let mut s = test_state();
    assert_eq!(handle_window_event(&mut s, AppEvent::RedrawRequested), ShellAction::RenderFrame);
}

#[test]
fn left_button_press_and_release_toggle_dragging() {
    let mut s = test_state();
    assert!(!s.dragging);
    handle_window_event(&mut s, AppEvent::MouseInput { left: true, pressed: true });
    assert!(s.dragging);
    handle_window_event(&mut s, AppEvent::MouseInput { left: false, pressed: false });
    assert!(s.dragging);
    handle_window_event(&mut s, AppEvent::MouseInput { left: true, pressed: false });
    assert!(!s.dragging);
}

#[test]
fn cursor_move_without_drag_only_tracks_the_position() {
    let mut s = test_state();
    handle_window_event(&mut s, AppEvent::CursorMoved { x: 50_000, y: 60_000 });
    assert_eq!(s.camera.yaw, 0);
    assert_eq!(s.camera.pitch, 0);
    assert_eq!((s.last_mouse_x, s.last_mouse_y), (50_000, 60_000));
}

#[test]
fn cursor_move_while_dragging_orbits_the_camera() {
    // The cursor moves 100 pixels in -x, so delta_x is +100 pixels and the
    // yaw turns by -1.0 radian, exactly as in the plain drag scenario.
    let mut s = test_state();
    handle_window_event(&mut s, AppEvent::MouseInput { left: true, pressed: true });
    handle_window_event(&mut s, AppEvent::CursorMoved { x: -100_000, y: 0 });
    assert_eq!(s.camera.yaw, -1_000_000);
    assert_eq!(s.camera.pitch, 0);
    assert_eq!((s.last_mouse_x, s.last_mouse_y), (-100_000, 0));
}

#[test]
fn wheel_zooms_and_requests_a_redraw() {
    let mut s = test_state();
    let a = handle_window_event(
        &mut s,
        AppEvent::MouseWheel { delta: ScrollDelta::Lines(1_000) },
    );
    assert_eq!(a, ShellAction::RequestRedraw);
    assert_eq!(s.camera.distance, 4_500);
}

#[test]
fn resize_updates_surface_and_depth_together() {
    let mut s = test_state();
    handle_window_event(&mut s, AppEvent::Resized { width: 1024, height: 768 });
    assert_eq!(s.resolution(), (1024, 768));
    assert_eq!((s.depth_width, s.depth_height), (1024, 768));
}

#[test]
fn degenerate_resize_is_ignored() {
    let mut s = test_state();
    handle_window_event(&mut s, AppEvent::Resized { width: 0, height: 768 });
    assert_eq!(s.resolution(), (800, 400));
}
