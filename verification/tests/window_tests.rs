use glutin_opengl_demo::camera::Camera;
use glutin_opengl_demo::fx::FX_ONE;
use glutin_opengl_demo::vec3::Vec3;
use glutin_opengl_demo::window::{process_events, process_key_input, InputEvent, Key};

fn fresh_camera() -> Camera {
    Camera::new(Vec3::new(0, 0, 3 * FX_ONE), -90 * FX_ONE, 0)
}

#[test]
fn key_w_moves_forward() {
    let mut c = fresh_camera();
    process_key_input(Some(Key::W), true, FX_ONE, &mut c);
    assert_eq!(c.position, Vec3::new(0, 0, 500_000));
}

#[test]
fn key_d_strafes_right() {
    let mut c = fresh_camera();
    process_key_input(Some(Key::D), true, FX_ONE, &mut c);
    assert_eq!(c.position, Vec3::new(2_500_000, 0, 3 * FX_ONE));
}

#[test]
fn released_or_unknown_keys_do_nothing() {
    let mut c = fresh_camera();
    let before = c;
    process_key_input(Some(Key::W), false, FX_ONE, &mut c);
    assert_eq!(c, before);
    process_key_input(None, true, FX_ONE, &mut c);
    assert_eq!(c, before);
    process_key_input(Some(Key::Escape), true, FX_ONE, &mut c);
    assert_eq!(c, before);
}

#[test]
fn close_request_exits_and_changes_nothing() {
    let mut c = fresh_camera();
    let before = c;
    let mut first_mouse = true;
    let mut last_x: i64 = 0;
    let mut last_y: i64 = 0;
    let exit = process_events(
        InputEvent::CloseRequested,
        &mut first_mouse,
        &mut last_x,
        &mut last_y,
        &mut c,
        FX_ONE,
    );
    assert!(exit);
    assert_eq!(c, before);
    assert!(first_mouse);
}

#[test]
fn first_cursor_move_only_seeds_position() {
    let mut c = fresh_camera();
    let mut first_mouse = true;
    let mut last_x: i64 = 0;
    let mut last_y: i64 = 0;
    let exit = process_events(
        InputEvent::CursorMoved { x: 400 * FX_ONE, y: 300 * FX_ONE },
        &mut first_mouse,
        &mut last_x,
        &mut last_y,
        &mut c,
        FX_ONE,
    );
    assert!(!exit);
    assert!(!first_mouse);
    assert_eq!(last_x, 400 * FX_ONE);
    assert_eq!(last_y, 300 * FX_ONE);
    // zero offsets: the orientation is unchanged
    assert_eq!(c.yaw, -90 * FX_ONE);
    assert_eq!(c.pitch, 0);
}

#[test]
fn cursor_move_turns_camera() {
    let mut c = fresh_camera();
    let mut first_mouse = false;
    let mut last_x: i64 = 400 * FX_ONE;
    let mut last_y: i64 = 300 * FX_ONE;
    // 100 pixels right, 50 pixels up (screen y grows downward)
    let exit = process_events(
        InputEvent::CursorMoved { x: 500 * FX_ONE, y: 250 * FX_ONE },
        &mut first_mouse,
        &mut last_x,
        &mut last_y,
        &mut c,
        FX_ONE,
    );
    assert!(!exit);
    // sensitivity 0.1: yaw += 10 degrees, pitch += 5 degrees
    assert_eq!(c.yaw, -80 * FX_ONE);
    assert_eq!(c.pitch, 5 * FX_ONE);
    assert_eq!(last_x, 500 * FX_ONE);
    assert_eq!(last_y, 250 * FX_ONE);
}

#[test]
fn scroll_zooms() {
    let mut c = fresh_camera();
    let mut first_mouse = true;
    let mut last_x: i64 = 0;
    let mut last_y: i64 = 0;
    let exit = process_events(
        InputEvent::Scroll { y_offset: 5 * FX_ONE },
        &mut first_mouse,
        &mut last_x,
        &mut last_y,
        &mut c,
        FX_ONE,
    );
    assert!(!exit);
    assert_eq!(c.zoom, 40 * FX_ONE);
}

#[test]
fn keyboard_event_moves_camera() {
    let mut c = fresh_camera();
    let mut first_mouse = true;
    let mut last_x: i64 = 0;
    let mut last_y: i64 = 0;
    let exit = process_events(
        InputEvent::KeyboardInput { key: Some(Key::S), pressed: true },
        &mut first_mouse,
        &mut last_x,
        &mut last_y,
        &mut c,
        FX_ONE,
    );
    assert!(!exit);
    assert_eq!(c.position, Vec3::new(0, 0, 5_500_000));
}
