use vstd::prelude::*;
use crate::camera::{
    Camera, CameraMovement, camera_wf, moved_position_spec, has_derived_basis, PITCH_LIMIT,
    ZOOM_MIN, ZOOM_MAX, DELTA_LIMIT, POSITION_LIMIT, ANGLE_BEFORE_UPDATE,
};
use crate::fx::{FX_LIMIT, abs_spec, mul_fx_spec, clamp_spec};
use crate::vec3::{vec_is, vec_bounded};

verus! {

/// Largest cursor coordinate magnitude the event handler accepts; two
/// coordinates within it differ by at most the camera's offset limit.
pub const CURSOR_LIMIT: i64 = 5_000_000_000;

/// The keys the demo reacts to.
#[derive(Clone, Copy, PartialEq, Eq, Structural, Debug)]
pub enum Key {
    Escape,
    W,
    S,
    A,
    D,
}

/// A platform input event reduced to plain values: a close request, a
/// key with its pressed state, an absolute cursor position in
/// fixed-point pixels, or a scroll offset.
#[derive(Clone, Copy, PartialEq, Eq, Debug)]
pub enum InputEvent {
    CloseRequested,
    KeyboardInput { key: Option<Key>, pressed: bool },
    CursorMoved { x: i64, y: i64 },
    Scroll { y_offset: i64 },
}

/// `b` agrees with `a` on every field but the position.
pub open spec fn same_camera_but_position(a: Camera, b: Camera) -> bool {
    b.front == a.front && b.up == a.up && b.right == a.right && b.world_up == a.world_up
    && b.yaw == a.yaw && b.pitch == a.pitch && b.movement_speed == a.movement_speed
    && b.mouse_sensitivity == a.mouse_sensitivity && b.zoom == a.zoom
}

/// Applies one pressed key to the camera: W/S move along the front
/// axis, A/D strafe along the right axis, each scaled by the frame
/// time; Escape and unknown keys leave the camera untouched (ending
/// the session is the loop driver's decision).
pub fn process_key_input(key: Option<Key>, pressed: bool, delta_time: i64, camera: &mut Camera)
    requires
        camera_wf(*old(camera)),
        0 <= delta_time <= DELTA_LIMIT,
        vec_bounded(old(camera).position, POSITION_LIMIT as int),
    ensures
        same_camera_but_position(*old(camera), *final(camera)),
        camera_wf(*final(camera)),
        vec_bounded(final(camera).position, FX_LIMIT as int),
        pressed && key == Some(Key::W) ==> vec_is(
            final(camera).position,
            moved_position_spec(*old(camera), CameraMovement::Forward, delta_time as int),
        ),
        pressed && key == Some(Key::S) ==> vec_is(
            final(camera).position,
            moved_position_spec(*old(camera), CameraMovement::Backward, delta_time as int),
        ),
        pressed && key == Some(Key::A) ==> vec_is(
            final(camera).position,
            moved_position_spec(*old(camera), CameraMovement::Left, delta_time as int),
        ),
        pressed && key == Some(Key::D) ==> vec_is(
            final(camera).position,
            moved_position_spec(*old(camera), CameraMovement::Right, delta_time as int),
        ),
        !pressed || key is None || key == Some(Key::Escape) ==> *final(camera) == *old(camera),
{
    match key {
        Some(Key::W) => {
            if pressed {
                camera.process_keyboard(CameraMovement::Forward, delta_time);
            }
        },
        Some(Key::S) => {
            if pressed {
                camera.process_keyboard(CameraMovement::Backward, delta_time);
            }
        },
        Some(Key::A) => {
            if pressed {
                camera.process_keyboard(CameraMovement::Left, delta_time);
            }
        },
        Some(Key::D) => {
            if pressed {
                camera.process_keyboard(CameraMovement::Right, delta_time);
            }
        },
        Some(Key::Escape) => {},
        None => {},
    }
}

/// Applies one platform event to the loop state: a close request asks
/// the loop to exit; a key event moves the camera; a cursor move turns
/// it (the first move only seeds the last-seen position, so its
/// offsets are zero); a scroll zooms it. Returns whether the loop
/// should exit.
pub fn process_events(
    event: InputEvent,
    first_mouse: &mut bool,
    last_x: &mut i64,
    last_y: &mut i64,
    camera: &mut Camera,
    delta_time: i64,
) -> (exit: bool)
    requires
        camera_wf(*old(camera)),
        0 <= delta_time <= DELTA_LIMIT,
        vec_bounded(old(camera).position, POSITION_LIMIT as int),
        abs_spec(old(camera).yaw as int) <= ANGLE_BEFORE_UPDATE,
        abs_spec(old(camera).pitch as int) <= ANGLE_BEFORE_UPDATE,
        abs_spec(*old(last_x) as int) <= CURSOR_LIMIT,
        abs_spec(*old(last_y) as int) <= CURSOR_LIMIT,
        event matches InputEvent::CursorMoved { x, y } ==> abs_spec(x as int) <= CURSOR_LIMIT
            && abs_spec(y as int) <= CURSOR_LIMIT,
        event matches InputEvent::Scroll { y_offset } ==> abs_spec(y_offset as int) <= FX_LIMIT,
    ensures
        camera_wf(*final(camera)),
        exit <==> event == InputEvent::CloseRequested,
        event == InputEvent::CloseRequested ==> *final(camera) == *old(camera) && *final(first_mouse) == *old(first_mouse) && *final(last_x) == *old(last_x) && *final(last_y) == *old(last_y),
        event matches InputEvent::KeyboardInput { key, pressed } ==> same_camera_but_position(
            *old(camera),
            *final(camera),
        ) && *final(first_mouse) == *old(first_mouse) && *final(last_x) == *old(last_x) && *final(last_y) == *old(last_y),
        event matches InputEvent::KeyboardInput { key, pressed } && pressed && key == Some(Key::W)
            ==> vec_is(
            final(camera).position,
            moved_position_spec(*old(camera), CameraMovement::Forward, delta_time as int),
        ),
        event matches InputEvent::KeyboardInput { key, pressed } && pressed && key == Some(Key::S)
            ==> vec_is(
            final(camera).position,
            moved_position_spec(*old(camera), CameraMovement::Backward, delta_time as int),
        ),
        event matches InputEvent::KeyboardInput { key, pressed } && pressed && key == Some(Key::A)
            ==> vec_is(
            final(camera).position,
            moved_position_spec(*old(camera), CameraMovement::Left, delta_time as int),
        ),
        event matches InputEvent::KeyboardInput { key, pressed } && pressed && key == Some(Key::D)
            ==> vec_is(
            final(camera).position,
            moved_position_spec(*old(camera), CameraMovement::Right, delta_time as int),
        ),
        event matches InputEvent::KeyboardInput { key, pressed } && (!pressed || key is None || key
            == Some(Key::Escape)) ==> *final(camera) == *old(camera),
        event matches InputEvent::CursorMoved { x, y } ==> ({
            let lx = if *old(first_mouse) {
                x
            } else {
                *old(last_x)
            };
            let ly = if *old(first_mouse) {
                y
            } else {
                *old(last_y)
            };
            *final(first_mouse) == false && *final(last_x) == x && *final(last_y) == y && final(camera).yaw == old(camera).yaw + mul_fx_spec(
                x - lx,
                old(camera).mouse_sensitivity as int,
            ) && final(camera).pitch == clamp_spec(
                old(camera).pitch + mul_fx_spec(ly - y, old(camera).mouse_sensitivity as int),
                -PITCH_LIMIT as int,
                PITCH_LIMIT as int,
            ) && has_derived_basis(*final(camera)) && final(camera).position == old(camera).position
                && final(camera).world_up == old(camera).world_up && final(camera).movement_speed
                == old(camera).movement_speed && final(camera).mouse_sensitivity == old(camera).mouse_sensitivity && final(camera).zoom == old(camera).zoom
        }),
        event matches InputEvent::Scroll { y_offset } ==> *final(first_mouse) == *old(first_mouse)
            && *final(last_x) == *old(last_x) && *final(last_y) == *old(last_y) && final(camera).zoom == clamp_spec(
            old(camera).zoom - y_offset,
            ZOOM_MIN as int,
            ZOOM_MAX as int,
        ) && same_camera_but_zoom(*old(camera), *final(camera)),
{
    match event {
        InputEvent::CloseRequested => true,
        InputEvent::KeyboardInput { key, pressed } => {
            process_key_input(key, pressed, delta_time, camera);
            false
        },
        InputEvent::CursorMoved { x, y } => {
            if *first_mouse {
                *last_x = x;
                *last_y = y;
                *first_mouse = false;
            }
            let x_offset: i64 = x - *last_x;
            let y_offset: i64 = *last_y - y;
            *last_x = x;
            *last_y = y;
            camera.process_mouse_movement(x_offset, y_offset, true);
            false
        },
        InputEvent::Scroll { y_offset } => {
            camera.process_mouse_scroll(y_offset);
            false
        },
    }
}

/// `b` agrees with `a` on every field but the zoom.
pub open spec fn same_camera_but_zoom(a: Camera, b: Camera) -> bool {
    b.front == a.front && b.up == a.up && b.right == a.right && b.world_up == a.world_up
    && b.yaw == a.yaw && b.pitch == a.pitch && b.movement_speed == a.movement_speed
    && b.mouse_sensitivity == a.mouse_sensitivity && b.position == a.position
}

} // verus!
