use glutin_opengl_demo::camera::{
    Camera, CameraMovement, PITCH_LIMIT, SENSITIVITY_DEFAULT, SPEED_DEFAULT, YAW_DEFAULT,
    ZOOM_DEFAULT, ZOOM_MAX, ZOOM_MIN,
};
use glutin_opengl_demo::fx::FX_ONE;
use glutin_opengl_demo::vec3::Vec3;

fn to_f64(v: Vec3) -> (f64, f64, f64) {
    (
        v.x as f64 / FX_ONE as f64,
        v.y as f64 / FX_ONE as f64,
        v.z as f64 / FX_ONE as f64,
    )
}

fn dot(a: (f64, f64, f64), b: (f64, f64, f64)) -> f64 {
    a.0 * b.0 + a.1 * b.1 + a.2 * b.2
}

fn mag(a: (f64, f64, f64)) -> f64 {
    dot(a, a).sqrt()
}

/// front, right and up stay mutually orthogonal unit vectors over a
/// grid of yaws and pitches, within a small tolerance.
#[test]
fn basis_orthonormal_over_angle_grid() {
    let tol = 0.001;
    let mut yaw_deg: i64 = -179;
    while yaw_deg <= 180 {
        let mut pitch_deg: i64 = -88;
        while pitch_deg <= 88 {
            let c = Camera::new(Vec3::new(0, 0, 0), yaw_deg * FX_ONE, pitch_deg * FX_ONE);
            let f = to_f64(c.front);
            let r = to_f64(c.right);
            let u = to_f64(c.up);
            assert!(dot(f, r).abs() < tol, "front.right at {yaw_deg}/{pitch_deg}");
            assert!(dot(f, u).abs() < tol, "front.up at {yaw_deg}/{pitch_deg}");
            assert!(dot(r, u).abs() < tol, "right.up at {yaw_deg}/{pitch_deg}");
            assert!((mag(f) - 1.0).abs() < tol, "|front| at {yaw_deg}/{pitch_deg}");
            assert!((mag(r) - 1.0).abs() < tol, "|right| at {yaw_deg}/{pitch_deg}");
            assert!((mag(u) - 1.0).abs() < tol, "|up| at {yaw_deg}/{pitch_deg}");
            // the right vector is exactly horizontal, with no rounding
            assert_eq!(c.right.y, 0, "right.y at {yaw_deg}/{pitch_deg}");
            pitch_deg += 11;
        }
        yaw_deg += 7;
    }
}

/// Repeated large upward mouse movement never drives pitch above 89
/// degrees; symmetric downward.
#[test]
fn pitch_is_clamped_under_repeated_movement() {
    let mut c = Camera::new(Vec3::new(0, 0, 0), YAW_DEFAULT, 0);
    for _ in 0..10 {
        c.process_mouse_movement(0, 1000 * FX_ONE, true);
        assert!(c.pitch <= PITCH_LIMIT);
        assert!(c.pitch >= -PITCH_LIMIT);
    }
    assert_eq!(c.pitch, PITCH_LIMIT);
    for _ in 0..10 {
        c.process_mouse_movement(0, -1000 * FX_ONE, true);
        assert!(c.pitch >= -PITCH_LIMIT);
        assert!(c.pitch <= PITCH_LIMIT);
    }
    assert_eq!(c.pitch, -PITCH_LIMIT);
}

/// Zoom is clamped to [1 degree, 45 degrees] under repeated scroll in
/// either direction.
#[test]
fn zoom_is_clamped_under_repeated_scroll() {
    let mut c = Camera::new(Vec3::new(0, 0, 0), YAW_DEFAULT, 0);
    for _ in 0..30 {
        c.process_mouse_scroll(5 * FX_ONE);
        assert!(ZOOM_MIN <= c.zoom && c.zoom <= ZOOM_MAX);
    }
    assert_eq!(c.zoom, ZOOM_MIN);
    for _ in 0..30 {
        c.process_mouse_scroll(-5 * FX_ONE);
        assert!(ZOOM_MIN <= c.zoom && c.zoom <= ZOOM_MAX);
    }
    assert_eq!(c.zoom, ZOOM_MAX);
}

/// Two view-matrix calls with no state change in between return
/// identical matrices.
#[test]
fn view_matrix_is_pure() {
    let mut c = Camera::new(Vec3::new(FX_ONE, 2 * FX_ONE, 3 * FX_ONE), 37 * FX_ONE, 20 * FX_ONE);
    let m1 = c.get_view_matrix();
    let m2 = c.get_view_matrix();
    assert_eq!(m1, m2);
    c.process_mouse_scroll(FX_ONE);
    let m3 = c.get_view_matrix();
    assert_eq!(m1, m3);
}

/// FORWARD then BACKWARD by the same delta time returns the position
/// exactly to its start, at several orientations.
#[test]
fn forward_backward_round_trip() {
    let angles = [(37i64, 20i64), (-90, 0), (123, -45), (179, 88), (-179, -88)];
    for (yaw_deg, pitch_deg) in angles {
        let start = Vec3::new(5 * FX_ONE, -7 * FX_ONE, 11 * FX_ONE);
        let mut c = Camera::new(start, yaw_deg * FX_ONE, pitch_deg * FX_ONE);
        c.process_keyboard(CameraMovement::Forward, 750_000);
        c.process_keyboard(CameraMovement::Backward, 750_000);
        assert_eq!(c.position, start, "at {yaw_deg}/{pitch_deg}");
    }
}

/// Strafing LEFT then RIGHT by the same delta time also returns the
/// position exactly.
#[test]
fn left_right_round_trip() {
    let start = Vec3::new(0, 0, 0);
    let mut c = Camera::new(start, 37 * FX_ONE, 20 * FX_ONE);
    c.process_keyboard(CameraMovement::Left, 400_000);
    c.process_keyboard(CameraMovement::Right, 400_000);
    assert_eq!(c.position, start);
}

/// End-to-end scenario: camera at (0,0,3), yaw -90, pitch 0, zoom 45;
/// one FORWARD step of 1.0 s at speed 2.5 lands exactly on (0,0,0.5),
/// having moved 2.5 units along front = (0,0,-1).
#[test]
fn forward_step_scenario() {
    let mut c = Camera::new(Vec3::new(0, 0, 3 * FX_ONE), -90 * FX_ONE, 0);
    assert_eq!(c.zoom, 45 * FX_ONE);
    assert_eq!(c.movement_speed, 2_500_000);
    assert_eq!(c.front, Vec3::new(0, 0, -FX_ONE));
    assert_eq!(c.right, Vec3::new(FX_ONE, 0, 0));
    assert_eq!(c.up, Vec3::new(0, FX_ONE, 0));
    c.process_keyboard(CameraMovement::Forward, FX_ONE);
    assert_eq!(c.position, Vec3::new(0, 0, 500_000));
}

/// The constructor fills the documented defaults and derives the basis.
#[test]
fn constructor_defaults() {
    let c = Camera::new(Vec3::new(1, 2, 3), YAW_DEFAULT, 0);
    assert_eq!(c.position, Vec3::new(1, 2, 3));
    assert_eq!(c.yaw, YAW_DEFAULT);
    assert_eq!(c.pitch, 0);
    assert_eq!(c.movement_speed, SPEED_DEFAULT);
    assert_eq!(c.mouse_sensitivity, SENSITIVITY_DEFAULT);
    assert_eq!(c.zoom, ZOOM_DEFAULT);
    assert_eq!(c.world_up, Vec3::new(0, FX_ONE, 0));
}

/// Mouse movement scales offsets by the sensitivity: 100 pixels at
/// sensitivity 0.1 turn the yaw by 10 degrees.
#[test]
fn mouse_movement_scales_by_sensitivity() {
    let mut c = Camera::new(Vec3::new(0, 0, 0), -90 * FX_ONE, 0);
    c.process_mouse_movement(100 * FX_ONE, 0, true);
    assert_eq!(c.yaw, -80 * FX_ONE);
    assert_eq!(c.pitch, 0);
}

/// Unconstrained mouse movement lets pitch pass the clamp bound.
#[test]
fn unconstrained_pitch_passes_limit() {
    let mut c = Camera::new(Vec3::new(0, 0, 0), -90 * FX_ONE, 0);
    c.process_mouse_movement(0, 1000 * FX_ONE, false);
    assert_eq!(c.pitch, 100 * FX_ONE);
}

/// The view matrix of the scenario camera: axis-aligned basis and the
/// eye position pushed into the translation column.
#[test]
fn view_matrix_scenario() {
    let c = Camera::new(Vec3::new(0, 0, 3 * FX_ONE), -90 * FX_ONE, 0);
    let m = c.get_view_matrix();
    assert_eq!(m.m00, FX_ONE);
    assert_eq!(m.m11, FX_ONE);
    assert_eq!(m.m22, FX_ONE);
    assert_eq!(m.m33, FX_ONE);
    assert_eq!(m.m30, 0);
    assert_eq!(m.m31, 0);
    assert_eq!(m.m32, -3 * FX_ONE);
    assert_eq!(m.m03, 0);
    assert_eq!(m.m13, 0);
    assert_eq!(m.m23, 0);
}
