use vstd::prelude::*;
use crate::fx::{FX_ONE, FX_LIMIT, abs_spec, mul_fx_spec, clamp_spec, mul_fx, clamp, lemma_mul_fx_bound};
use crate::trig::{sin_fx_spec, cos_fx_spec, sin_fx, cos_fx};
use crate::vec3::{
    Vec3, vec3i, vec_is, vec_bounded, bounded3, add3, sub3, scale3_fx, dot_fx_spec,
    cross_fx_spec, normalize3_spec, lemma_cross_fx_bounded,
};
use crate::mat4::Mat4;

verus! {

/// Default look direction: along the negative z axis.
pub const YAW_DEFAULT: i64 = -90_000_000;

/// Default pitch: level with the horizon.
pub const PITCH_DEFAULT: i64 = 0;

/// Default movement speed: 2.5 units per second.
pub const SPEED_DEFAULT: i64 = 2_500_000;

/// Default mouse sensitivity: 0.1 degrees per count.
pub const SENSITIVITY_DEFAULT: i64 = 100_000;

/// Default field of view: 45 degrees.
pub const ZOOM_DEFAULT: i64 = 45_000_000;

/// Pitch never leaves `[-89°, 89°]` while constrained, keeping the
/// camera away from the gimbal flip at the poles.
pub const PITCH_LIMIT: i64 = 89_000_000;

/// The field of view is clamped to `[1°, 45°]`.
pub const ZOOM_MIN: i64 = 1_000_000;

/// The field of view is clamped to `[1°, 45°]`.
pub const ZOOM_MAX: i64 = 45_000_000;

/// Largest stored angle magnitude a well-formed camera holds.
pub const ANGLE_SAFE: i64 = 900_000_000_000_000_000;

/// Largest stored angle magnitude accepted by a mouse update; one
/// update moves an angle by at most `OFFSET_LIMIT * SENSITIVITY_LIMIT
/// / FX_ONE`, which keeps the result under `ANGLE_SAFE`.
pub const ANGLE_BEFORE_UPDATE: i64 = 800_000_000_000_000_000;

/// Largest mouse offset magnitude accepted per event.
pub const OFFSET_LIMIT: i64 = 10_000_000_000;

/// Largest movement speed a well-formed camera holds: 100 units per second.
pub const SPEED_LIMIT: i64 = 100_000_000;

/// Largest mouse sensitivity a well-formed camera holds.
pub const SENSITIVITY_LIMIT: i64 = 10_000_000;

/// Largest time step accepted by a keyboard update: 10 seconds.
pub const DELTA_LIMIT: i64 = 10_000_000;

/// Largest position magnitude accepted before a keyboard update; one
/// update moves the position by at most `SPEED_LIMIT * DELTA_LIMIT /
/// FX_ONE` per axis, which keeps the result under `FX_LIMIT`.
pub const POSITION_LIMIT: i64 = 999_000_000_000;

/// The four directions a keyboard event can move the camera in.
#[derive(Clone, Copy, PartialEq, Eq, Structural, Debug)]
pub enum CameraMovement {
    Forward,
    Backward,
    Left,
    Right,
}

/// A free-look first-person camera: a position, a yaw/pitch orientation
/// in fixed-point degrees, the basis vectors derived from them, and the
/// input scaling parameters.
#[derive(Clone, Copy, PartialEq, Eq, Structural, Debug)]
pub struct Camera {
    pub position: Vec3,
    pub front: Vec3,
    pub up: Vec3,
    pub right: Vec3,
    pub world_up: Vec3,
    pub yaw: i64,
    pub pitch: i64,
    pub movement_speed: i64,
    pub mouse_sensitivity: i64,
    pub zoom: i64,
}

/// The unnormalized front direction spelled out from yaw and pitch:
/// `(cos yaw * cos pitch, sin pitch, sin yaw * cos pitch)`.
pub open spec fn front_raw_spec(yaw: int, pitch: int) -> (int, int, int) {
    (
        mul_fx_spec(cos_fx_spec(yaw), cos_fx_spec(pitch)),
        sin_fx_spec(pitch),
        mul_fx_spec(sin_fx_spec(yaw), cos_fx_spec(pitch)),
    )
}

/// The front vector: the raw direction rescaled to unit length.
pub open spec fn front_spec(yaw: int, pitch: int) -> (int, int, int) {
    normalize3_spec(front_raw_spec(yaw, pitch))
}

/// The right vector: `normalize(front x world_up)`.
pub open spec fn right_spec(yaw: int, pitch: int, world_up: (int, int, int)) -> (int, int, int) {
    normalize3_spec(cross_fx_spec(front_spec(yaw, pitch), world_up))
}

/// The up vector: `normalize(right x front)`.
pub open spec fn up_spec(yaw: int, pitch: int, world_up: (int, int, int)) -> (int, int, int) {
    normalize3_spec(cross_fx_spec(right_spec(yaw, pitch, world_up), front_spec(yaw, pitch)))
}

/// The stored basis is exactly the one derived from yaw and pitch.
pub open spec fn has_derived_basis(c: Camera) -> bool {
    vec_is(c.front, front_spec(c.yaw as int, c.pitch as int))
    && vec_is(c.right, right_spec(c.yaw as int, c.pitch as int, vec3i(c.world_up)))
    && vec_is(c.up, up_spec(c.yaw as int, c.pitch as int, vec3i(c.world_up)))
}

/// A well-formed camera: the basis and `world_up` are unit-bounded,
/// the input parameters and the stored angles sit inside the machine
/// limits, and the field of view is inside its clamp interval.
pub open spec fn camera_wf(c: Camera) -> bool {
    vec_bounded(c.front, FX_ONE as int)
    && vec_bounded(c.right, FX_ONE as int)
    && vec_bounded(c.up, FX_ONE as int)
    && vec_bounded(c.world_up, FX_ONE as int)
    && 0 < c.movement_speed <= SPEED_LIMIT
    && 0 <= c.mouse_sensitivity <= SENSITIVITY_LIMIT
    && ZOOM_MIN <= c.zoom <= ZOOM_MAX
    && abs_spec(c.yaw as int) <= ANGLE_SAFE
    && abs_spec(c.pitch as int) <= ANGLE_SAFE
}

/// Where one keyboard step leaves the camera position: the position
/// moved along `front` (forward/backward) or `right` (strafing) by
/// `movement_speed * delta_time`.
pub open spec fn moved_position_spec(c: Camera, direction: CameraMovement, delta_time: int) -> (
    int,
    int,
    int,
) {
    let v = mul_fx_spec(c.movement_speed as int, delta_time);
    match direction {
        CameraMovement::Forward => add3(vec3i(c.position), scale3_fx(vec3i(c.front), v)),
        CameraMovement::Backward => sub3(vec3i(c.position), scale3_fx(vec3i(c.front), v)),
        CameraMovement::Left => sub3(vec3i(c.position), scale3_fx(vec3i(c.right), v)),
        CameraMovement::Right => add3(vec3i(c.position), scale3_fx(vec3i(c.right), v)),
    }
}

/// The look-at transform built from a camera's position and basis, as
/// the GL convention wants it: columns hold the renormalized side, up
/// and negated front axes, and the last column carries the negated
/// projections of the position onto them.
pub open spec fn is_view_matrix_of(c: Camera, m: Mat4) -> bool {
    let f = normalize3_spec(vec3i(c.front));
    let s = normalize3_spec(cross_fx_spec(f, vec3i(c.up)));
    let u = cross_fx_spec(s, f);
    m.m00 == s.0 && m.m10 == s.1 && m.m20 == s.2
    && m.m01 == u.0 && m.m11 == u.1 && m.m21 == u.2
    && m.m02 == -f.0 && m.m12 == -f.1 && m.m22 == -f.2
    && m.m03 == 0 && m.m13 == 0 && m.m23 == 0
    && m.m30 == -dot_fx_spec(s, vec3i(c.position))
    && m.m31 == -dot_fx_spec(u, vec3i(c.position))
    && m.m32 == dot_fx_spec(f, vec3i(c.position))
    && m.m33 == FX_ONE
}

impl Camera {
    /// Recomputes front, right and up from yaw and pitch. Every change
    /// of either angle flows through here, constructor included.
    fn update_camera_vectors(&mut self)
        requires
            abs_spec(old(self).yaw as int) <= ANGLE_SAFE,
            abs_spec(old(self).pitch as int) <= ANGLE_SAFE,
            vec_bounded(old(self).world_up, FX_ONE as int),
        ensures
            vec_is(final(self).front, front_spec(old(self).yaw as int, old(self).pitch as int)),
            vec_is(
                final(self).right,
                right_spec(old(self).yaw as int, old(self).pitch as int, vec3i(old(self).world_up)),
            ),
            vec_is(
                final(self).up,
                up_spec(old(self).yaw as int, old(self).pitch as int, vec3i(old(self).world_up)),
            ),
            vec_bounded(final(self).front, FX_ONE as int),
            vec_bounded(final(self).right, FX_ONE as int),
            vec_bounded(final(self).up, FX_ONE as int),
            final(self).position == old(self).position,
            final(self).world_up == old(self).world_up,
            final(self).yaw == old(self).yaw,
            final(self).pitch == old(self).pitch,
            final(self).movement_speed == old(self).movement_speed,
            final(self).mouse_sensitivity == old(self).mouse_sensitivity,
            final(self).zoom == old(self).zoom,
    {
        let cy: i64 = cos_fx(self.yaw);
        let sy: i64 = sin_fx(self.yaw);
        let cp: i64 = cos_fx(self.pitch);
        let sp: i64 = sin_fx(self.pitch);
        proof {
            lemma_mul_fx_bound(cy as int, cp as int, FX_ONE as int, FX_ONE as int);
            lemma_mul_fx_bound(sy as int, cp as int, FX_ONE as int, FX_ONE as int);
        }
        let front_raw = Vec3::new(mul_fx(cy, cp), sp, mul_fx(sy, cp));
        self.front = front_raw.normalize();
        proof {
            lemma_cross_fx_bounded(vec3i(self.front), vec3i(self.world_up), FX_ONE as int);
        }
        let right_raw = self.front.cross_fx(self.world_up);
        self.right = right_raw.normalize();
        proof {
            lemma_cross_fx_bounded(vec3i(self.right), vec3i(self.front), FX_ONE as int);
        }
        let up_raw = self.right.cross_fx(self.front);
        self.up = up_raw.normalize();
    }

    /// A camera at `position` looking along the yaw/pitch direction,
    /// with the default speed, sensitivity and field of view, and the
    /// world-up axis along positive y. The basis is derived from the
    /// angles at construction.
    pub fn new(position: Vec3, yaw: i64, pitch: i64) -> (c: Camera)
        requires
            abs_spec(yaw as int) <= ANGLE_SAFE,
            abs_spec(pitch as int) <= ANGLE_SAFE,
        ensures
            c.position == position,
            c.yaw == yaw,
            c.pitch == pitch,
            vec_is(c.world_up, (0int, FX_ONE as int, 0int)),
            c.movement_speed == SPEED_DEFAULT,
            c.mouse_sensitivity == SENSITIVITY_DEFAULT,
            c.zoom == ZOOM_DEFAULT,
            has_derived_basis(c),
            camera_wf(c),
    {
        let mut c = Camera {
            position,
            front: Vec3::new(0, 0, -FX_ONE),
            up: Vec3::new(0, FX_ONE, 0),
            right: Vec3::new(FX_ONE, 0, 0),
            world_up: Vec3::new(0, FX_ONE, 0),
            yaw,
            pitch,
            movement_speed: SPEED_DEFAULT,
            mouse_sensitivity: SENSITIVITY_DEFAULT,
            zoom: ZOOM_DEFAULT,
        };
        c.update_camera_vectors();
        c
    }

    /// Moves the position one keyboard step along the front or right
    /// axis, scaled by `movement_speed * delta_time`. Orientation,
    /// zoom and the input parameters are untouched.
    pub fn process_keyboard(&mut self, direction: CameraMovement, delta_time: i64)
        requires
            camera_wf(*old(self)),
            0 <= delta_time <= DELTA_LIMIT,
            vec_bounded(old(self).position, POSITION_LIMIT as int),
        ensures
            vec_is(
                final(self).position,
                moved_position_spec(*old(self), direction, delta_time as int),
            ),
            vec_bounded(final(self).position, FX_LIMIT as int),
            final(self).front == old(self).front,
            final(self).up == old(self).up,
            final(self).right == old(self).right,
            final(self).world_up == old(self).world_up,
            final(self).yaw == old(self).yaw,
            final(self).pitch == old(self).pitch,
            final(self).movement_speed == old(self).movement_speed,
            final(self).mouse_sensitivity == old(self).mouse_sensitivity,
            final(self).zoom == old(self).zoom,
            camera_wf(*final(self)),
    {
        let velocity: i64 = mul_fx(self.movement_speed, delta_time);
        proof {
            lemma_mul_fx_bound(
                self.movement_speed as int,
                delta_time as int,
                SPEED_LIMIT as int,
                DELTA_LIMIT as int,
            );
        }
        match direction {
            CameraMovement::Forward => {
                let d = self.front.scale_fx(velocity);
                proof {
                    lemma_step_bounded(vec3i(self.front), velocity as int);
                }
                self.position = self.position.add(d);
            },
            CameraMovement::Backward => {
                let d = self.front.scale_fx(velocity);
                proof {
                    lemma_step_bounded(vec3i(self.front), velocity as int);
                }
                self.position = self.position.sub(d);
            },
            CameraMovement::Left => {
                let d = self.right.scale_fx(velocity);
                proof {
                    lemma_step_bounded(vec3i(self.right), velocity as int);
                }
                self.position = self.position.sub(d);
            },
            CameraMovement::Right => {
                let d = self.right.scale_fx(velocity);
                proof {
                    lemma_step_bounded(vec3i(self.right), velocity as int);
                }
                self.position = self.position.add(d);
            },
        }
    }

    /// Turns the camera by the mouse offsets scaled by the
    /// sensitivity. While `constrain_pitch` holds, the new pitch is
    /// clamped into `[-PITCH_LIMIT, PITCH_LIMIT]` and therefore never
    /// leaves that interval, however often the update is applied. The
    /// basis is rederived from the new angles.
    pub fn process_mouse_movement(&mut self, x_offset: i64, y_offset: i64, constrain_pitch: bool)
        requires
            camera_wf(*old(self)),
            abs_spec(x_offset as int) <= OFFSET_LIMIT,
            abs_spec(y_offset as int) <= OFFSET_LIMIT,
            abs_spec(old(self).yaw as int) <= ANGLE_BEFORE_UPDATE,
            abs_spec(old(self).pitch as int) <= ANGLE_BEFORE_UPDATE,
        ensures
            final(self).yaw == old(self).yaw + mul_fx_spec(
                x_offset as int,
                old(self).mouse_sensitivity as int,
            ),
            final(self).pitch == if constrain_pitch {
                clamp_spec(
                    old(self).pitch + mul_fx_spec(y_offset as int, old(self).mouse_sensitivity as int),
                    -PITCH_LIMIT as int,
                    PITCH_LIMIT as int,
                )
            } else {
                old(self).pitch + mul_fx_spec(y_offset as int, old(self).mouse_sensitivity as int)
            },
            constrain_pitch ==> -PITCH_LIMIT <= final(self).pitch <= PITCH_LIMIT,
            has_derived_basis(*final(self)),
            final(self).position == old(self).position,
            final(self).world_up == old(self).world_up,
            final(self).movement_speed == old(self).movement_speed,
            final(self).mouse_sensitivity == old(self).mouse_sensitivity,
            final(self).zoom == old(self).zoom,
            camera_wf(*final(self)),
    {
        proof {
            lemma_mul_fx_bound(
                x_offset as int,
                self.mouse_sensitivity as int,
                OFFSET_LIMIT as int,
                SENSITIVITY_LIMIT as int,
            );
            lemma_mul_fx_bound(
                y_offset as int,
                self.mouse_sensitivity as int,
                OFFSET_LIMIT as int,
                SENSITIVITY_LIMIT as int,
            );
        }
        let dx: i64 = mul_fx(x_offset, self.mouse_sensitivity);
        let dy: i64 = mul_fx(y_offset, self.mouse_sensitivity);
        self.yaw = self.yaw + dx;
        self.pitch = self.pitch + dy;
        if constrain_pitch {
            self.pitch = clamp(self.pitch, -PITCH_LIMIT, PITCH_LIMIT);
        }
        self.update_camera_vectors();
    }

    /// Narrows or widens the field of view by the scroll offset; the
    /// result never leaves `[ZOOM_MIN, ZOOM_MAX]`, however often the
    /// update is applied. Nothing else changes.
    pub fn process_mouse_scroll(&mut self, y_offset: i64)
        requires
            camera_wf(*old(self)),
            abs_spec(y_offset as int) <= FX_LIMIT,
        ensures
            final(self).zoom == clamp_spec(
                old(self).zoom - y_offset,
                ZOOM_MIN as int,
                ZOOM_MAX as int,
            ),
            ZOOM_MIN <= final(self).zoom <= ZOOM_MAX,
            final(self).position == old(self).position,
            final(self).front == old(self).front,
            final(self).up == old(self).up,
            final(self).right == old(self).right,
            final(self).world_up == old(self).world_up,
            final(self).yaw == old(self).yaw,
            final(self).pitch == old(self).pitch,
            final(self).movement_speed == old(self).movement_speed,
            final(self).mouse_sensitivity == old(self).mouse_sensitivity,
            camera_wf(*final(self)),
    {
        self.zoom = clamp(self.zoom - y_offset, ZOOM_MIN, ZOOM_MAX);
    }

    /// The look-at transform built from `position`, `position + front`
    /// and `up`. A pure function of the camera state: it writes
    /// nothing, and its result is pinned entry by entry by
    /// `is_view_matrix_of`.
    pub fn get_view_matrix(&self) -> (m: Mat4)
        requires
            camera_wf(*self),
            vec_bounded(self.position, FX_LIMIT as int),
        ensures
            is_view_matrix_of(*self, m),
    {
        let f = self.front.normalize();
        proof {
            lemma_cross_fx_bounded(vec3i(f), vec3i(self.up), FX_ONE as int);
        }
        let s = f.cross_fx(self.up).normalize();
        proof {
            lemma_cross_fx_bounded(vec3i(s), vec3i(f), FX_ONE as int);
        }
        let u = s.cross_fx(f);
        let ts: i64 = s.dot_fx(self.position);
        let tu: i64 = u.dot_fx(self.position);
        let tf: i64 = f.dot_fx(self.position);
        Mat4 {
            m00: s.x, m01: u.x, m02: -f.x, m03: 0,
            m10: s.y, m11: u.y, m12: -f.y, m13: 0,
            m20: s.z, m21: u.z, m22: -f.z, m23: 0,
            m30: -ts, m31: -tu, m32: tf, m33: FX_ONE,
        }
    }
}

/// One movement step along a unit-bounded axis stays small: each
/// component moves by at most `SPEED_LIMIT * DELTA_LIMIT / FX_ONE`.
proof fn lemma_step_bounded(axis: (int, int, int), v: int)
    requires
        bounded3(axis, FX_ONE as int),
        abs_spec(v) <= 1_000_000_000,
    ensures
        bounded3(scale3_fx(axis, v), 1_000_000_000),
{
    lemma_mul_fx_bound(axis.0, v, FX_ONE as int, 1_000_000_000int);
    lemma_mul_fx_bound(axis.1, v, FX_ONE as int, 1_000_000_000int);
    lemma_mul_fx_bound(axis.2, v, FX_ONE as int, 1_000_000_000int);
}

/// Law: with the world-up axis along y, the derived right vector is
/// exactly horizontal — its y component is zero, so it is orthogonal
/// to the world-up axis with no rounding at all, for every yaw and
/// pitch. (Orthogonality among all three basis vectors holds exactly
/// of the unrounded construction, `lemma_cross_raw_orthogonal`, and
/// within fixed-point rounding of the stored basis.)
pub proof fn lemma_right_is_horizontal(yaw: int, pitch: int)
    ensures
        right_spec(yaw, pitch, (0int, FX_ONE as int, 0int)).1 == 0,
{
    let f = front_spec(yaw, pitch);
    let c = cross_fx_spec(f, (0int, FX_ONE as int, 0int));
    assert(f.2 * 0 - f.0 * 0 == 0) by (nonlinear_arith);
    assert(c.1 == 0);
    let n = crate::fx::isqrt_spec(crate::vec3::norm_sq(c));
    if n != 0 {
        assert(right_spec(yaw, pitch, (0int, FX_ONE as int, 0int)).1 == crate::fx::div_trunc(
            0 * FX_ONE,
            n,
        ));
        assert(crate::fx::div_trunc(0, n) == 0);
    }
}

/// Law: the view matrix is a function of the camera state alone. Any
/// two matrices that stand in the view-matrix relation to the same
/// camera are equal, so two calls of `get_view_matrix` with no state
/// change in between return identical matrices.
pub proof fn lemma_view_matrix_pure(c: Camera, m1: Mat4, m2: Mat4)
    requires
        is_view_matrix_of(c, m1),
        is_view_matrix_of(c, m2),
    ensures
        m1 == m2,
{
}

/// Law: moving FORWARD and then BACKWARD by the same time step returns
/// the position exactly to its starting point, whatever the camera's
/// yaw and pitch. The two steps are taken through the keyboard
/// contract: `c1` is `c0` after a FORWARD step, and the BACKWARD step
/// from `c1` lands back on `c0`'s position.
pub proof fn lemma_forward_backward_returns(c0: Camera, c1: Camera, delta_time: int)
    requires
        vec_is(c1.position, moved_position_spec(c0, CameraMovement::Forward, delta_time)),
        c1.front == c0.front,
        c1.movement_speed == c0.movement_speed,
    ensures
        moved_position_spec(c1, CameraMovement::Backward, delta_time) == vec3i(c0.position),
{
}

} // verus!
