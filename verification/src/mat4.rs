use vstd::prelude::*;
use crate::fx::{FX_ONE, mul_fx_spec, div_fx_spec, mul_fx, div_fx, lemma_div_fx_bound, lemma_mul_fx_bound};
use crate::trig::{sin_fx_spec, cos_fx_spec, sin_fx, cos_fx};
use crate::vec3::{Vec3, vec3i};

verus! {

/// A 4x4 fixed-point matrix in column-major order: `mCR` is the entry
/// in column `C`, row `R`, as the GPU consumes it.
#[derive(Clone, Copy, PartialEq, Eq, Structural, Debug)]
pub struct Mat4 {
    pub m00: i64, pub m01: i64, pub m02: i64, pub m03: i64,
    pub m10: i64, pub m11: i64, pub m12: i64, pub m13: i64,
    pub m20: i64, pub m21: i64, pub m22: i64, pub m23: i64,
    pub m30: i64, pub m31: i64, pub m32: i64, pub m33: i64,
}

/// The identity transform.
pub open spec fn is_identity(m: Mat4) -> bool {
    m.m00 == FX_ONE && m.m01 == 0 && m.m02 == 0 && m.m03 == 0
    && m.m10 == 0 && m.m11 == FX_ONE && m.m12 == 0 && m.m13 == 0
    && m.m20 == 0 && m.m21 == 0 && m.m22 == FX_ONE && m.m23 == 0
    && m.m30 == 0 && m.m31 == 0 && m.m32 == 0 && m.m33 == FX_ONE
}

/// A pure translation by `t`: the identity with `t` in the last column.
pub open spec fn is_translation_of(m: Mat4, t: (int, int, int)) -> bool {
    m.m00 == FX_ONE && m.m01 == 0 && m.m02 == 0 && m.m03 == 0
    && m.m10 == 0 && m.m11 == FX_ONE && m.m12 == 0 && m.m13 == 0
    && m.m20 == 0 && m.m21 == 0 && m.m22 == FX_ONE && m.m23 == 0
    && m.m30 == t.0 && m.m31 == t.1 && m.m32 == t.2 && m.m33 == FX_ONE
}

/// The perspective projection for a vertical field of view `fovy`
/// (fixed-point degrees), an aspect ratio and two clip distances, as a
/// right-handed GL projection:
/// with `f = cot(fovy / 2)`, the diagonal holds `f / aspect`, `f` and
/// `(far + near) / (near - far)`; the last column holds
/// `2 * far * near / (near - far)`; and `m23 == -1` selects the
/// perspective divide. A degenerate field of view (its half-angle sine
/// is not positive) falls back to the identity.
pub open spec fn is_perspective_of(m: Mat4, fovy: int, aspect: int, near: int, far: int) -> bool {
    let half = fovy / 2;
    let s = sin_fx_spec(half);
    if s <= 0 {
        is_identity(m)
    } else {
        let f = div_fx_spec(cos_fx_spec(half), s);
        m.m00 == div_fx_spec(f, aspect) && m.m01 == 0 && m.m02 == 0 && m.m03 == 0
        && m.m10 == 0 && m.m11 == f && m.m12 == 0 && m.m13 == 0
        && m.m20 == 0 && m.m21 == 0
        && m.m22 == div_fx_spec(far + near, near - far)
        && m.m23 == -FX_ONE
        && m.m30 == 0 && m.m31 == 0
        && m.m32 == div_fx_spec(2 * mul_fx_spec(far, near), near - far)
        && m.m33 == 0
    }
}

impl Mat4 {
    /// The identity transform.
    pub fn identity() -> (m: Mat4)
        ensures
            is_identity(m),
    {
        Mat4 {
            m00: FX_ONE, m01: 0, m02: 0, m03: 0,
            m10: 0, m11: FX_ONE, m12: 0, m13: 0,
            m20: 0, m21: 0, m22: FX_ONE, m23: 0,
            m30: 0, m31: 0, m32: 0, m33: FX_ONE,
        }
    }

    /// A translation by `t`.
    pub fn from_translation(t: Vec3) -> (m: Mat4)
        ensures
            is_translation_of(m, vec3i(t)),
    {
        Mat4 {
            m00: FX_ONE, m01: 0, m02: 0, m03: 0,
            m10: 0, m11: FX_ONE, m12: 0, m13: 0,
            m20: 0, m21: 0, m22: FX_ONE, m23: 0,
            m30: t.x, m31: t.y, m32: t.z, m33: FX_ONE,
        }
    }

    /// The perspective projection. The field of view must be a sane
    /// angle and the clip planes must sit within the machine limits.
    pub fn perspective(fovy: i64, aspect: i64, near: i64, far: i64) -> (m: Mat4)
        requires
            1_000_000 <= fovy <= 179_000_000,
            1 <= aspect <= 1_000_000_000_000,
            0 < near <= 10_000_000,
            near < far <= 100_000_000_000,
        ensures
            is_perspective_of(m, fovy as int, aspect as int, near as int, far as int),
    {
        let half: i64 = ((fovy as u64) / 2) as i64;
        let s: i64 = sin_fx(half);
        if s <= 0 {
            Mat4::identity()
        } else {
            let c: i64 = cos_fx(half);
            let f: i64 = div_fx(c, s);
            proof {
                lemma_div_fx_bound(c as int, s as int, FX_ONE as int, 1);
                lemma_mul_fx_bound(far as int, near as int, 100_000_000_000int, 10_000_000int);
            }
            let fn_prod: i64 = mul_fx(far, near);
            Mat4 {
                m00: div_fx(f, aspect), m01: 0, m02: 0, m03: 0,
                m10: 0, m11: f, m12: 0, m13: 0,
                m20: 0, m21: 0,
                m22: div_fx(far + near, near - far),
                m23: -FX_ONE,
                m30: 0, m31: 0,
                m32: div_fx(2 * fn_prod, near - far),
                m33: 0,
            }
        }
    }
}

} // verus!
