use vstd::prelude::*;
use vstd::arithmetic::div_mod::lemma_div_is_ordered;
use vstd::arithmetic::div_mod::lemma_div_by_multiple;
use crate::fx::{FX_ONE, FX_LIMIT, abs_spec, div_trunc, mul_fx_spec, isqrt_spec, isqrt_u128, scale_down, mul_fx, lemma_isqrt_unique, lemma_mul_fx_bound};

verus! {

/// A three-component vector of fixed-point scalars.
#[derive(Clone, Copy, PartialEq, Eq, Structural, Debug)]
pub struct Vec3 {
    pub x: i64,
    pub y: i64,
    pub z: i64,
}

/// The mathematical value of a vector, component by component.
pub open spec fn vec3i(v: Vec3) -> (int, int, int) {
    (v.x as int, v.y as int, v.z as int)
}

/// A vector holds exactly this triple.
pub open spec fn vec_is(v: Vec3, t: (int, int, int)) -> bool {
    v.x == t.0 && v.y == t.1 && v.z == t.2
}

/// Every component of the triple has magnitude at most `m`.
pub open spec fn bounded3(t: (int, int, int), m: int) -> bool {
    abs_spec(t.0) <= m && abs_spec(t.1) <= m && abs_spec(t.2) <= m
}

/// Every component of the vector has magnitude at most `m`.
pub open spec fn vec_bounded(v: Vec3, m: int) -> bool {
    bounded3(vec3i(v), m)
}

pub open spec fn add3(u: (int, int, int), v: (int, int, int)) -> (int, int, int) {
    (u.0 + v.0, u.1 + v.1, u.2 + v.2)
}

pub open spec fn sub3(u: (int, int, int), v: (int, int, int)) -> (int, int, int) {
    (u.0 - v.0, u.1 - v.1, u.2 - v.2)
}

/// Each component scaled by the fixed-point factor `s`.
pub open spec fn scale3_fx(u: (int, int, int), s: int) -> (int, int, int) {
    (mul_fx_spec(u.0, s), mul_fx_spec(u.1, s), mul_fx_spec(u.2, s))
}

/// The unscaled dot product.
pub open spec fn dot_raw(u: (int, int, int), v: (int, int, int)) -> int {
    u.0 * v.0 + u.1 * v.1 + u.2 * v.2
}

/// The fixed-point dot product: the raw products rescaled once.
pub open spec fn dot_fx_spec(u: (int, int, int), v: (int, int, int)) -> int {
    div_trunc(dot_raw(u, v), FX_ONE as int)
}

/// The unscaled cross product.
pub open spec fn cross_raw(u: (int, int, int), v: (int, int, int)) -> (int, int, int) {
    (u.1 * v.2 - u.2 * v.1, u.2 * v.0 - u.0 * v.2, u.0 * v.1 - u.1 * v.0)
}

/// The fixed-point cross product: the raw entries rescaled once.
pub open spec fn cross_fx_spec(u: (int, int, int), v: (int, int, int)) -> (int, int, int) {
    (
        div_trunc(cross_raw(u, v).0, FX_ONE as int),
        div_trunc(cross_raw(u, v).1, FX_ONE as int),
        div_trunc(cross_raw(u, v).2, FX_ONE as int),
    )
}

/// The squared length of a triple.
pub open spec fn norm_sq(t: (int, int, int)) -> int {
    t.0 * t.0 + t.1 * t.1 + t.2 * t.2
}

/// The triple rescaled to unit length (in fixed point), by the integer
/// square root of its squared length; the zero vector stays zero.
pub open spec fn normalize3_spec(t: (int, int, int)) -> (int, int, int) {
    let n = isqrt_spec(norm_sq(t));
    if n == 0 {
        (0, 0, 0)
    } else {
        (
            div_trunc(t.0 * FX_ONE, n),
            div_trunc(t.1 * FX_ONE, n),
            div_trunc(t.2 * FX_ONE, n),
        )
    }
}

/// The exact cross product is orthogonal to both of its factors: the
/// raw dot product of either factor with the raw cross product is zero.
/// The stored camera basis is the fixed-point rounding of this exact
/// construction.
pub proof fn lemma_cross_raw_orthogonal(u: (int, int, int), v: (int, int, int))
    ensures
        dot_raw(u, cross_raw(u, v)) == 0,
        dot_raw(v, cross_raw(u, v)) == 0,
{
    lemma_cross_ortho_scalar(u.0, u.1, u.2, v.0, v.1, v.2);
}

/// The polynomial identity behind the orthogonality of the cross product.
proof fn lemma_cross_ortho_scalar(ux: int, uy: int, uz: int, vx: int, vy: int, vz: int)
    by (nonlinear_arith)
    ensures
        ux * (uy * vz - uz * vy) + uy * (uz * vx - ux * vz) + uz * (ux * vy - uy * vx) == 0,
        vx * (uy * vz - uz * vy) + vy * (uz * vx - ux * vz) + vz * (ux * vy - uy * vx) == 0,
{
}

impl Vec3 {
    pub fn new(x: i64, y: i64, z: i64) -> (r: Vec3)
        ensures
            r.x == x && r.y == y && r.z == z,
    {
        Vec3 { x, y, z }
    }

    /// Componentwise sum.
    pub fn add(self, o: Vec3) -> (r: Vec3)
        requires
            i64::MIN <= self.x + o.x <= i64::MAX,
            i64::MIN <= self.y + o.y <= i64::MAX,
            i64::MIN <= self.z + o.z <= i64::MAX,
        ensures
            vec_is(r, add3(vec3i(self), vec3i(o))),
    {
        Vec3 { x: self.x + o.x, y: self.y + o.y, z: self.z + o.z }
    }

    /// Componentwise difference.
    pub fn sub(self, o: Vec3) -> (r: Vec3)
        requires
            i64::MIN <= self.x - o.x <= i64::MAX,
            i64::MIN <= self.y - o.y <= i64::MAX,
            i64::MIN <= self.z - o.z <= i64::MAX,
        ensures
            vec_is(r, sub3(vec3i(self), vec3i(o))),
    {
        Vec3 { x: self.x - o.x, y: self.y - o.y, z: self.z - o.z }
    }

    /// Each component scaled by the fixed-point factor `s`.
    pub fn scale_fx(self, s: i64) -> (r: Vec3)
        requires
            vec_bounded(self, FX_LIMIT as int),
            -FX_LIMIT <= s <= FX_LIMIT,
        ensures
            vec_is(r, scale3_fx(vec3i(self), s as int)),
    {
        Vec3 { x: mul_fx(self.x, s), y: mul_fx(self.y, s), z: mul_fx(self.z, s) }
    }

    /// The fixed-point dot product.
    pub fn dot_fx(self, o: Vec3) -> (r: i64)
        requires
            vec_bounded(self, FX_LIMIT as int),
            vec_bounded(o, FX_LIMIT as int),
        ensures
            r == dot_fx_spec(vec3i(self), vec3i(o)),
            -4_000_000_000_000_000_000 <= r <= 4_000_000_000_000_000_000,
    {
        proof {
            lemma_i128_product_bound(self.x as int, o.x as int);
            lemma_i128_product_bound(self.y as int, o.y as int);
            lemma_i128_product_bound(self.z as int, o.z as int);
        }
        let px: i128 = self.x as i128 * o.x as i128;
        let py: i128 = self.y as i128 * o.y as i128;
        let pz: i128 = self.z as i128 * o.z as i128;
        scale_down(px + py + pz)
    }

    /// The fixed-point cross product.
    pub fn cross_fx(self, o: Vec3) -> (r: Vec3)
        requires
            vec_bounded(self, FX_LIMIT as int),
            vec_bounded(o, FX_LIMIT as int),
        ensures
            vec_is(r, cross_fx_spec(vec3i(self), vec3i(o))),
    {
        proof {
            lemma_i128_product_bound(self.y as int, o.z as int);
            lemma_i128_product_bound(self.z as int, o.y as int);
            lemma_i128_product_bound(self.z as int, o.x as int);
            lemma_i128_product_bound(self.x as int, o.z as int);
            lemma_i128_product_bound(self.x as int, o.y as int);
            lemma_i128_product_bound(self.y as int, o.x as int);
        }
        let cx: i128 = self.y as i128 * o.z as i128 - self.z as i128 * o.y as i128;
        let cy: i128 = self.z as i128 * o.x as i128 - self.x as i128 * o.z as i128;
        let cz: i128 = self.x as i128 * o.y as i128 - self.y as i128 * o.x as i128;
        Vec3 { x: scale_down(cx), y: scale_down(cy), z: scale_down(cz) }
    }

    /// Rescales the vector to unit length in fixed point; the zero
    /// vector stays zero. Every component of the result has magnitude
    /// at most `FX_ONE`.
    pub fn normalize(self) -> (r: Vec3)
        requires
            vec_bounded(self, FX_LIMIT as int),
        ensures
            vec_is(r, normalize3_spec(vec3i(self))),
            vec_bounded(r, FX_ONE as int),
    {
        proof {
            lemma_i128_product_bound(self.x as int, self.x as int);
            lemma_i128_product_bound(self.y as int, self.y as int);
            lemma_i128_product_bound(self.z as int, self.z as int);
            assert(self.x as int * self.x as int >= 0) by (nonlinear_arith);
            assert(self.y as int * self.y as int >= 0) by (nonlinear_arith);
            assert(self.z as int * self.z as int >= 0) by (nonlinear_arith);
        }
        let sx: i128 = self.x as i128 * self.x as i128;
        let sy: i128 = self.y as i128 * self.y as i128;
        let sz: i128 = self.z as i128 * self.z as i128;
        let s2: u128 = (sx + sy + sz) as u128;
        let n: u128 = isqrt_u128(s2);
        if n == 0 {
            proof {
                lemma_isqrt_unique(norm_sq(vec3i(self)), 0);
            }
            Vec3 { x: 0, y: 0, z: 0 }
        } else {
            let rx: i64 = normalize_component(self.x, n);
            let ry: i64 = normalize_component(self.y, n);
            let rz: i64 = normalize_component(self.z, n);
            proof {
                lemma_component_le_isqrt(self.x as int, n as int, s2 as int);
                lemma_component_le_isqrt(self.y as int, n as int, s2 as int);
                lemma_component_le_isqrt(self.z as int, n as int, s2 as int);
                lemma_normalize_component_bound(self.x as int, n as int);
                lemma_normalize_component_bound(self.y as int, n as int);
                lemma_normalize_component_bound(self.z as int, n as int);
            }
            Vec3 { x: rx, y: ry, z: rz }
        }
    }
}

/// A shared bound on both factors bounds the fixed-point cross product.
pub proof fn lemma_cross_fx_bounded(u: (int, int, int), v: (int, int, int), m: int)
    requires
        bounded3(u, m),
        bounded3(v, m),
        0 <= m,
    ensures
        bounded3(cross_fx_spec(u, v), (2 * m * m) / (FX_ONE as int)),
{
    lemma_cross_entry_bound(u.1, v.2, u.2, v.1, m);
    lemma_cross_entry_bound(u.2, v.0, u.0, v.2, m);
    lemma_cross_entry_bound(u.0, v.1, u.1, v.0, m);
}

/// One entry of the cross product, `a*b - c*d`, rescaled, is bounded.
proof fn lemma_cross_entry_bound(a: int, b: int, c: int, d: int, m: int)
    requires
        abs_spec(a) <= m,
        abs_spec(b) <= m,
        abs_spec(c) <= m,
        abs_spec(d) <= m,
        0 <= m,
    ensures
        abs_spec(div_trunc(a * b - c * d, FX_ONE as int)) <= (2 * m * m) / (FX_ONE as int),
{
    assert(abs_spec(a * b - c * d) <= 2 * m * m) by (nonlinear_arith)
        requires
            abs_spec(a) <= m,
            abs_spec(b) <= m,
            abs_spec(c) <= m,
            abs_spec(d) <= m,
    ;
    crate::fx::lemma_div_trunc_abs(a * b - c * d, FX_ONE as int);
    lemma_div_is_ordered(abs_spec(a * b - c * d), 2 * m * m, FX_ONE as int);
}

/// Products of `FX_LIMIT`-bounded values stay far inside the `i128` range.
proof fn lemma_i128_product_bound(a: int, b: int)
    by (nonlinear_arith)
    requires
        abs_spec(a) <= FX_LIMIT as int,
        abs_spec(b) <= FX_LIMIT as int,
    ensures
        -1_000_000_000_000_000_000_000_000 <= a * b <= 1_000_000_000_000_000_000_000_000,
{
}

/// A component's magnitude never exceeds the integer square root of the
/// squared length it contributes to.
proof fn lemma_component_le_isqrt(x: int, n: int, s2: int)
    by (nonlinear_arith)
    requires
        0 <= n,
        x * x <= s2,
        s2 < (n + 1) * (n + 1),
    ensures
        abs_spec(x) <= n,
{
}

/// One rescaled component of a normalized vector: `x * FX_ONE / n`.
fn normalize_component(x: i64, n: u128) -> (r: i64)
    requires
        -FX_LIMIT <= x <= FX_LIMIT,
        n >= 1,
    ensures
        r == div_trunc(x as int * FX_ONE, n as int),
{
    let m: u128 = if x < 0 {
        (-(x as i128)) as u128
    } else {
        x as u128
    };
    let num: u128 = m * 1_000_000;
    let q: u128 = num / n;
    proof {
        lemma_div_is_ordered_by_denominator_wrap(num as int, n as int);
    }
    if x < 0 {
        -(q as i64)
    } else {
        q as i64
    }
}

/// A nonnegative quotient is no larger than its numerator.
proof fn lemma_div_is_ordered_by_denominator_wrap(num: int, n: int)
    requires
        0 <= num,
        1 <= n,
    ensures
        num / n <= num,
{
    vstd::arithmetic::div_mod::lemma_div_is_ordered_by_denominator(num, 1, n);
    assert(num / 1 == num);
}

/// If `|x| <= n`, the rescaled component has magnitude at most `FX_ONE`.
proof fn lemma_normalize_component_bound(x: int, n: int)
    requires
        1 <= n,
        abs_spec(x) <= n,
    ensures
        abs_spec(div_trunc(x * FX_ONE, n)) <= FX_ONE as int,
{
    assert(abs_spec(x * FX_ONE) <= n * FX_ONE) by (nonlinear_arith)
        requires
            abs_spec(x) <= n,
    ;
    if x >= 0 {
        vstd::arithmetic::div_mod::lemma_div_pos_is_pos(x * FX_ONE, n);
        lemma_div_is_ordered(x * FX_ONE, n * FX_ONE, n);
        lemma_div_by_multiple(FX_ONE as int, n);
        assert(n * FX_ONE == FX_ONE as int * n) by (nonlinear_arith);
    } else {
        vstd::arithmetic::div_mod::lemma_div_pos_is_pos(-(x * FX_ONE), n);
        lemma_div_is_ordered(-(x * FX_ONE), n * FX_ONE, n);
        lemma_div_by_multiple(FX_ONE as int, n);
        assert(n * FX_ONE == FX_ONE as int * n) by (nonlinear_arith);
    }
}

} // verus!
