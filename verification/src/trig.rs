use vstd::prelude::*;
use vstd::arithmetic::div_mod::lemma_fundamental_div_mod;
use vstd::arithmetic::div_mod::lemma_fundamental_div_mod_converse_mod;
use vstd::arithmetic::div_mod::lemma_div_is_ordered;
use vstd::arithmetic::div_mod::lemma_div_by_multiple;
use vstd::arithmetic::div_mod::lemma_div_pos_is_pos;
use crate::fx::FX_ONE;

verus! {

/// One full turn, in raw fixed-point degrees.
pub const DEG_360: i64 = 360_000_000;

/// Half a turn.
pub const DEG_180: i64 = 180_000_000;

/// A quarter turn.
pub const DEG_90: i64 = 90_000_000;

/// Largest angle magnitude the trigonometric kernels accept.
pub const ANGLE_LIMIT: i64 = 1_000_000_000_000_000_000;

/// The angle reduced to `[0, 360°)`.
pub open spec fn norm360_spec(a: int) -> int {
    a % (DEG_360 as int)
}

/// Bhaskara's rational approximation of the sine on `[0°, 180°]`,
/// in fixed point; exact at 0°, 90° and 180°.
pub open spec fn sin_half_spec(x: int) -> int {
    let t = x * (DEG_180 as int - x);
    (4 * t * FX_ONE) / (40_500_000_000_000_000 - t)
}

/// The fixed-point sine of an angle given in fixed-point degrees.
pub open spec fn sin_fx_spec(a: int) -> int {
    let x = norm360_spec(a);
    if x <= DEG_180 as int {
        sin_half_spec(x)
    } else {
        -sin_half_spec(x - DEG_180 as int)
    }
}

/// The fixed-point cosine: the sine a quarter turn ahead.
pub open spec fn cos_fx_spec(a: int) -> int {
    sin_fx_spec(a + DEG_90 as int)
}

/// Reduces an angle to `[0, 360°)`.
pub fn norm360(a: i64) -> (r: i64)
    requires
        -ANGLE_LIMIT <= a <= ANGLE_LIMIT,
    ensures
        r == norm360_spec(a as int),
        0 <= r < DEG_360,
{
    if a >= 0 {
        let m: u64 = (a as u64) % 360_000_000;
        m as i64
    } else {
        let na: u64 = (-a) as u64;
        let m: u64 = na % 360_000_000;
        proof {
            let d = DEG_360 as int;
            let q = na as int / d;
            lemma_fundamental_div_mod(na as int, d);
            if m == 0 {
                lemma_fundamental_div_mod_converse_mod(a as int, d, -q, 0);
            } else {
                lemma_fundamental_div_mod_converse_mod(a as int, d, -q - 1, d - m);
            }
        }
        if m == 0 {
            0
        } else {
            (360_000_000 - m) as i64
        }
    }
}

/// Bhaskara's sine on `[0°, 180°]`: `4x(180° - x) / (40500°² - x(180° - x))`,
/// carried out in fixed point.
fn sin_half(x: i64) -> (r: i64)
    requires
        0 <= x <= DEG_180,
    ensures
        r == sin_half_spec(x as int),
        0 <= r <= FX_ONE,
{
    let xu: u128 = x as u128;
    proof {
        assert(xu * (180_000_000 - xu) <= 8_100_000_000_000_000) by (nonlinear_arith)
            requires
                0 <= xu <= 180_000_000,
        ;
    }
    let t: u128 = xu * (180_000_000 - xu);
    proof {
        assert(t == x as int * (DEG_180 as int - x as int)) by (nonlinear_arith)
            requires
                0 <= x <= DEG_180,
                xu == x as u128,
                t == xu * (180_000_000 - xu),
        ;
    }
    let num: u128 = 4 * t * 1_000_000;
    let den: u128 = 40_500_000_000_000_000 - t;
    let q: u128 = num / den;
    proof {
        assert(num <= den * 1_000_000) by (nonlinear_arith)
            requires
                t <= 8_100_000_000_000_000,
                num == 4 * t * 1_000_000,
                den == 40_500_000_000_000_000 - t,
        ;
        lemma_div_is_ordered(num as int, den as int * 1_000_000, den as int);
        lemma_div_by_multiple(1_000_000int, den as int);
        assert(den as int * 1_000_000 == 1_000_000int * den as int) by (nonlinear_arith);
        lemma_div_pos_is_pos(num as int, den as int);
    }
    q as i64
}

/// The fixed-point sine. The result is a fixed-point value in `[-1, 1]`.
pub fn sin_fx(a: i64) -> (r: i64)
    requires
        -ANGLE_LIMIT <= a <= ANGLE_LIMIT,
    ensures
        r == sin_fx_spec(a as int),
        -FX_ONE <= r <= FX_ONE,
{
    let x: i64 = norm360(a);
    if x <= DEG_180 {
        sin_half(x)
    } else {
        let s: i64 = sin_half(x - DEG_180);
        -s
    }
}

/// The fixed-point cosine. The result is a fixed-point value in `[-1, 1]`.
pub fn cos_fx(a: i64) -> (r: i64)
    requires
        -ANGLE_LIMIT + DEG_90 <= a <= ANGLE_LIMIT - DEG_90,
    ensures
        r == cos_fx_spec(a as int),
        -FX_ONE <= r <= FX_ONE,
{
    sin_fx(a + DEG_90)
}

} // verus!
