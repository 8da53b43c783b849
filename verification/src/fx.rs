use vstd::prelude::*;
use vstd::arithmetic::div_mod::lemma_div_is_ordered;
use vstd::arithmetic::div_mod::lemma_div_is_ordered_by_denominator;
use vstd::arithmetic::div_mod::lemma_div_pos_is_pos;

verus! {

/// Raw fixed-point steps in one unit: every scalar in the library is
/// an `i64` holding `value * FX_ONE`.
pub const FX_ONE: i64 = 1_000_000;

/// Largest magnitude the fixed-point kernels accept for an operand.
pub const FX_LIMIT: i64 = 1_000_000_000_000;

/// Magnitude of an integer.
pub open spec fn abs_spec(x: int) -> int {
    if x >= 0 {
        x
    } else {
        -x
    }
}

/// Quotient of `a` by `b`, truncated toward zero (`b > 0`).
pub open spec fn div_trunc(a: int, b: int) -> int {
    if a >= 0 {
        a / b
    } else {
        -((-a) / b)
    }
}

/// Product of two fixed-point values, rescaled and truncated toward zero.
pub open spec fn mul_fx_spec(a: int, b: int) -> int {
    div_trunc(a * b, FX_ONE as int)
}

/// Fixed-point quotient of `a` by `b`, rescaled and truncated toward zero.
pub open spec fn div_fx_spec(a: int, b: int) -> int {
    if b >= 0 {
        div_trunc(a * FX_ONE, b)
    } else {
        div_trunc(-(a * FX_ONE), -b)
    }
}

/// `x` forced into the interval `[lo, hi]`.
pub open spec fn clamp_spec(x: int, lo: int, hi: int) -> int {
    if x < lo {
        lo
    } else if x > hi {
        hi
    } else {
        x
    }
}

pub fn clamp(x: i64, lo: i64, hi: i64) -> (r: i64)
    requires
        lo <= hi,
    ensures
        r == clamp_spec(x as int, lo as int, hi as int),
{
    if x < lo {
        lo
    } else if x > hi {
        hi
    } else {
        x
    }
}

/// Truncation toward zero divides the magnitude by the divisor.
pub proof fn lemma_div_trunc_abs(a: int, b: int)
    requires
        b > 0,
    ensures
        abs_spec(div_trunc(a, b)) == abs_spec(a) / b,
{
    if a >= 0 {
        lemma_div_pos_is_pos(a, b);
    } else {
        lemma_div_pos_is_pos(-a, b);
    }
}

/// A bound on both factors bounds the rescaled product.
pub proof fn lemma_mul_fx_bound(a: int, b: int, am: int, bm: int)
    requires
        abs_spec(a) <= am,
        abs_spec(b) <= bm,
    ensures
        abs_spec(mul_fx_spec(a, b)) <= (am * bm) / (FX_ONE as int),
{
    assert(abs_spec(a * b) <= am * bm) by (nonlinear_arith)
        requires
            abs_spec(a) <= am,
            abs_spec(b) <= bm,
    ;
    lemma_div_trunc_abs(a * b, FX_ONE as int);
    lemma_div_is_ordered(abs_spec(a * b), am * bm, FX_ONE as int);
}

/// Fixed-point multiplication: `r == a * b / FX_ONE`, truncated toward zero.
pub fn mul_fx(a: i64, b: i64) -> (r: i64)
    requires
        -FX_LIMIT <= a <= FX_LIMIT,
        -FX_LIMIT <= b <= FX_LIMIT,
    ensures
        r == mul_fx_spec(a as int, b as int),
{
    let am: u128 = if a < 0 {
        (-(a as i128)) as u128
    } else {
        a as u128
    };
    let bm: u128 = if b < 0 {
        (-(b as i128)) as u128
    } else {
        b as u128
    };
    assert(am == abs_spec(a as int));
    assert(bm == abs_spec(b as int));
    assert(am * bm <= 1_000_000_000_000_000_000_000_000) by (nonlinear_arith)
        requires
            am <= 1_000_000_000_000,
            bm <= 1_000_000_000_000,
    ;
    let p: u128 = am * bm;
    assert(p == abs_spec(a as int * b as int)) by (nonlinear_arith)
        requires
            am == abs_spec(a as int),
            bm == abs_spec(b as int),
            p == am * bm,
    ;
    let q: u128 = p / 1_000_000;
    proof {
        lemma_div_is_ordered(p as int, 1_000_000_000_000_000_000_000_000int, 1_000_000int);
        lemma_div_trunc_abs(a as int * b as int, FX_ONE as int);
    }
    if (a < 0) != (b < 0) {
        proof {
            assert(a as int * b as int <= 0) by (nonlinear_arith)
                requires
                    (a < 0 && b >= 0) || (a >= 0 && b < 0),
            ;
        }
        -(q as i64)
    } else {
        proof {
            assert(a as int * b as int >= 0) by (nonlinear_arith)
                requires
                    (a < 0 && b < 0) || (a >= 0 && b >= 0),
            ;
        }
        q as i64
    }
}

/// The integer square root: the greatest `r` with `r * r <= n`.
pub open spec fn isqrt_spec(n: int) -> int {
    choose|r: int| 0 <= r && #[trigger] (r * r) <= n && n < (r + 1) * (r + 1)
}

/// Any value with the square-root property is the integer square root.
pub proof fn lemma_isqrt_unique(n: int, r: int)
    requires
        0 <= r,
        r * r <= n,
        n < (r + 1) * (r + 1),
    ensures
        isqrt_spec(n) == r,
{
    assert(0 <= r && r * r <= n && n < (r + 1) * (r + 1));
    let c = isqrt_spec(n);
    assert(0 <= c && c * c <= n && n < (c + 1) * (c + 1));
    assert(!(c < r)) by (nonlinear_arith)
        requires
            0 <= r,
            0 <= c,
            r * r <= n,
            n < (c + 1) * (c + 1),
    ;
    assert(!(r < c)) by (nonlinear_arith)
        requires
            0 <= r,
            0 <= c,
            c * c <= n,
            n < (r + 1) * (r + 1),
    ;
}

/// Binary-search integer square root.
pub fn isqrt_u128(n: u128) -> (r: u128)
    ensures
        r * r <= n,
        n < (r + 1) * (r + 1),
        r <= 0xFFFF_FFFF_FFFF_FFFFu128,
        r as int == isqrt_spec(n as int),
{
    let mut lo: u128 = 0;
    let mut hi: u128 = 0xFFFF_FFFF_FFFF_FFFF;
    proof {
        assert((hi as int + 1) * (hi as int + 1) > n as int) by (nonlinear_arith)
            requires
                hi == 0xFFFF_FFFF_FFFF_FFFFu128,
                n <= u128::MAX,
        ;
    }
    while lo < hi
        invariant
            lo <= hi <= 0xFFFF_FFFF_FFFF_FFFFu128,
            lo * lo <= n,
            n < (hi + 1) * (hi + 1),
        decreases hi - lo,
    {
        let mid: u128 = lo + (hi - lo + 1) / 2;
        proof {
            assert(mid * mid <= u128::MAX) by (nonlinear_arith)
                requires
                    mid <= 0xFFFF_FFFF_FFFF_FFFFu128,
            ;
        }
        if mid * mid <= n {
            lo = mid;
        } else {
            hi = mid - 1;
        }
    }
    proof {
        lemma_isqrt_unique(n as int, lo as int);
    }
    lo
}

/// Divides a double-scale product by `FX_ONE`, truncating toward zero.
pub(crate) fn scale_down(p: i128) -> (r: i64)
    requires
        -4_000_000_000_000_000_000_000_000i128 <= p <= 4_000_000_000_000_000_000_000_000i128,
    ensures
        r == div_trunc(p as int, FX_ONE as int),
        -4_000_000_000_000_000_000 <= r <= 4_000_000_000_000_000_000,
{
    let m: u128 = if p < 0 {
        (-p) as u128
    } else {
        p as u128
    };
    let q: u128 = m / 1_000_000;
    proof {
        lemma_div_is_ordered(m as int, 4_000_000_000_000_000_000_000_000int, 1_000_000int);
    }
    if p < 0 {
        -(q as i64)
    } else {
        q as i64
    }
}

/// A bound on the numerator and a positive floor under the divisor
/// bound the rescaled quotient.
pub proof fn lemma_div_fx_bound(a: int, b: int, am: int, bmin: int)
    requires
        abs_spec(a) <= am,
        b >= bmin,
        bmin >= 1,
    ensures
        abs_spec(div_fx_spec(a, b)) <= (am * FX_ONE) / bmin,
{
    lemma_div_trunc_abs(a * FX_ONE, b);
    assert(abs_spec(a * FX_ONE) == abs_spec(a) * FX_ONE);
    assert(abs_spec(a) * FX_ONE <= am * FX_ONE) by (nonlinear_arith)
        requires
            abs_spec(a) <= am,
    ;
    lemma_div_is_ordered(abs_spec(a * FX_ONE), am * FX_ONE, b);
    assert(0 <= am * FX_ONE) by (nonlinear_arith)
        requires
            0 <= am,
    ;
    lemma_div_is_ordered_by_denominator(am * FX_ONE, bmin, b);
}

/// Fixed-point division: `r == a * FX_ONE / b`, truncated toward zero.
pub fn div_fx(a: i64, b: i64) -> (r: i64)
    requires
        -9_000_000_000_000 <= a <= 9_000_000_000_000,
        b != 0,
    ensures
        r == div_fx_spec(a as int, b as int),
{
    let am: u128 = if a < 0 {
        (-(a as i128)) as u128
    } else {
        a as u128
    };
    let bm: u128 = if b == i64::MIN {
        9_223_372_036_854_775_808u128
    } else if b < 0 {
        (-(b as i128)) as u128
    } else {
        b as u128
    };
    assert(am == abs_spec(a as int));
    assert(bm == abs_spec(b as int));
    let num: u128 = am * 1_000_000;
    let q: u128 = num / bm;
    proof {
        lemma_div_is_ordered_by_denominator(num as int, 1int, bm as int);
        assert(num as int / 1int == num as int);
        assert(q <= 9_000_000_000_000_000_000);
    }
    if (a < 0) != (b < 0) {
        assert(-(q as int) == div_fx_spec(a as int, b as int));
        -(q as i64)
    } else {
        assert(q as int == div_fx_spec(a as int, b as int));
        q as i64
    }
}

} // verus!
