use glutin_opengl_demo::fx::{clamp, div_fx, isqrt_u128, mul_fx, FX_ONE};
use glutin_opengl_demo::trig::{cos_fx, norm360, sin_fx, DEG_180, DEG_360, DEG_90};
use glutin_opengl_demo::vec3::Vec3;

#[test]
fn mul_fx_exact_values() {
    assert_eq!(mul_fx(2 * FX_ONE, 3 * FX_ONE), 6 * FX_ONE);
    assert_eq!(mul_fx(-3 * FX_ONE, 2 * FX_ONE), -6 * FX_ONE);
    assert_eq!(mul_fx(-3 * FX_ONE, -2 * FX_ONE), 6 * FX_ONE);
    assert_eq!(mul_fx(500_000, 500_000), 250_000);
    // truncation is toward zero on both signs
    assert_eq!(mul_fx(1, 1), 0);
    assert_eq!(mul_fx(-1, 1), 0);
    assert_eq!(mul_fx(0, 123_456), 0);
}

#[test]
fn div_fx_exact_values() {
    assert_eq!(div_fx(FX_ONE, 3 * FX_ONE), 333_333);
    assert_eq!(div_fx(-FX_ONE, 3 * FX_ONE), -333_333);
    assert_eq!(div_fx(FX_ONE, -3 * FX_ONE), -333_333);
    assert_eq!(div_fx(-FX_ONE, -3 * FX_ONE), 333_333);
    assert_eq!(div_fx(6 * FX_ONE, 2 * FX_ONE), 3 * FX_ONE);
}

#[test]
fn clamp_values() {
    assert_eq!(clamp(5, 1, 10), 5);
    assert_eq!(clamp(-5, 1, 10), 1);
    assert_eq!(clamp(50, 1, 10), 10);
    assert_eq!(clamp(1, 1, 10), 1);
    assert_eq!(clamp(10, 1, 10), 10);
}

#[test]
fn isqrt_values() {
    assert_eq!(isqrt_u128(0), 0);
    assert_eq!(isqrt_u128(1), 1);
    assert_eq!(isqrt_u128(2), 1);
    assert_eq!(isqrt_u128(3), 1);
    assert_eq!(isqrt_u128(4), 2);
    assert_eq!(isqrt_u128(1_000_000_000_000), 1_000_000);
    assert_eq!(isqrt_u128(999_999_999_999), 999_999);
    assert_eq!(isqrt_u128(u128::MAX), 0xFFFF_FFFF_FFFF_FFFF);
}

#[test]
fn norm360_values() {
    assert_eq!(norm360(0), 0);
    assert_eq!(norm360(-DEG_90), 270_000_000);
    assert_eq!(norm360(DEG_360), 0);
    assert_eq!(norm360(DEG_360 + 5), 5);
    assert_eq!(norm360(-DEG_360 - 5), DEG_360 - 5);
    assert_eq!(norm360(725 * 1_000_000), 5 * 1_000_000);
}

#[test]
fn sine_exact_at_quadrants() {
    assert_eq!(sin_fx(0), 0);
    assert_eq!(sin_fx(DEG_90), FX_ONE);
    assert_eq!(sin_fx(DEG_180), 0);
    assert_eq!(sin_fx(270_000_000), -FX_ONE);
    assert_eq!(sin_fx(DEG_360), 0);
    assert_eq!(sin_fx(-DEG_90), -FX_ONE);
    assert_eq!(cos_fx(0), FX_ONE);
    assert_eq!(cos_fx(DEG_90), 0);
    assert_eq!(cos_fx(DEG_180), -FX_ONE);
    assert_eq!(cos_fx(-DEG_90), 0);
}

#[test]
fn sine_approximation_values() {
    // the rational approximation is exact at 30 degrees ...
    assert_eq!(sin_fx(30 * FX_ONE), 500_000);
    // ... and within 0.2% elsewhere
    assert_eq!(sin_fx(45 * FX_ONE), 705_882);
    let true45 = 0.70710678f64;
    let got = sin_fx(45 * FX_ONE) as f64 / FX_ONE as f64;
    assert!((got - true45).abs() < 0.002);
}

#[test]
fn vector_ops_exact() {
    let a = Vec3::new(FX_ONE, 2 * FX_ONE, 3 * FX_ONE);
    let b = Vec3::new(4 * FX_ONE, -5 * FX_ONE, 6 * FX_ONE);
    assert_eq!(a.add(b), Vec3::new(5 * FX_ONE, -3 * FX_ONE, 9 * FX_ONE));
    assert_eq!(a.sub(b), Vec3::new(-3 * FX_ONE, 7 * FX_ONE, -3 * FX_ONE));
    assert_eq!(a.scale_fx(2 * FX_ONE), Vec3::new(2 * FX_ONE, 4 * FX_ONE, 6 * FX_ONE));
    // 1*4 - 2*5 + 3*6 = 12
    assert_eq!(a.dot_fx(b), 12 * FX_ONE);
    // (1,0,0) x (0,1,0) = (0,0,1)
    let x = Vec3::new(FX_ONE, 0, 0);
    let y = Vec3::new(0, FX_ONE, 0);
    assert_eq!(x.cross_fx(y), Vec3::new(0, 0, FX_ONE));
    assert_eq!(y.cross_fx(x), Vec3::new(0, 0, -FX_ONE));
}

#[test]
fn normalize_three_four_five() {
    let v = Vec3::new(3 * FX_ONE, 4 * FX_ONE, 0);
    assert_eq!(v.normalize(), Vec3::new(600_000, 800_000, 0));
    let zero = Vec3::new(0, 0, 0);
    assert_eq!(zero.normalize(), Vec3::new(0, 0, 0));
    let unit = Vec3::new(0, 0, -FX_ONE);
    assert_eq!(unit.normalize(), Vec3::new(0, 0, -FX_ONE));
}
