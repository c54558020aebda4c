use raytracer::constants::FX_SCALE;
use raytracer::constants::MAX_RAW;
use raytracer::fx::Fx;
use raytracer::objects::shape::new_shape_id;
use std::f64::consts::PI;

const S: f64 = 4294967296.0;

fn fx(v: f64) -> Fx {
    Fx { raw: (v * S).round() as i64 }
}

fn fl(x: Fx) -> f64 {
    x.raw as f64 / S
}

fn near(a: Fx, b: f64) {
    assert!((fl(a) - b).abs() < 1e-4, "{} vs {}", fl(a), b);
}

#[test]
fn arithmetic_basics() {
    assert_eq!(fx(1.5).add(fx(2.25)), fx(3.75));
    assert_eq!(fx(1.5).sub(fx(2.25)), fx(-0.75));
    assert_eq!(fx(-3.0).neg(), fx(3.0));
    assert_eq!(fx(-3.0).abs(), fx(3.0));
    assert_eq!(fx(1.5).mul(fx(2.0)), fx(3.0));
    assert_eq!(fx(3.0).div(fx(2.0)), fx(1.5));
    assert_eq!(fx(7.0).divi(2), fx(3.5));
    assert_eq!(fx(-1.0).min(fx(2.0)), fx(-1.0));
    assert_eq!(fx(-1.0).max(fx(2.0)), fx(2.0));
}

#[test]
fn saturation_instead_of_overflow() {
    let big = Fx { raw: MAX_RAW };
    assert_eq!(big.add(big).raw, MAX_RAW);
    assert_eq!(big.neg().sub(big).raw, -MAX_RAW);
    assert_eq!(big.mul(big).raw, MAX_RAW);
}

#[test]
fn division_by_zero_saturates_by_sign() {
    assert_eq!(fx(3.0).div(fx(0.0)).raw, MAX_RAW);
    assert_eq!(fx(-3.0).div(fx(0.0)).raw, -MAX_RAW);
    assert_eq!(fx(0.0).div(fx(0.0)).raw, 0);
}

#[test]
fn square_roots() {
    assert_eq!(fx(4.0).sqrt(), fx(2.0));
    assert_eq!(fx(1.0).sqrt(), fx(1.0));
    assert_eq!(fx(0.0).sqrt(), fx(0.0));
    near(fx(2.0).sqrt(), 2.0_f64.sqrt());
}

#[test]
fn powers() {
    assert_eq!(fx(2.0).powi(10), fx(1024.0));
    assert_eq!(fx(3.0).powi(0), Fx { raw: FX_SCALE });
    near(fx(0.5).powi(5), 0.03125);
}

#[test]
fn floors_and_parity() {
    assert_eq!(fx(2.75).floor(), fx(2.0));
    assert_eq!(fx(-0.25).floor(), fx(-1.0));
    assert!(fx(0.5).floor_is_even());
    assert!(!fx(1.5).floor_is_even());
    assert!(!fx(-0.25).floor_is_even());
    assert!(fx(2.0).floor_is_even());
}

#[test]
fn trigonometry() {
    near(fx(0.0).sin(), 0.0);
    near(fx(0.0).cos(), 1.0);
    near(fx(PI / 6.0).sin(), 0.5);
    near(fx(PI / 3.0).cos(), 0.5);
    near(fx(PI).sin(), 0.0);
    near(fx(10.0).sin(), 10.0_f64.sin());
    near(fx(-2.5).cos(), (-2.5_f64).cos());
    near(fx(PI / 4.0).tan(), 1.0);
}

#[test]
fn shape_ids_are_unique_and_increasing() {
    let mut counter: u128 = 0;
    let a = new_shape_id(&mut counter);
    let b = new_shape_id(&mut counter);
    let c = new_shape_id(&mut counter);
    assert!(a < b && b < c);
    assert_eq!(counter, 3);
}
