use raytracer::fx::Fx;
use raytracer::math::point::Point;
use raytracer::math::transformations::Transformation;
use raytracer::math::vector::Vector;
use std::f64::consts::PI;

const S: f64 = 4294967296.0;

fn fx(v: f64) -> Fx {
    Fx { raw: (v * S).round() as i64 }
}

fn fl(x: Fx) -> f64 {
    x.raw as f64 / S
}

fn p(x: f64, y: f64, z: f64) -> Point {
    Point::new(fx(x), fx(y), fx(z))
}

fn v(x: f64, y: f64, z: f64) -> Vector {
    Vector::new(fx(x), fx(y), fx(z))
}

fn near_p(a: Point, x: f64, y: f64, z: f64) {
    assert!((fl(a.x) - x).abs() < 1e-4, "x {} vs {}", fl(a.x), x);
    assert!((fl(a.y) - y).abs() < 1e-4, "y {} vs {}", fl(a.y), y);
    assert!((fl(a.z) - z).abs() < 1e-4, "z {} vs {}", fl(a.z), z);
}

fn near_v(a: Vector, x: f64, y: f64, z: f64) {
    assert!((fl(a.x) - x).abs() < 1e-4);
    assert!((fl(a.y) - y).abs() < 1e-4);
    assert!((fl(a.z) - z).abs() < 1e-4);
}

#[test]
fn multiply_point() {
    let t = Transformation::translation(fx(5.0), fx(-3.0), fx(2.0));
    near_p(t.mul_point(&p(-3.0, 4.0, 5.0)), 2.0, 1.0, 7.0);
}

#[test]
fn inverse_multiply_point() {
    let t = Transformation::translation(fx(5.0), fx(-3.0), fx(2.0));
    let inv = t.inverse().unwrap();
    near_p(inv.mul_point(&p(-3.0, 4.0, 5.0)), -8.0, 7.0, 3.0);
}

#[test]
fn multiply_vector() {
    // translation does not affect vectors
    let t = Transformation::translation(fx(5.0), fx(-3.0), fx(2.0));
    near_v(t.mul_vector(&v(-3.0, 4.0, 5.0)), -3.0, 4.0, 5.0);
    // scaling does
    let s = Transformation::scaling(fx(2.0), fx(3.0), fx(4.0));
    near_v(s.mul_vector(&v(-4.0, 6.0, 8.0)), -8.0, 18.0, 32.0);
}

#[test]
fn inverse_multiply_vector() {
    let s = Transformation::scaling(fx(2.0), fx(3.0), fx(4.0));
    let inv = s.inverse().unwrap();
    near_v(inv.mul_vector(&v(-4.0, 6.0, 8.0)), -2.0, 2.0, 2.0);
}

#[test]
fn point_around_x() {
    let half_quarter = Transformation::rotate_x(fx(PI / 4.0));
    let full_quarter = Transformation::rotate_x(fx(PI / 2.0));
    let r = 2.0_f64.sqrt() / 2.0;
    near_p(half_quarter.mul_point(&p(0.0, 1.0, 0.0)), 0.0, r, r);
    near_p(full_quarter.mul_point(&p(0.0, 1.0, 0.0)), 0.0, 0.0, 1.0);
}

#[test]
fn inverse_point_around_x() {
    let half_quarter = Transformation::rotate_x(fx(PI / 4.0));
    let inv = half_quarter.inverse().unwrap();
    let r = 2.0_f64.sqrt() / 2.0;
    near_p(inv.mul_point(&p(0.0, 1.0, 0.0)), 0.0, r, -r);
}

#[test]
fn point_around_y() {
    let half_quarter = Transformation::rotate_y(fx(PI / 4.0));
    let full_quarter = Transformation::rotate_y(fx(PI / 2.0));
    let r = 2.0_f64.sqrt() / 2.0;
    near_p(half_quarter.mul_point(&p(0.0, 0.0, 1.0)), r, 0.0, r);
    near_p(full_quarter.mul_point(&p(0.0, 0.0, 1.0)), 1.0, 0.0, 0.0);
}

#[test]
fn point_around_z() {
    let half_quarter = Transformation::rotate_z(fx(PI / 4.0));
    let full_quarter = Transformation::rotate_z(fx(PI / 2.0));
    let r = 2.0_f64.sqrt() / 2.0;
    near_p(half_quarter.mul_point(&p(0.0, 1.0, 0.0)), -r, r, 0.0);
    near_p(full_quarter.mul_point(&p(0.0, 1.0, 0.0)), -1.0, 0.0, 0.0);
}

#[test]
fn x_moves_in_proportion_to_y() {
    let t = Transformation::shearing(fx(1.0), fx(0.0), fx(0.0), fx(0.0), fx(0.0), fx(0.0));
    near_p(t.mul_point(&p(2.0, 3.0, 4.0)), 5.0, 3.0, 4.0);
}

#[test]
fn x_moves_in_proportion_to_z() {
    let t = Transformation::shearing(fx(0.0), fx(1.0), fx(0.0), fx(0.0), fx(0.0), fx(0.0));
    near_p(t.mul_point(&p(2.0, 3.0, 4.0)), 6.0, 3.0, 4.0);
}

#[test]
fn y_moves_in_proportion_to_x() {
    let t = Transformation::shearing(fx(0.0), fx(0.0), fx(1.0), fx(0.0), fx(0.0), fx(0.0));
    near_p(t.mul_point(&p(2.0, 3.0, 4.0)), 2.0, 5.0, 4.0);
}

#[test]
fn y_moves_in_proportion_to_z() {
    let t = Transformation::shearing(fx(0.0), fx(0.0), fx(0.0), fx(1.0), fx(0.0), fx(0.0));
    near_p(t.mul_point(&p(2.0, 3.0, 4.0)), 2.0, 7.0, 4.0);
}

#[test]
fn z_moves_in_proportion_to_x() {
    let t = Transformation::shearing(fx(0.0), fx(0.0), fx(0.0), fx(0.0), fx(1.0), fx(0.0));
    near_p(t.mul_point(&p(2.0, 3.0, 4.0)), 2.0, 3.0, 6.0);
}

#[test]
fn z_moves_in_proportion_to_y() {
    let t = Transformation::shearing(fx(0.0), fx(0.0), fx(0.0), fx(0.0), fx(0.0), fx(1.0));
    near_p(t.mul_point(&p(2.0, 3.0, 4.0)), 2.0, 3.0, 7.0);
}

#[test]
fn apply_individually() {
    let a = Transformation::rotate_x(fx(PI / 2.0));
    let b = Transformation::scaling(fx(5.0), fx(5.0), fx(5.0));
    let c = Transformation::translation(fx(10.0), fx(5.0), fx(7.0));
    let p2 = a.mul_point(&p(1.0, 0.0, 1.0));
    near_p(p2, 1.0, -1.0, 0.0);
    let p3 = b.mul_point(&p2);
    near_p(p3, 5.0, -5.0, 0.0);
    let p4 = c.mul_point(&p3);
    near_p(p4, 15.0, 0.0, 7.0);
}

#[test]
fn chained_transformations() {
    let a = Transformation::rotate_x(fx(PI / 2.0));
    let b = Transformation::scaling(fx(5.0), fx(5.0), fx(5.0));
    let c = Transformation::translation(fx(10.0), fx(5.0), fx(7.0));
    let t = c.mul_t(&b).mul_t(&a);
    near_p(t.mul_point(&p(1.0, 0.0, 1.0)), 15.0, 0.0, 7.0);
    // the same through the fluent helpers on Point
    let q = p(1.0, 0.0, 1.0).rotate_x(fx(PI / 2.0)).scaling(fx(5.0), fx(5.0), fx(5.0)).translation(
        fx(10.0),
        fx(5.0),
        fx(7.0),
    );
    near_p(q, 15.0, 0.0, 7.0);
}

#[test]
fn view_transformation_default_orientation() {
    let t = Transformation::view(p(0.0, 0.0, 0.0), p(0.0, 0.0, -1.0), v(0.0, 1.0, 0.0));
    for r in 0..4 {
        for c in 0..4 {
            let expected: f64 = if r == c { 1.0 } else { 0.0 };
            assert!((fl(t.matrix.get(r, c)) - expected).abs() < 1e-4);
        }
    }
}

#[test]
fn view_transformation_moves_the_world() {
    let t = Transformation::view(p(0.0, 0.0, 8.0), p(0.0, 0.0, 0.0), v(0.0, 1.0, 0.0));
    near_p(t.mul_point(&p(0.0, 0.0, 8.0)), 0.0, 0.0, 0.0);
    near_p(t.mul_point(&p(0.0, 0.0, 7.0)), 0.0, 0.0, -1.0);
}
