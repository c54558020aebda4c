use raytracer::fx::Fx;
use raytracer::math::point::Point;
use raytracer::math::ray::Ray;
use raytracer::math::transformations::Transformation;
use raytracer::math::vector::Vector;

const S: f64 = 4294967296.0;

fn fx(v: f64) -> Fx {
    Fx { raw: (v * S).round() as i64 }
}

fn fl(x: Fx) -> f64 {
    x.raw as f64 / S
}

fn p(x: f64, y: f64, z: f64) -> Point {
    Point::new(fx(x), fx(y), fx(z))
}

fn v(x: f64, y: f64, z: f64) -> Vector {
    Vector::new(fx(x), fx(y), fx(z))
}

fn near_p(a: Point, x: f64, y: f64, z: f64) {
    assert!((fl(a.x) - x).abs() < 1e-4);
    assert!((fl(a.y) - y).abs() < 1e-4);
    assert!((fl(a.z) - z).abs() < 1e-4);
}

#[test]
fn create_ray() {
    let origin = p(1.0, 2.0, 3.0);
    let direction = v(4.0, 5.0, 6.0);
    let r = Ray::new(origin, direction);
    assert_eq!(r.origin, origin);
    assert_eq!(r.direction, direction);
}

#[test]
fn position_from_distance() {
    let r = Ray::new(p(2.0, 3.0, 4.0), v(1.0, 0.0, 0.0));
    near_p(r.position(fx(0.0)), 2.0, 3.0, 4.0);
    near_p(r.position(fx(1.0)), 3.0, 3.0, 4.0);
    near_p(r.position(fx(-1.0)), 1.0, 3.0, 4.0);
    near_p(r.position(fx(2.5)), 4.5, 3.0, 4.0);
}

#[test]
fn translate_a_ray() {
    let r = Ray::new(p(1.0, 2.0, 3.0), v(0.0, 1.0, 0.0));
    let m = Transformation::translation(fx(3.0), fx(4.0), fx(5.0));
    let r2 = r.transform(m);
    near_p(r2.origin, 4.0, 6.0, 8.0);
    assert!((fl(r2.direction.y) - 1.0).abs() < 1e-9);
}

#[test]
fn scale_a_ray() {
    let r = Ray::new(p(1.0, 2.0, 3.0), v(0.0, 1.0, 0.0));
    let m = Transformation::scaling(fx(2.0), fx(3.0), fx(4.0));
    let r2 = r.transform(m);
    near_p(r2.origin, 2.0, 6.0, 12.0);
    assert!((fl(r2.direction.y) - 3.0).abs() < 1e-9);
}
