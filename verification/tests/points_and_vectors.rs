use raytracer::fx::Fx;
use raytracer::math::point::Point;
use raytracer::math::vector::Vector;

const S: f64 = 4294967296.0;

fn fx(v: f64) -> Fx {
    Fx { raw: (v * S).round() as i64 }
}

fn fl(x: Fx) -> f64 {
    x.raw as f64 / S
}

fn near(a: Fx, b: f64) {
    assert!((fl(a) - b).abs() < 1e-4, "{} vs {}", fl(a), b);
}

fn p(x: f64, y: f64, z: f64) -> Point {
    Point::new(fx(x), fx(y), fx(z))
}

fn v(x: f64, y: f64, z: f64) -> Vector {
    Vector::new(fx(x), fx(y), fx(z))
}

fn near_p(a: Point, x: f64, y: f64, z: f64) {
    near(a.x, x);
    near(a.y, y);
    near(a.z, z);
}

fn near_v(a: Vector, x: f64, y: f64, z: f64) {
    near(a.x, x);
    near(a.y, y);
    near(a.z, z);
}

#[test]
fn new_creates_points() {
    let a = p(4.3, -4.2, 3.1);
    near(a.x, 4.3);
    near(a.y, -4.2);
    near(a.z, 3.1);
}

#[test]
fn adding_point_and_vector_ie_displacment() {
    let a = p(3.0, -2.0, 5.0);
    let b = v(-2.0, 3.0, 1.0);
    near_p(a.displacment(&b), 1.0, 1.0, 6.0);
}

#[test]
fn subtracting_point_and_vector_ie_negative_displacment() {
    let a = p(3.0, 2.0, 1.0);
    let b = v(5.0, 6.0, 7.0);
    near_p(a.negative_displacment(&b), -2.0, -4.0, -6.0);
}

#[test]
fn subtracting_points_give_vector() {
    let a = p(3.0, 2.0, 1.0);
    let b = p(5.0, 6.0, 7.0);
    near_v(a.subtract(&b), -2.0, -4.0, -6.0);
}

#[test]
fn adding_vector_and_vector() {
    let a = v(3.0, -2.0, 5.0);
    let b = v(-2.0, 3.0, 1.0);
    near_v(a.add(&b), 1.0, 1.0, 6.0);
}

#[test]
fn negate_vectors() {
    near_v(v(1.0, -2.0, 3.0).negate(), -1.0, 2.0, -3.0);
}

#[test]
fn scalar_multiplication() {
    near_v(v(1.0, -2.0, 3.0).scale(fx(3.5)), 3.5, -7.0, 10.5);
    near_v(v(1.0, -2.0, 3.0).scale(fx(0.5)), 0.5, -1.0, 1.5);
}

#[test]
fn magnitude_of_unit_vectors() {
    near(v(1.0, 0.0, 0.0).magnitude(), 1.0);
    near(v(0.0, 1.0, 0.0).magnitude(), 1.0);
    near(v(0.0, 0.0, 1.0).magnitude(), 1.0);
}

#[test]
fn magnitude_of_positive_vectors() {
    near(v(1.0, 2.0, 3.0).magnitude(), 14.0_f64.sqrt());
}

#[test]
fn magnitude_of_negative_vectors() {
    near(v(-1.0, -2.0, -3.0).magnitude(), 14.0_f64.sqrt());
}

#[test]
fn normalizing_vectors() {
    near_v(v(4.0, 0.0, 0.0).normalize(), 1.0, 0.0, 0.0);
    let n = v(1.0, 2.0, 3.0).normalize();
    let m = 14.0_f64.sqrt();
    near_v(n, 1.0 / m, 2.0 / m, 3.0 / m);
    near(n.magnitude(), 1.0);
}

#[test]
fn dot_product() {
    near(v(1.0, 2.0, 3.0).dot_product(&v(2.0, 3.0, 4.0)), 20.0);
}

#[test]
fn cross_product() {
    near_v(v(1.0, 2.0, 3.0).cross_product(&v(2.0, 3.0, 4.0)), -1.0, 2.0, -1.0);
    near_v(v(2.0, 3.0, 4.0).cross_product(&v(1.0, 2.0, 3.0)), 1.0, -2.0, 1.0);
}

#[test]
fn reflecting_ray() {
    // a vector approaching at 45 degrees
    near_v(v(1.0, -1.0, 0.0).reflect(v(0.0, 1.0, 0.0)), 1.0, 1.0, 0.0);
    // off a slanted surface
    let r = 2.0_f64.sqrt() / 2.0;
    near_v(v(0.0, -1.0, 0.0).reflect(v(r, r, 0.0)), 1.0, 0.0, 0.0);
}

#[test]
fn projectile_tick_advances() {
    let env = raytracer::exercises::projectile::Environment {
        gravity: v(0.0, -0.1, 0.0),
        wind: v(-0.01, 0.0, 0.0),
    };
    let start = raytracer::exercises::projectile::Projectile {
        position: p(0.0, 1.0, 0.0),
        velocity: v(1.0, 1.0, 0.0).normalize(),
    };
    let after = raytracer::exercises::projectile::tick(&env, &start);
    let r = 2.0_f64.sqrt() / 2.0;
    near_p(after.position, r, 1.0 + r, 0.0);
    near_v(after.velocity, r - 0.01, r - 0.1, 0.0);
}
