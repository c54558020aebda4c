use raytracer::fx::Fx;
use raytracer::math::point::Point;
use raytracer::math::ray::Ray;
use raytracer::math::vector::Vector;
use raytracer::objects::cube;
use raytracer::objects::shape::Shape;

const S: f64 = 4294967296.0;

fn fx(v: f64) -> Fx {
    Fx { raw: (v * S).round() as i64 }
}

fn fl(x: Fx) -> f64 {
    x.raw as f64 / S
}

fn p(x: f64, y: f64, z: f64) -> Point {
    Point::new(fx(x), fx(y), fx(z))
}

fn v(x: f64, y: f64, z: f64) -> Vector {
    Vector::new(fx(x), fx(y), fx(z))
}

fn near(a: Fx, b: f64) {
    assert!((fl(a) - b).abs() < 1e-4, "{} vs {}", fl(a), b);
}

#[test]
fn intersects_ray() {
    let c: Shape = cube::default();
    let cases = [
        (p(5.0, 0.5, 0.0), v(-1.0, 0.0, 0.0), 4.0, 6.0),
        (p(-5.0, 0.5, 0.0), v(1.0, 0.0, 0.0), 4.0, 6.0),
        (p(0.5, 5.0, 0.0), v(0.0, -1.0, 0.0), 4.0, 6.0),
        (p(0.5, -5.0, 0.0), v(0.0, 1.0, 0.0), 4.0, 6.0),
        (p(0.5, 0.0, 5.0), v(0.0, 0.0, -1.0), 4.0, 6.0),
        (p(0.5, 0.0, -5.0), v(0.0, 0.0, 1.0), 4.0, 6.0),
        (p(0.0, 0.5, 0.0), v(0.0, 0.0, 1.0), -1.0, 1.0),
    ];
    for (origin, direction, t1, t2) in cases {
        let ray = Ray::new(origin, direction);
        let xs = c.intersects(&ray).unwrap();
        assert_eq!(xs.count(), 2);
        near(xs.get_intersection(0).unwrap(), t1);
        near(xs.get_intersection(1).unwrap(), t2);
    }
}

#[test]
fn cube_ray_misses() {
    let c: Shape = cube::default();
    let cases = [
        (p(-2.0, 0.0, 0.0), v(0.2673, 0.5345, 0.8018)),
        (p(0.0, -2.0, 0.0), v(0.8018, 0.2673, 0.5345)),
        (p(0.0, 0.0, -2.0), v(0.5345, 0.8018, 0.2673)),
        (p(2.0, 0.0, 2.0), v(0.0, 0.0, -1.0)),
        (p(0.0, 2.0, 2.0), v(0.0, -1.0, 0.0)),
        (p(2.0, 2.0, 0.0), v(-1.0, 0.0, 0.0)),
    ];
    for (origin, direction) in cases {
        let ray = Ray::new(origin, direction);
        assert!(c.intersects(&ray).is_none());
    }
}

#[test]
fn normal_on_surface_of_a_cube() {
    let c: Shape = cube::default();
    let cases = [
        (p(1.0, 0.5, -0.8), (1.0, 0.0, 0.0)),
        (p(-1.0, -0.2, 0.9), (-1.0, 0.0, 0.0)),
        (p(-0.4, 1.0, -0.1), (0.0, 1.0, 0.0)),
        (p(0.3, -1.0, -0.7), (0.0, -1.0, 0.0)),
        (p(-0.6, 0.3, 1.0), (0.0, 0.0, 1.0)),
        (p(0.4, 0.4, -1.0), (0.0, 0.0, -1.0)),
        (p(1.0, 1.0, 1.0), (1.0, 0.0, 0.0)),
        (p(-1.0, -1.0, -1.0), (-1.0, 0.0, 0.0)),
    ];
    for (point, (nx, ny, nz)) in cases {
        let n = c.normal_at(point).unwrap();
        near(n.x, nx);
        near(n.y, ny);
        near(n.z, nz);
    }
}
