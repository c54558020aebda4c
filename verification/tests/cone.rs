use raytracer::fx::Fx;
use raytracer::math::point::Point;
use raytracer::math::ray::Ray;
use raytracer::math::vector::Vector;
use raytracer::objects::cone;
use raytracer::objects::shape::Shape;

const S: f64 = 4294967296.0;

fn fx(v: f64) -> Fx {
    Fx { raw: (v * S).round() as i64 }
}

fn fl(x: Fx) -> f64 {
    x.raw as f64 / S
}

fn p(x: f64, y: f64, z: f64) -> Point {
    Point::new(fx(x), fx(y), fx(z))
}

fn v(x: f64, y: f64, z: f64) -> Vector {
    Vector::new(fx(x), fx(y), fx(z))
}

#[test]
fn cone_ray_hits() {
    // the middle case grazes the cone where the quadratic degenerates,
    // so its roots are resolved more coarsely
    let cases = [
        (p(0.0, 0.0, -5.0), v(0.0, 0.0, 1.0), 5.0, 5.0, 1e-4),
        (p(0.0, 0.0, -5.0), v(1.0, 1.0, 1.0), 8.66025, 8.66025, 1e-3),
        (p(1.0, 1.0, -5.0), v(-0.5, -1.0, 1.0), 4.55006, 49.44994, 1e-4),
    ];
    for (origin, direction, i1, i2, tol) in cases {
        let ray = Ray::new(origin, direction.normalize());
        let s: Shape = cone::default();
        let xs = s.intersects(&ray).unwrap();
        assert_eq!(xs.count(), 2);
        assert!((fl(xs.get_intersection(0).unwrap()) - i1).abs() < tol);
        assert!((fl(xs.get_intersection(1).unwrap()) - i2).abs() < tol);
    }
}

#[test]
fn ray_parallel_to_one_of_its_halves() {
    let ray = Ray::new(p(0.0, 0.0, -1.0), v(0.0, 1.0, 1.0).normalize());
    let s: Shape = cone::default();
    let xs = s.intersects(&ray).unwrap();
    assert_eq!(xs.count(), 1);
    assert!((fl(xs.get_intersection(0).unwrap()) - 0.35355).abs() < 1e-4);
}

#[test]
fn intersescting_caps_of_closed_cone() {
    let cases = [
        (p(0.0, 0.0, -5.0), v(0.0, 1.0, 0.0), 0),
        (p(0.0, 0.0, -0.25), v(0.0, 1.0, 1.0), 2),
        (p(0.0, 0.0, -0.25), v(0.0, 1.0, 0.0), 4),
    ];
    for (origin, direction, count) in cases {
        let ray = Ray::new(origin, direction.normalize());
        let s: Shape = cone::semi_default(fx(-0.5), fx(0.5), true);
        match s.intersects(&ray) {
            Some(xs) => assert_eq!(xs.count(), count),
            None => assert_eq!(0, count),
        }
    }
}

#[test]
fn normal_vector_on_cone() {
    // the local (unnormalized) normals of the double-napped cone,
    // including the all-zero normal at the apex
    let sqrt2 = 2.0_f64.sqrt();
    let cases = [
        (p(0.0, 0.0, 0.0), (0.0, 0.0, 0.0)),
        (p(1.0, 1.0, 1.0), (1.0, -sqrt2, 1.0)),
        (p(-1.0, -1.0, 0.0), (-1.0, 1.0, 0.0)),
    ];
    let c = cone::default();
    for (q, (nx, ny, nz)) in cases {
        let n = cone::object_normal_at(&c, q, fx(-1e9), fx(1e9));
        assert!((fl(n.x) - nx).abs() < 1e-4);
        assert!((fl(n.y) - ny).abs() < 1e-4);
        assert!((fl(n.z) - nz).abs() < 1e-4);
    }
}
