use raytracer::fx::Fx;
use raytracer::graphics::materials::Material;
use raytracer::math::point::Point;
use raytracer::math::ray::Ray;
use raytracer::math::transformations::Transformation;
use raytracer::math::vector::Vector;
use raytracer::objects::shape::Shape;
use raytracer::objects::sphere;
use std::f64::consts;

const S: f64 = 4294967296.0;

fn fx(v: f64) -> Fx {
    Fx { raw: (v * S).round() as i64 }
}

fn fl(x: Fx) -> f64 {
    x.raw as f64 / S
}

fn p(x: f64, y: f64, z: f64) -> Point {
    Point::new(fx(x), fx(y), fx(z))
}

fn v(x: f64, y: f64, z: f64) -> Vector {
    Vector::new(fx(x), fx(y), fx(z))
}

fn near(a: Fx, b: f64) {
    assert!((fl(a) - b).abs() < 1e-4, "{} vs {}", fl(a), b);
}

fn near_v(a: Vector, x: f64, y: f64, z: f64) {
    near(a.x, x);
    near(a.y, y);
    near(a.z, z);
}

#[test]
fn intersect_two_points() {
    let ray = Ray::new(p(0.0, 0.0, -5.0), v(0.0, 0.0, 1.0));
    let s: Shape = sphere::default();
    let xs = s.intersects(&ray).unwrap();
    assert_eq!(xs.count(), 2);
    near(xs.get_intersection(0).unwrap(), 4.0);
    near(xs.get_intersection(1).unwrap(), 6.0);
    assert_eq!(xs.get_intersection(3), None);
}

#[test]
fn intersecets_at_tanget() {
    let ray = Ray::new(p(0.0, 1.0, -5.0), v(0.0, 0.0, 1.0));
    let s: Shape = sphere::default();
    let xs = s.intersects(&ray).unwrap();
    assert_eq!(xs.count(), 2);
    near(xs.get_intersection(0).unwrap(), 5.0);
    near(xs.get_intersection(1).unwrap(), 5.0);
    assert_eq!(xs.get_intersection(3), None);
}

#[test]
#[should_panic]
fn spheres_ray_misses() {
    let ray = Ray::new(p(0.0, 2.0, -5.0), v(0.0, 0.0, 1.0));
    let s: Shape = sphere::default();
    let _xs = s.intersects(&ray).unwrap();
}

#[test]
fn ray_originates_in_sphere() {
    // a ray through the center from inside: the two distances sit
    // symmetrically around the origin
    let ray = Ray::new(p(0.0, 0.0, 0.0), v(0.0, 0.0, 1.0));
    let s: Shape = sphere::default();
    let xs = s.intersects(&ray).unwrap();
    assert_eq!(xs.count(), 2);
    near(xs.get_intersection(0).unwrap(), -1.0);
    near(xs.get_intersection(1).unwrap(), 1.0);
}

#[test]
fn sphere_behind_ray() {
    let ray = Ray::new(p(0.0, 0.0, 5.0), v(0.0, 0.0, 1.0));
    let s: Shape = sphere::default();
    let xs = s.intersects(&ray).unwrap();
    assert_eq!(xs.count(), 2);
    near(xs.get_intersection(0).unwrap(), -6.0);
    near(xs.get_intersection(1).unwrap(), -4.0);
}

#[test]
fn sphere_default_transformation() {
    let s: Shape = sphere::default();
    assert_eq!(s.transformation, Transformation::identity());
}

#[test]
fn intersecting_scaled_sphere() {
    let ray = Ray::new(p(0.0, 0.0, -5.0), v(0.0, 0.0, 1.0));
    let transformation = Transformation::scaling(fx(2.0), fx(2.0), fx(2.0));
    let s: Shape = sphere::new(transformation, Material::default());
    let xs = s.intersects(&ray).unwrap();
    assert_eq!(xs.count(), 2);
    near(xs.get_intersection(0).unwrap(), 3.0);
    near(xs.get_intersection(1).unwrap(), 7.0);
}

#[test]
#[should_panic]
fn intersecting_translated_sphere() {
    // a singular transform makes the sphere inert
    let ray = Ray::new(p(0.0, 0.0, -5.0), v(0.0, 0.0, 1.0));
    let transformation = Transformation::scaling(fx(5.0), fx(0.0), fx(0.0));
    let s: Shape = sphere::new(transformation, Material::default());
    let _xs = s.intersects(&ray).unwrap();
}

#[test]
fn normal_of_sphere() {
    let sqrt3_by3 = 3.0_f64.sqrt() / 3.0;
    let s: Shape = sphere::default();
    near_v(s.normal_at(p(1.0, 0.0, 0.0)).unwrap(), 1.0, 0.0, 0.0);
    near_v(s.normal_at(p(0.0, 1.0, 0.0)).unwrap(), 0.0, 1.0, 0.0);
    near_v(s.normal_at(p(0.0, 0.0, 1.0)).unwrap(), 0.0, 0.0, 1.0);
    let n = s.normal_at(p(sqrt3_by3, sqrt3_by3, sqrt3_by3)).unwrap();
    near_v(n, sqrt3_by3, sqrt3_by3, sqrt3_by3);
    // normals are normalized
    near(n.magnitude(), 1.0);
}

#[test]
fn normal_of_translated_sphere() {
    let frac_1_sqrt_2 = consts::FRAC_1_SQRT_2;
    let mut s: Shape = sphere::default();
    s.transformation = Transformation::translation(fx(0.0), fx(1.0), fx(0.0));
    let n = s.normal_at(p(0.0, 1.70711, -frac_1_sqrt_2)).unwrap();
    near_v(n, 0.0, frac_1_sqrt_2, -frac_1_sqrt_2);

    // a non-uniform scaling changes the direction through the
    // inverse-transpose rule, but the result stays unit length
    let mut s2: Shape = sphere::default();
    s2.transformation = Transformation::scaling(fx(1.0), fx(0.5), fx(1.0)).mul_t(
        &Transformation::rotate_z(fx(consts::PI / 5.0)),
    );
    let sqrt2_by2 = 2.0_f64.sqrt() / 2.0;
    let n2 = s2.normal_at(p(0.0, sqrt2_by2, -sqrt2_by2)).unwrap();
    near_v(n2, 0.0, 0.97014, -0.24254);
    near(n2.magnitude(), 1.0);
}

#[test]
fn sphere_default_material() {
    assert_eq!(sphere::default().material, Material::default());
}

#[test]
fn sphere_given_material() {
    let mut s = sphere::default();
    let mut m = Material::default();
    m.ambient = fx(1.0);
    s.material = m;
    assert_eq!(s.material, m);
}

#[test]
fn glass_sphere_properties() {
    let gs = sphere::glass();
    assert_eq!(gs.material.transparency, fx(1.0));
    assert_eq!(gs.material.refractive_index, fx(1.5));
}
