use raytracer::fx::Fx;
use raytracer::graphics::color::Color;
use raytracer::graphics::lights::PointLight;
use raytracer::graphics::materials::Material;
use raytracer::graphics::patterns::Pattern;
use raytracer::math::point::Point;
use raytracer::math::transformations::Transformation;
use raytracer::math::vector::Vector;
use raytracer::objects::sphere;

const S: f64 = 4294967296.0;

fn fx(v: f64) -> Fx {
    Fx { raw: (v * S).round() as i64 }
}

fn fl(x: Fx) -> f64 {
    x.raw as f64 / S
}

fn p(x: f64, y: f64, z: f64) -> Point {
    Point::new(fx(x), fx(y), fx(z))
}

fn v(x: f64, y: f64, z: f64) -> Vector {
    Vector::new(fx(x), fx(y), fx(z))
}

fn c(r: f64, g: f64, b: f64) -> Color {
    Color::new(fx(r), fx(g), fx(b))
}

fn near_c(a: Color, r: f64, g: f64, b: f64) {
    assert!((fl(a.red) - r).abs() < 1e-4, "red {} vs {}", fl(a.red), r);
    assert!((fl(a.green) - g).abs() < 1e-4, "green {} vs {}", fl(a.green), g);
    assert!((fl(a.blue) - b).abs() < 1e-4, "blue {} vs {}", fl(a.blue), b);
}

#[test]
fn new_material_light() {
    let m = Material::default();
    near_c(m.color, 1.0, 1.0, 1.0);
    assert_eq!(m.ambient, fx(0.1));
    assert_eq!(m.diffuse, fx(0.9));
    assert_eq!(m.specular, fx(0.9));
    assert_eq!(m.shininess, fx(200.0));
    assert_eq!(m.reflective, fx(0.0));
    assert_eq!(m.transparency, fx(0.0));
    assert_eq!(m.refractive_index, fx(1.0));
    assert!(m.pattern.is_none());
}

#[test]
fn lighting_with_eye_between_the_light_and_surface() {
    let m = Material::default();
    let light = PointLight::new(p(0.0, 0.0, -10.0), c(1.0, 1.0, 1.0));
    let r = m.lighting(
        sphere::default(),
        light,
        p(0.0, 0.0, 0.0),
        v(0.0, 0.0, -1.0),
        v(0.0, 0.0, -1.0),
        false,
    );
    near_c(r, 1.9, 1.9, 1.9);
}

#[test]
fn lighting_with_eye_between_the_light_and_surface_eye_offset_45() {
    let m = Material::default();
    let light = PointLight::new(p(0.0, 0.0, -10.0), c(1.0, 1.0, 1.0));
    let r2 = 2.0_f64.sqrt() / 2.0;
    let r = m.lighting(
        sphere::default(),
        light,
        p(0.0, 0.0, 0.0),
        v(0.0, r2, -r2),
        v(0.0, 0.0, -1.0),
        false,
    );
    near_c(r, 1.0, 1.0, 1.0);
}

#[test]
fn lighting_with_eye_between_the_light_and_surface_light_offset_45() {
    let m = Material::default();
    let light = PointLight::new(p(0.0, 10.0, -10.0), c(1.0, 1.0, 1.0));
    let r = m.lighting(
        sphere::default(),
        light,
        p(0.0, 0.0, 0.0),
        v(0.0, 0.0, -1.0),
        v(0.0, 0.0, -1.0),
        false,
    );
    near_c(r, 0.7364, 0.7364, 0.7364);
}

#[test]
fn lighting_with_eye_opposite_surface_light_offset_45() {
    let m = Material::default();
    let light = PointLight::new(p(0.0, 10.0, -10.0), c(1.0, 1.0, 1.0));
    let r2 = 2.0_f64.sqrt() / 2.0;
    let r = m.lighting(
        sphere::default(),
        light,
        p(0.0, 0.0, 0.0),
        v(0.0, -r2, -r2),
        v(0.0, 0.0, -1.0),
        false,
    );
    near_c(r, 1.6364, 1.6364, 1.6364);
}

#[test]
fn lighting_with_light_behind_surface() {
    let m = Material::default();
    let light = PointLight::new(p(0.0, 0.0, 10.0), c(1.0, 1.0, 1.0));
    let r = m.lighting(
        sphere::default(),
        light,
        p(0.0, 0.0, 0.0),
        v(0.0, 0.0, -1.0),
        v(0.0, 0.0, -1.0),
        false,
    );
    near_c(r, 0.1, 0.1, 0.1);
}

#[test]
fn lighting_with_the_surface_in_shadow() {
    let m = Material::default();
    let light = PointLight::new(p(0.0, 0.0, -10.0), c(1.0, 1.0, 1.0));
    let r = m.lighting(
        sphere::default(),
        light,
        p(0.0, 0.0, 0.0),
        v(0.0, 0.0, -1.0),
        v(0.0, 0.0, -1.0),
        true,
    );
    near_c(r, 0.1, 0.1, 0.1);
}

#[test]
fn new_material_with_pattern_applied() {
    let mut m = Material::default();
    m.pattern = Some(Pattern::stripped(
        c(1.0, 1.0, 1.0),
        c(0.0, 0.0, 0.0),
        Transformation::identity(),
    ));
    m.ambient = fx(1.0);
    m.diffuse = fx(0.0);
    m.specular = fx(0.0);
    let mut object = sphere::default();
    object.material = m;
    let light = PointLight::new(p(0.0, 0.0, -10.0), c(1.0, 1.0, 1.0));
    let c1 = m.lighting(object, light, p(0.9, 0.0, 0.0), v(0.0, 0.0, -1.0), v(0.0, 0.0, -1.0), false);
    let c2 = m.lighting(object, light, p(1.1, 0.0, 0.0), v(0.0, 0.0, -1.0), v(0.0, 0.0, -1.0), false);
    near_c(c1, 1.0, 1.0, 1.0);
    near_c(c2, 0.0, 0.0, 0.0);
}

#[test]
fn new_point_light() {
    let light = PointLight::new(p(0.0, 0.0, 0.0), c(1.0, 1.0, 1.0));
    assert_eq!(light.position, p(0.0, 0.0, 0.0));
    assert_eq!(light.color, c(1.0, 1.0, 1.0));
}
