use raytracer::fx::Fx;
use raytracer::graphics::color::Color;

const S: f64 = 4294967296.0;

fn fx(v: f64) -> Fx {
    Fx { raw: (v * S).round() as i64 }
}

fn fl(x: Fx) -> f64 {
    x.raw as f64 / S
}

fn c(r: f64, g: f64, b: f64) -> Color {
    Color::new(fx(r), fx(g), fx(b))
}

fn near_c(a: Color, r: f64, g: f64, b: f64) {
    assert!((fl(a.red) - r).abs() < 1e-4, "red {} vs {}", fl(a.red), r);
    assert!((fl(a.green) - g).abs() < 1e-4, "green {} vs {}", fl(a.green), g);
    assert!((fl(a.blue) - b).abs() < 1e-4, "blue {} vs {}", fl(a.blue), b);
}

#[test]
fn generate_color_with_new() {
    let a = c(-0.5, 0.4, 1.7);
    near_c(a, -0.5, 0.4, 1.7);
}

#[test]
fn add_two_colors() {
    near_c(c(0.9, 0.6, 0.75).add(&c(0.7, 0.1, 0.25)), 1.6, 0.7, 1.0);
}

#[test]
fn subtract_two_colors() {
    near_c(c(0.9, 0.6, 0.75).sub(&c(0.7, 0.1, 0.25)), 0.2, 0.5, 0.5);
}

#[test]
fn multiply_two_colors() {
    near_c(c(1.0, 0.2, 0.4).mul(&c(0.9, 1.0, 0.1)), 0.9, 0.2, 0.04);
}

#[test]
fn multiply_a_color_by_scalar() {
    near_c(c(0.2, 0.3, 0.4).scale(fx(2.0)), 0.4, 0.6, 0.8);
}

#[test]
fn channels_scale_and_clamp_to_bytes() {
    // out-of-range channels clamp only at encoding time
    let a = c(1.5, 0.5, -0.5);
    assert_eq!(a.to_rgb255(), (255, 128, 0));
    let b = c(0.0, 1.0, 0.2);
    assert_eq!(b.to_rgb255(), (0, 255, 51));
}
