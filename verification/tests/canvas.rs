use raytracer::fx::Fx;
use raytracer::graphics::canvas::Canvas;
use raytracer::graphics::color::Color;
use raytracer::graphics::ppm;

const S: f64 = 4294967296.0;

fn fx(v: f64) -> Fx {
    Fx { raw: (v * S).round() as i64 }
}

fn c(r: f64, g: f64, b: f64) -> Color {
    Color::new(fx(r), fx(g), fx(b))
}

#[test]
fn create_empty_canvas() {
    let canvas = Canvas::new(10, 20);
    assert_eq!(canvas.width, 10);
    assert_eq!(canvas.height, 20);
    assert_eq!(canvas.grid.len(), 200);
    for pixel in &canvas.grid {
        assert_eq!(*pixel, c(0.0, 0.0, 0.0));
    }
}

#[test]
fn write_to_canvas() {
    let mut canvas = Canvas::new(10, 20);
    let red = c(1.0, 0.0, 0.0);
    canvas.write(2, 3, red);
    assert_eq!(canvas.get(2, 3), red);
}

#[test]
fn get_pixel_at_coordinates() {
    let mut canvas = Canvas::new_color(4, 4, c(0.25, 0.5, 0.75));
    assert_eq!(canvas.get(1, 2), c(0.25, 0.5, 0.75));
    canvas.write_i(6, c(1.0, 1.0, 1.0));
    assert_eq!(canvas.get_i(6), c(1.0, 1.0, 1.0));
    assert_eq!(canvas.get(2, 1), c(1.0, 1.0, 1.0));
}

#[test]
fn header_created() {
    assert_eq!(ppm::header(5, 3), "P3\n5 3\n255");
    assert_eq!(ppm::header(1920, 1080), "P3\n1920 1080\n255");
    assert_eq!(ppm::header(0, 10), "P3\n0 10\n255");
}
