use gabes_graphics::canvas::Canvas;
use gabes_graphics::color::Color;
use gabes_graphics::fixed::ONE;

/// A color from real-valued channels, quantized to fixed point.
fn c(r: f64, g: f64, b: f64) -> Color {
    let s = ONE as f64;
    Color::new((r * s).round() as i64, (g * s).round() as i64, (b * s).round() as i64)
}

#[test]
fn lib_new() {
    let width: usize = 1920;
    let height: usize = 1080;
    let canvas = Canvas::new(width, height);
    assert_eq!(canvas.width(), width);
    assert_eq!(canvas.height(), height);
    for y in 0..height {
        for x in 0..width {
            assert_eq!(canvas.get_pixel(x, y), c(0.0, 0.0, 0.0));
        }
    }
}

#[test]
fn canvas_new() {
    let width: usize = 1920;
    let height: usize = 1080;
    let canvas = Canvas::new(width, height);
    assert_eq!(canvas.width(), width);
    assert_eq!(canvas.height(), height);
    for y in 0..height {
        for x in 0..width {
            assert_eq!(canvas.get_pixel(x, y), c(0.0, 0.0, 0.0));
        }
    }
}

#[test]
fn get_set() {
    let width: usize = 3;
    let height: usize = 2;
    let mut canvas = Canvas::new(width, height);
    assert_eq!(canvas.get_pixel(1, 0), c(0.0, 0.0, 0.0));
    canvas.set_pixel(1, 0, c(0.0, 0.5, 1.0));
    assert_eq!(canvas.get_pixel(1, 0), c(0.0, 0.5, 1.0));
    assert_eq!(canvas.get_pixel(0, 0), c(0.0, 0.0, 0.0));
}

#[test]
fn to_ppm() {
    let mut canvas = Canvas::new(3, 3);
    let c1 = c(1.5, 0.0, 0.0);
    let c2 = c(0.0, 0.5, 0.0);
    let c3 = c(-2.0, 0.0, 1.0);
    canvas.set_pixel(0, 0, c1);
    canvas.set_pixel(1, 1, c2);
    canvas.set_pixel(2, 2, c3);

    let ppm = canvas.to_ppm();
    assert_eq!(
        ppm,
        //   w h  max  row1_________________  row2_________________  row3_________________
        "P3\n3 3\n255\n255 0 0\n0 0 0\n0 0 0\n0 0 0\n0 128 0\n0 0 0\n0 0 0\n0 0 0\n0 0 255\n"
    );
}

#[test]
fn ppm_has_newline() {
    // Some image programs require ppm files to end in a newline
    let canvas = Canvas::new(1920, 1080);
    let ppm = canvas.to_ppm();
    assert_eq!(ppm.chars().last().unwrap(), '\n');
}

#[test]
fn one_pixel_ppm() {
    let canvas = Canvas::new(1, 1);
    assert_eq!(canvas.to_ppm(), "P3\n1 1\n255\n0 0 0\n");
}

#[test]
fn empty_canvas_ppm() {
    let canvas = Canvas::new(0, 0);
    assert_eq!(canvas.to_ppm(), "P3\n0 0\n255\n");
}
