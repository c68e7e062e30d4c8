use gabes_graphics::color::Color;
use gabes_graphics::fixed::ONE;

/// A color from real-valued channels, quantized to fixed point.
fn c(r: f64, g: f64, b: f64) -> Color {
    let s = ONE as f64;
    Color::new((r * s).round() as i64, (g * s).round() as i64, (b * s).round() as i64)
}

#[test]
fn color_new() {
    let col = c(0.0, 0.5, 1.0);
    assert_eq!(col.r(), 0);
    assert_eq!(col.g(), 5_000);
    assert_eq!(col.b(), 10_000);
    assert_eq!(col, c(0.0, 0.5, 1.0));
}

#[test]
fn add() {
    let c1 = c(0.9, 0.6, 0.75);
    let c2 = c(0.7, 0.1, 0.25);
    assert_eq!(c1.add(c2), c(1.6, 0.7, 1.0));
}

#[test]
fn sub() {
    let c1 = c(0.9, 0.6, 0.75);
    let c2 = c(0.7, 0.1, 0.25);
    assert_eq!(c1.sub(c2), c(0.2, 0.5, 0.5));
}

#[test]
fn mul() {
    // `Color * scalar` and `scalar * Color`
    let col = c(0.2, 0.3, 0.4);
    assert_eq!(col.mul_scalar(2 * ONE), c(0.4, 0.6, 0.8));
    assert_eq!(Color::scalar_mul(3 * ONE, col), c(0.6, 0.9, 1.2));

    // `Color * Color` using component-wise multiplication
    let c1 = c(1.0, 0.2, 0.4);
    let c2 = c(0.9, 1.0, 0.1);
    assert_eq!(c1.mul(c2), c(0.9, 0.2, 0.04));
}

#[test]
fn add_then_sub_restores() {
    let a = c(0.25, -1.5, 3.0);
    let b = c(0.75, 2.0, -0.125);
    assert_eq!(a.add(b).sub(b), a);
}

#[test]
fn scalar_mul_orders_agree() {
    let col = c(0.1, -0.7, 2.5);
    let k: i64 = 17_500;
    assert_eq!(col.mul_scalar(k), Color::scalar_mul(k, col));
}

#[test]
fn approx_eq_bounds() {
    let a = c(0.5, 0.5, 0.5);
    let b = Color::new(5_002, 4_998, 5_000);
    assert!(a.approx_eq(&b, 2));
    assert!(!a.approx_eq(&b, 1));
}

#[test]
fn scale_clamps_and_rounds() {
    assert_eq!(c(1.5, 0.0, 0.0).scale(255), (255, 0, 0));
    assert_eq!(c(-2.0, 0.5, 1.0).scale(255), (0, 128, 255));
}
