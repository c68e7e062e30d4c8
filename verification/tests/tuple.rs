use gabes_graphics::fixed::ONE;
use gabes_graphics::transform::Mat4;
use gabes_graphics::tuple::Tuple;

/// A point from real-valued coordinates, quantized to fixed point.
fn point(x: f64, y: f64, z: f64) -> Tuple {
    let s = ONE as f64;
    Tuple::point((x * s).round() as i64, (y * s).round() as i64, (z * s).round() as i64)
}

/// A free vector from real-valued coordinates, quantized to fixed point.
fn vector(x: f64, y: f64, z: f64) -> Tuple {
    let s = ONE as f64;
    Tuple::vector((x * s).round() as i64, (y * s).round() as i64, (z * s).round() as i64)
}

#[test]
fn lib_w_coordinate() {
    let p = point(1.0, 2.0, 3.0);
    let v = vector(1.0, 2.0, 3.0);
    assert_eq!(p, Tuple::new(10_000, 20_000, 30_000, ONE));
    assert_eq!(v, Tuple::new(10_000, 20_000, 30_000, 0));
}

#[test]
fn lib_equality() {
    let p = point(1.0, 2.0, 3.0);
    let v = vector(1.0, 2.0, 3.0);
    assert_eq!(p, point(1.0, 2.0, 3.0));
    assert_eq!(v, vector(1.0, 2.0, 3.0));
}

#[test]
fn lib_addition() {
    let p = point(1.0, 2.0, 3.0);
    let v1 = vector(10.0, 20.0, 30.0);
    let v2 = vector(100.0, 200.0, 300.0);
    assert_eq!(p.add(v1), point(11.0, 22.0, 33.0));
    assert_eq!(v1.add(v2), vector(110.0, 220.0, 330.0));
}

#[test]
fn lib_w_coord_after_addition() {
    let p = point(1.0, 2.0, 3.0);
    let v1 = vector(10.0, 20.0, 30.0);
    let v2 = vector(100.0, 200.0, 300.0);
    assert_eq!(p.add(v1).w(), ONE);
    assert_eq!(v1.add(v2).w(), 0);
}

#[test]
fn lib_subtraction() {
    let p = point(2.0, 3.0, 4.0);
    let v1 = vector(1.0, 1.0, 1.0);
    let v2 = vector(2.0, 3.0, 4.0);
    assert_eq!(p.sub(v1), point(1.0, 2.0, 3.0));
    assert_eq!(v1.sub(v2), vector(-1.0, -2.0, -3.0));
}

#[test]
fn lib_w_coord_after_subtraction() {
    let p = point(1.0, 2.0, 3.0);
    let v1 = vector(10.0, 20.0, 30.0);
    let v2 = vector(100.0, 200.0, 300.0);
    assert_eq!(p.sub(v1).w(), ONE);
    assert_eq!(v1.sub(v2).w(), 0);
}

#[test]
fn lib_negate() {
    let v = vector(1.0, 2.0, 3.0);
    assert_eq!(v.neg(), vector(-1.0, -2.0, -3.0));
    assert_eq!(v, vector(1.0, 2.0, 3.0));
}

#[test]
fn lib_scale_mul() {
    let v = vector(1.0, 2.0, 3.0);
    assert_eq!(v.mul_scalar(10 * ONE), vector(10.0, 20.0, 30.0));
    assert_eq!(v.mul_scalar(ONE / 2), vector(0.5, 1.0, 1.5));
}

#[test]
fn lib_scale_div() {
    let v = vector(10.0, 20.0, 30.0);
    assert_eq!(v.div_scalar(10 * ONE), vector(1.0, 2.0, 3.0));
}

#[test]
fn lib_point_from_vector() {
    let v = vector(1.0, 2.0, 3.0);
    assert_eq!(v.to_point(), point(1.0, 2.0, 3.0));
}

#[test]
fn lib_magnitude() {
    let v = vector(1.0, 2.0, 3.0);
    // sqrt(14) is about 3.7417; the fixed-point floor square root lands
    // one step below.
    assert_eq!(v.magnitude(), 37_416);
}

#[test]
fn lib_normalization() {
    let v = vector(1.0, 2.0, 3.0);
    let u = v.normalize();
    let m = u.magnitude();
    assert!((m - ONE).abs() <= 2, "magnitude of unit vector was {m}");
}

#[test]
fn lib_dot_product() {
    let v1 = vector(1.0, 2.0, 3.0);
    let v2 = vector(2.0, 3.0, 4.0);
    assert_eq!(v1.dot(&v2), 20 * ONE);
}

#[test]
fn lib_cross_product() {
    let v1 = vector(1.0, 2.0, 3.0);
    let v2 = vector(2.0, 3.0, 4.0);
    assert_eq!(v1.cross(&v2), vector(-1.0, 2.0, -1.0));
}

#[test]
fn identity_matrix() {
    let mut i = Mat4::identity();
    let v = vector(1.0, 2.0, 3.0);
    assert_eq!(i.apply(&v), v);
    i.m11 = 2 * ONE; // changing one element in the identity
    assert_eq!(i.apply(&v), vector(1.0, 4.0, 3.0));
}
