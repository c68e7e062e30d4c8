use gabes_graphics::fixed::ONE;
use gabes_graphics::transform::Mat4;
use gabes_graphics::tuple::Tuple;

/// A point from real-valued coordinates, quantized to fixed point.
fn pt(x: f64, y: f64, z: f64) -> Tuple {
    let s = ONE as f64;
    Tuple::point((x * s).round() as i64, (y * s).round() as i64, (z * s).round() as i64)
}

/// A free vector from real-valued coordinates, quantized to fixed point.
fn vc(x: f64, y: f64, z: f64) -> Tuple {
    let s = ONE as f64;
    Tuple::vector((x * s).round() as i64, (y * s).round() as i64, (z * s).round() as i64)
}

/// A fixed-point value from a real one.
fn fx(v: f64) -> i64 {
    (v * ONE as f64).round() as i64
}

/// The fixed-point sine and cosine of an angle in radians.
fn sin_cos(angle: f64) -> (i64, i64) {
    (fx(angle.sin()), fx(angle.cos()))
}

#[test]
fn point() {
    let t = Mat4::from_translation(fx(5.0), fx(-3.0), fx(2.0));
    let p = pt(-3.0, 4.0, 5.0);
    assert_eq!(t.apply(&p), pt(2.0, 1.0, 7.0));
}

#[test]
fn point_inverse() {
    // Translating back is translating by the negated offsets.
    let t_inv = Mat4::from_translation(fx(-5.0), fx(3.0), fx(-2.0));
    let p = pt(-3.0, 4.0, 5.0);
    assert_eq!(t_inv.apply(&p), pt(-8.0, 7.0, 3.0));
}

#[test]
fn lib_homogeneous() {
    let t = Mat4::from_translation(fx(2.0), fx(5.0), fx(8.0));
    assert_eq!(t.m00, ONE);
    assert_eq!(t.m03, fx(2.0));
    assert_eq!(t.m11, ONE);
    assert_eq!(t.m13, fx(5.0));
    assert_eq!(t.m22, ONE);
    assert_eq!(t.m23, fx(8.0));
    assert_eq!(t.m33, ONE);
    assert_eq!(t.m30, 0);
    assert_eq!(t.m31, 0);
    assert_eq!(t.m32, 0);

    let v = vc(2.0, 3.0, 4.0);
    assert_eq!(v.w(), 0);
}

#[test]
fn vector() {
    let t = Mat4::from_translation(fx(5.0), fx(-3.0), fx(2.0));
    let v = vc(-3.0, 4.0, 5.0);
    // There is no translation defined for vectors
    let moved = t.apply(&v).vector_from_homogeneous().unwrap();
    assert_eq!(moved, v);
}

#[test]
fn homogeneous() {
    let s = Mat4::from_scale(fx(2.0), fx(3.0), fx(4.0));
    assert_eq!(s.m00, fx(2.0));
    assert_eq!(s.m11, fx(3.0));
    assert_eq!(s.m22, fx(4.0));
    assert_eq!(s.m33, ONE);
    assert_eq!(s.m01, 0);
    assert_eq!(s.m02, 0);
    assert_eq!(s.m03, 0);
    assert_eq!(s.m10, 0);
    assert_eq!(s.m12, 0);
    assert_eq!(s.m13, 0);
}

#[test]
fn scale() {
    let s = Mat4::from_scale(fx(2.0), fx(3.0), fx(4.0));
    let p = pt(-4.0, 6.0, 8.0);
    let v = vc(-4.0, 6.0, 8.0);
    assert_eq!(s.apply(&p), pt(-8.0, 18.0, 32.0));
    assert_eq!(s.apply(&v), vc(-8.0, 18.0, 32.0));
}

#[test]
fn reflection() {
    let s = Mat4::from_scale(fx(-1.0), fx(1.0), fx(1.0));
    let p = pt(2.0, 3.0, 4.0);
    let v = vc(2.0, 3.0, 4.0);
    assert_eq!(s.apply(&p), pt(-2.0, 3.0, 4.0));
    assert_eq!(s.apply(&v), vc(-2.0, 3.0, 4.0));
}

#[test]
fn about_x_axis() {
    let (half_sin, half_cos) = sin_cos(std::f64::consts::FRAC_PI_4);
    let (full_sin, full_cos) = sin_cos(std::f64::consts::FRAC_PI_2);

    let half_quarter_rot = Mat4::from_rotation_x(half_sin, half_cos);
    let full_quarter_rot = Mat4::from_rotation_x(full_sin, full_cos);

    let p = pt(0.0, 1.0, 0.0);
    let v = vc(0.0, 1.0, 0.0);

    let r2h = 2.0_f64.sqrt() / 2.0;
    assert_eq!(half_quarter_rot.apply(&p), pt(0.0, r2h, r2h));
    assert_eq!(full_quarter_rot.apply(&p), pt(0.0, 0.0, 1.0));

    assert_eq!(half_quarter_rot.apply(&v), vc(0.0, r2h, r2h));
    assert_eq!(full_quarter_rot.apply(&v), vc(0.0, 0.0, 1.0));
}

#[test]
fn inverse_about_x_axis() {
    // The inverse of a rotation is the rotation by the negated angle.
    let (half_sin, half_cos) = sin_cos(-std::f64::consts::FRAC_PI_4);
    let (full_sin, full_cos) = sin_cos(-std::f64::consts::FRAC_PI_2);

    let half_quarter_rot_inv = Mat4::from_rotation_x(half_sin, half_cos);
    let full_quarter_rot_inv = Mat4::from_rotation_x(full_sin, full_cos);

    let p = pt(0.0, 1.0, 0.0);
    let v = vc(0.0, 1.0, 0.0);

    let r2h = 2.0_f64.sqrt() / 2.0;
    assert_eq!(half_quarter_rot_inv.apply(&p), pt(0.0, r2h, -r2h));
    assert_eq!(full_quarter_rot_inv.apply(&p), pt(0.0, 0.0, -1.0));

    assert_eq!(half_quarter_rot_inv.apply(&v), vc(0.0, r2h, -r2h));
    assert_eq!(full_quarter_rot_inv.apply(&v), vc(0.0, 0.0, -1.0));
}

#[test]
fn about_y_axis() {
    let (half_sin, half_cos) = sin_cos(std::f64::consts::FRAC_PI_4);
    let (full_sin, full_cos) = sin_cos(std::f64::consts::FRAC_PI_2);

    let half_quarter_rot = Mat4::from_rotation_y(half_sin, half_cos);
    let full_quarter_rot = Mat4::from_rotation_y(full_sin, full_cos);

    let p = pt(0.0, 0.0, 1.0);
    let v = vc(0.0, 0.0, 1.0);

    let r2h = 2.0_f64.sqrt() / 2.0;
    assert_eq!(half_quarter_rot.apply(&p), pt(r2h, 0.0, r2h));
    assert_eq!(full_quarter_rot.apply(&p), pt(1.0, 0.0, 0.0));

    assert_eq!(half_quarter_rot.apply(&v), vc(r2h, 0.0, r2h));
    assert_eq!(full_quarter_rot.apply(&v), vc(1.0, 0.0, 0.0));
}

#[test]
fn about_z_axis() {
    let (half_sin, half_cos) = sin_cos(std::f64::consts::FRAC_PI_4);
    let (full_sin, full_cos) = sin_cos(std::f64::consts::FRAC_PI_2);

    let half_quarter_rot = Mat4::from_rotation_z(half_sin, half_cos);
    let full_quarter_rot = Mat4::from_rotation_z(full_sin, full_cos);

    let p = pt(0.0, 1.0, 0.0);
    let v = vc(0.0, 1.0, 0.0);

    let r2h = 2.0_f64.sqrt() / 2.0;
    assert_eq!(half_quarter_rot.apply(&p), pt(-r2h, r2h, 0.0));
    assert_eq!(full_quarter_rot.apply(&p), pt(-1.0, 0.0, 0.0));

    assert_eq!(half_quarter_rot.apply(&v), vc(-r2h, r2h, 0.0));
    assert_eq!(full_quarter_rot.apply(&v), vc(-1.0, 0.0, 0.0));
}

#[test]
fn x_from_y() {
    let shear = Mat4::from_shear(ONE, 0, 0, 0, 0, 0);
    let p = pt(2.0, 3.0, 4.0);
    assert_eq!(shear.apply(&p), pt(5.0, 3.0, 4.0));
}

#[test]
fn x_from_z() {
    let shear = Mat4::from_shear(0, ONE, 0, 0, 0, 0);
    let p = pt(2.0, 3.0, 4.0);
    assert_eq!(shear.apply(&p), pt(6.0, 3.0, 4.0));
}

#[test]
fn y_from_x() {
    let shear = Mat4::from_shear(0, 0, ONE, 0, 0, 0);
    let p = pt(2.0, 3.0, 4.0);
    assert_eq!(shear.apply(&p), pt(2.0, 5.0, 4.0));
}

#[test]
fn y_from_z() {
    let shear = Mat4::from_shear(0, 0, 0, ONE, 0, 0);
    let p = pt(2.0, 3.0, 4.0);
    assert_eq!(shear.apply(&p), pt(2.0, 7.0, 4.0));
}

#[test]
fn z_from_x() {
    let shear = Mat4::from_shear(0, 0, 0, 0, ONE, 0);
    let p = pt(2.0, 3.0, 4.0);
    assert_eq!(shear.apply(&p), pt(2.0, 3.0, 6.0));
}

#[test]
fn z_from_y() {
    let shear = Mat4::from_shear(0, 0, 0, 0, 0, ONE);
    let p = pt(2.0, 3.0, 4.0);
    assert_eq!(shear.apply(&p), pt(2.0, 3.0, 7.0));
}

#[test]
fn no_chain() {
    let (sin, cos) = sin_cos(std::f64::consts::FRAC_PI_2);
    let r = Mat4::from_rotation_x(sin, cos);
    let sc = Mat4::from_scale(fx(5.0), fx(5.0), fx(5.0));
    let t = Mat4::from_translation(fx(10.0), fx(5.0), fx(7.0));

    let p1 = pt(1.0, 0.0, 1.0);

    let p2 = r.apply(&p1);
    assert_eq!(p2, pt(1.0, -1.0, 0.0));

    let p3 = sc.apply(&p2);
    assert_eq!(p3, pt(5.0, -5.0, 0.0));

    let p4 = t.apply(&p3);
    assert_eq!(p4, pt(15.0, 0.0, 7.0));
}

#[test]
fn with_chain() {
    let t = Mat4::from_translation(fx(10.0), fx(5.0), fx(7.0));
    let sc = Mat4::from_scale(fx(5.0), fx(5.0), fx(5.0));
    let (sin, cos) = sin_cos(std::f64::consts::FRAC_PI_2);
    let r = Mat4::from_rotation_x(sin, cos);
    let sh = Mat4::from_shear(0, 0, 0, 0, 0, 0);

    let p = pt(1.0, 0.0, 1.0);

    let chained = t.mul(&sc).mul(&r).mul(&sh);
    assert_eq!(chained.apply(&p), pt(15.0, 0.0, 7.0));
}

#[test]
fn point_from_homogeneous_needs_nonzero_w() {
    let v = Tuple::vector(fx(1.0), fx(2.0), fx(3.0));
    assert!(v.point_from_homogeneous().is_none());

    let doubled = Tuple::new(fx(4.0), fx(6.0), fx(8.0), 2 * ONE);
    let p = doubled.point_from_homogeneous().unwrap();
    assert_eq!(p, pt(2.0, 3.0, 4.0));
}
