//! Affine transforms as 4x4 matrices over homogeneous coordinates.
//!
//! A transform is built from translation, rotation, scale and shear
//! pieces and composed by matrix multiplication; the rightmost factor of a
//! product is applied first to a tuple.  Entries are fixed-point, so a
//! matrix product and an application round each entry to nearest.

use vstd::prelude::*;

use crate::fixed::{fx_round, fx_round_i64, in_range, lemma_mul_magnitude, LIMIT, ONE};
use crate::tuple::Tuple;

verus! {

/// One entry of a matrix product or application: the rounded fixed-point
/// dot product of a row `(a0, a1, a2, a3)` and a column `(b0, b1, b2, b3)`.
pub open spec fn fx_rc(
    a0: int,
    a1: int,
    a2: int,
    a3: int,
    b0: int,
    b1: int,
    b2: int,
    b3: int,
) -> int {
    fx_round(a0 * b0 + a1 * b1 + a2 * b2 + a3 * b3)
}

/// A 4x4 matrix of fixed-point entries; `mRC` is the entry in row `R`,
/// column `C`.
#[derive(Clone, Copy, Debug, PartialEq, Eq, Structural)]
pub struct Mat4 {
    pub m00: i64,
    pub m01: i64,
    pub m02: i64,
    pub m03: i64,
    pub m10: i64,
    pub m11: i64,
    pub m12: i64,
    pub m13: i64,
    pub m20: i64,
    pub m21: i64,
    pub m22: i64,
    pub m23: i64,
    pub m30: i64,
    pub m31: i64,
    pub m32: i64,
    pub m33: i64,
}

impl Mat4 {
    /// Every entry lies in the working range of fixed-point products.
    pub open spec fn bounded(self) -> bool {
        &&& in_range(self.m00 as int) && in_range(self.m01 as int) && in_range(self.m02 as int)
            && in_range(self.m03 as int)
        &&& in_range(self.m10 as int) && in_range(self.m11 as int) && in_range(self.m12 as int)
            && in_range(self.m13 as int)
        &&& in_range(self.m20 as int) && in_range(self.m21 as int) && in_range(self.m22 as int)
            && in_range(self.m23 as int)
        &&& in_range(self.m30 as int) && in_range(self.m31 as int) && in_range(self.m32 as int)
            && in_range(self.m33 as int)
    }

    /// The identity transform: it moves nothing.
    pub fn identity() -> (m: Mat4)
        ensures
            m.m00 == ONE && m.m01 == 0 && m.m02 == 0 && m.m03 == 0,
            m.m10 == 0 && m.m11 == ONE && m.m12 == 0 && m.m13 == 0,
            m.m20 == 0 && m.m21 == 0 && m.m22 == ONE && m.m23 == 0,
            m.m30 == 0 && m.m31 == 0 && m.m32 == 0 && m.m33 == ONE,
            m.bounded(),
    {
        Mat4 {
            m00: ONE,
            m01: 0,
            m02: 0,
            m03: 0,
            m10: 0,
            m11: ONE,
            m12: 0,
            m13: 0,
            m20: 0,
            m21: 0,
            m22: ONE,
            m23: 0,
            m30: 0,
            m31: 0,
            m32: 0,
            m33: ONE,
        }
    }

    /// A shear: the identity plus the six off-diagonal coefficients, each
    /// telling how much one axis displaces another.  `xy` moves x in
    /// proportion to y, `xz` moves x in proportion to z, and so on.
    pub fn from_shear(xy: i64, xz: i64, yx: i64, yz: i64, zx: i64, zy: i64) -> (m: Mat4)
        ensures
            m.m00 == ONE && m.m01 == xy && m.m02 == xz && m.m03 == 0,
            m.m10 == yx && m.m11 == ONE && m.m12 == yz && m.m13 == 0,
            m.m20 == zx && m.m21 == zy && m.m22 == ONE && m.m23 == 0,
            m.m30 == 0 && m.m31 == 0 && m.m32 == 0 && m.m33 == ONE,
    {
        Mat4 {
            m00: ONE,
            m01: xy,
            m02: xz,
            m03: 0,
            m10: yx,
            m11: ONE,
            m12: yz,
            m13: 0,
            m20: zx,
            m21: zy,
            m22: ONE,
            m23: 0,
            m30: 0,
            m31: 0,
            m32: 0,
            m33: ONE,
        }
    }

    /// A non-uniform scale: the diagonal holds the three per-axis factors,
    /// promoted to homogeneous form so it can join a chained product.
    pub fn from_scale(sx: i64, sy: i64, sz: i64) -> (m: Mat4)
        ensures
            m.m00 == sx && m.m01 == 0 && m.m02 == 0 && m.m03 == 0,
            m.m10 == 0 && m.m11 == sy && m.m12 == 0 && m.m13 == 0,
            m.m20 == 0 && m.m21 == 0 && m.m22 == sz && m.m23 == 0,
            m.m30 == 0 && m.m31 == 0 && m.m32 == 0 && m.m33 == ONE,
    {
        Mat4 {
            m00: sx,
            m01: 0,
            m02: 0,
            m03: 0,
            m10: 0,
            m11: sy,
            m12: 0,
            m13: 0,
            m20: 0,
            m21: 0,
            m22: sz,
            m23: 0,
            m30: 0,
            m31: 0,
            m32: 0,
            m33: ONE,
        }
    }

    /// A translation by `(tx, ty, tz)`: it moves points and leaves free
    /// vectors alone.
    pub fn from_translation(tx: i64, ty: i64, tz: i64) -> (m: Mat4)
        ensures
            m.m00 == ONE && m.m01 == 0 && m.m02 == 0 && m.m03 == tx,
            m.m10 == 0 && m.m11 == ONE && m.m12 == 0 && m.m13 == ty,
            m.m20 == 0 && m.m21 == 0 && m.m22 == ONE && m.m23 == tz,
            m.m30 == 0 && m.m31 == 0 && m.m32 == 0 && m.m33 == ONE,
    {
        Mat4 {
            m00: ONE,
            m01: 0,
            m02: 0,
            m03: tx,
            m10: 0,
            m11: ONE,
            m12: 0,
            m13: ty,
            m20: 0,
            m21: 0,
            m22: ONE,
            m23: tz,
            m30: 0,
            m31: 0,
            m32: 0,
            m33: ONE,
        }
    }

    /// A rotation about the x axis, given the fixed-point sine and cosine
    /// of the angle: y turns toward z.
    pub fn from_rotation_x(sin: i64, cos: i64) -> (m: Mat4)
        requires
            in_range(sin as int),
            in_range(cos as int),
        ensures
            m.m00 == ONE && m.m01 == 0 && m.m02 == 0 && m.m03 == 0,
            m.m10 == 0 && m.m11 == cos && m.m12 == -sin && m.m13 == 0,
            m.m20 == 0 && m.m21 == sin && m.m22 == cos && m.m23 == 0,
            m.m30 == 0 && m.m31 == 0 && m.m32 == 0 && m.m33 == ONE,
    {
        Mat4 {
            m00: ONE,
            m01: 0,
            m02: 0,
            m03: 0,
            m10: 0,
            m11: cos,
            m12: -sin,
            m13: 0,
            m20: 0,
            m21: sin,
            m22: cos,
            m23: 0,
            m30: 0,
            m31: 0,
            m32: 0,
            m33: ONE,
        }
    }

    /// A rotation about the y axis, given the fixed-point sine and cosine
    /// of the angle: z turns toward x.
    pub fn from_rotation_y(sin: i64, cos: i64) -> (m: Mat4)
        requires
            in_range(sin as int),
            in_range(cos as int),
        ensures
            m.m00 == cos && m.m01 == 0 && m.m02 == sin && m.m03 == 0,
            m.m10 == 0 && m.m11 == ONE && m.m12 == 0 && m.m13 == 0,
            m.m20 == -sin && m.m21 == 0 && m.m22 == cos && m.m23 == 0,
            m.m30 == 0 && m.m31 == 0 && m.m32 == 0 && m.m33 == ONE,
    {
        Mat4 {
            m00: cos,
            m01: 0,
            m02: sin,
            m03: 0,
            m10: 0,
            m11: ONE,
            m12: 0,
            m13: 0,
            m20: -sin,
            m21: 0,
            m22: cos,
            m23: 0,
            m30: 0,
            m31: 0,
            m32: 0,
            m33: ONE,
        }
    }

    /// A rotation about the z axis, given the fixed-point sine and cosine
    /// of the angle: x turns toward y.
    pub fn from_rotation_z(sin: i64, cos: i64) -> (m: Mat4)
        requires
            in_range(sin as int),
            in_range(cos as int),
        ensures
            m.m00 == cos && m.m01 == -sin && m.m02 == 0 && m.m03 == 0,
            m.m10 == sin && m.m11 == cos && m.m12 == 0 && m.m13 == 0,
            m.m20 == 0 && m.m21 == 0 && m.m22 == ONE && m.m23 == 0,
            m.m30 == 0 && m.m31 == 0 && m.m32 == 0 && m.m33 == ONE,
    {
        Mat4 {
            m00: cos,
            m01: -sin,
            m02: 0,
            m03: 0,
            m10: sin,
            m11: cos,
            m12: 0,
            m13: 0,
            m20: 0,
            m21: 0,
            m22: ONE,
            m23: 0,
            m30: 0,
            m31: 0,
            m32: 0,
            m33: ONE,
        }
    }

    /// The matrix product `self * rhs`: applying the result is applying
    /// `rhs` first, then `self`.
    pub fn mul(&self, rhs: &Mat4) -> (m: Mat4)
        requires
            self.bounded(),
            rhs.bounded(),
        ensures
            m.m00 == fx_rc(self.m00 as int, self.m01 as int, self.m02 as int, self.m03 as int, rhs.m00 as int, rhs.m10 as int, rhs.m20 as int, rhs.m30 as int),
            m.m01 == fx_rc(self.m00 as int, self.m01 as int, self.m02 as int, self.m03 as int, rhs.m01 as int, rhs.m11 as int, rhs.m21 as int, rhs.m31 as int),
            m.m02 == fx_rc(self.m00 as int, self.m01 as int, self.m02 as int, self.m03 as int, rhs.m02 as int, rhs.m12 as int, rhs.m22 as int, rhs.m32 as int),
            m.m03 == fx_rc(self.m00 as int, self.m01 as int, self.m02 as int, self.m03 as int, rhs.m03 as int, rhs.m13 as int, rhs.m23 as int, rhs.m33 as int),
            m.m10 == fx_rc(self.m10 as int, self.m11 as int, self.m12 as int, self.m13 as int, rhs.m00 as int, rhs.m10 as int, rhs.m20 as int, rhs.m30 as int),
            m.m11 == fx_rc(self.m10 as int, self.m11 as int, self.m12 as int, self.m13 as int, rhs.m01 as int, rhs.m11 as int, rhs.m21 as int, rhs.m31 as int),
            m.m12 == fx_rc(self.m10 as int, self.m11 as int, self.m12 as int, self.m13 as int, rhs.m02 as int, rhs.m12 as int, rhs.m22 as int, rhs.m32 as int),
            m.m13 == fx_rc(self.m10 as int, self.m11 as int, self.m12 as int, self.m13 as int, rhs.m03 as int, rhs.m13 as int, rhs.m23 as int, rhs.m33 as int),
            m.m20 == fx_rc(self.m20 as int, self.m21 as int, self.m22 as int, self.m23 as int, rhs.m00 as int, rhs.m10 as int, rhs.m20 as int, rhs.m30 as int),
            m.m21 == fx_rc(self.m20 as int, self.m21 as int, self.m22 as int, self.m23 as int, rhs.m01 as int, rhs.m11 as int, rhs.m21 as int, rhs.m31 as int),
            m.m22 == fx_rc(self.m20 as int, self.m21 as int, self.m22 as int, self.m23 as int, rhs.m02 as int, rhs.m12 as int, rhs.m22 as int, rhs.m32 as int),
            m.m23 == fx_rc(self.m20 as int, self.m21 as int, self.m22 as int, self.m23 as int, rhs.m03 as int, rhs.m13 as int, rhs.m23 as int, rhs.m33 as int),
            m.m30 == fx_rc(self.m30 as int, self.m31 as int, self.m32 as int, self.m33 as int, rhs.m00 as int, rhs.m10 as int, rhs.m20 as int, rhs.m30 as int),
            m.m31 == fx_rc(self.m30 as int, self.m31 as int, self.m32 as int, self.m33 as int, rhs.m01 as int, rhs.m11 as int, rhs.m21 as int, rhs.m31 as int),
            m.m32 == fx_rc(self.m30 as int, self.m31 as int, self.m32 as int, self.m33 as int, rhs.m02 as int, rhs.m12 as int, rhs.m22 as int, rhs.m32 as int),
            m.m33 == fx_rc(self.m30 as int, self.m31 as int, self.m32 as int, self.m33 as int, rhs.m03 as int, rhs.m13 as int, rhs.m23 as int, rhs.m33 as int),
    {
        Mat4 {
            m00: dot4(self.m00, self.m01, self.m02, self.m03, rhs.m00, rhs.m10, rhs.m20, rhs.m30),
            m01: dot4(self.m00, self.m01, self.m02, self.m03, rhs.m01, rhs.m11, rhs.m21, rhs.m31),
            m02: dot4(self.m00, self.m01, self.m02, self.m03, rhs.m02, rhs.m12, rhs.m22, rhs.m32),
            m03: dot4(self.m00, self.m01, self.m02, self.m03, rhs.m03, rhs.m13, rhs.m23, rhs.m33),
            m10: dot4(self.m10, self.m11, self.m12, self.m13, rhs.m00, rhs.m10, rhs.m20, rhs.m30),
            m11: dot4(self.m10, self.m11, self.m12, self.m13, rhs.m01, rhs.m11, rhs.m21, rhs.m31),
            m12: dot4(self.m10, self.m11, self.m12, self.m13, rhs.m02, rhs.m12, rhs.m22, rhs.m32),
            m13: dot4(self.m10, self.m11, self.m12, self.m13, rhs.m03, rhs.m13, rhs.m23, rhs.m33),
            m20: dot4(self.m20, self.m21, self.m22, self.m23, rhs.m00, rhs.m10, rhs.m20, rhs.m30),
            m21: dot4(self.m20, self.m21, self.m22, self.m23, rhs.m01, rhs.m11, rhs.m21, rhs.m31),
            m22: dot4(self.m20, self.m21, self.m22, self.m23, rhs.m02, rhs.m12, rhs.m22, rhs.m32),
            m23: dot4(self.m20, self.m21, self.m22, self.m23, rhs.m03, rhs.m13, rhs.m23, rhs.m33),
            m30: dot4(self.m30, self.m31, self.m32, self.m33, rhs.m00, rhs.m10, rhs.m20, rhs.m30),
            m31: dot4(self.m30, self.m31, self.m32, self.m33, rhs.m01, rhs.m11, rhs.m21, rhs.m31),
            m32: dot4(self.m30, self.m31, self.m32, self.m33, rhs.m02, rhs.m12, rhs.m22, rhs.m32),
            m33: dot4(self.m30, self.m31, self.m32, self.m33, rhs.m03, rhs.m13, rhs.m23, rhs.m33),
        }
    }

    /// Apply the transform to a tuple: each component is the rounded dot
    /// product of a matrix row with the tuple.
    pub fn apply(&self, t: &Tuple) -> (r: Tuple)
        requires
            self.bounded(),
            t.bounded(),
        ensures
            r.spec_x() == fx_rc(self.m00 as int, self.m01 as int, self.m02 as int, self.m03 as int, t.spec_x(), t.spec_y(), t.spec_z(), t.spec_w()),
            r.spec_y() == fx_rc(self.m10 as int, self.m11 as int, self.m12 as int, self.m13 as int, t.spec_x(), t.spec_y(), t.spec_z(), t.spec_w()),
            r.spec_z() == fx_rc(self.m20 as int, self.m21 as int, self.m22 as int, self.m23 as int, t.spec_x(), t.spec_y(), t.spec_z(), t.spec_w()),
            r.spec_w() == fx_rc(self.m30 as int, self.m31 as int, self.m32 as int, self.m33 as int, t.spec_x(), t.spec_y(), t.spec_z(), t.spec_w()),
    {
        let x = t.x();
        let y = t.y();
        let z = t.z();
        let w = t.w();
        Tuple::new(
            dot4(self.m00, self.m01, self.m02, self.m03, x, y, z, w),
            dot4(self.m10, self.m11, self.m12, self.m13, x, y, z, w),
            dot4(self.m20, self.m21, self.m22, self.m23, x, y, z, w),
            dot4(self.m30, self.m31, self.m32, self.m33, x, y, z, w),
        )
    }
}

/// The rounded fixed-point dot product of a row and a column.
fn dot4(a0: i64, a1: i64, a2: i64, a3: i64, b0: i64, b1: i64, b2: i64, b3: i64) -> (r: i64)
    requires
        in_range(a0 as int),
        in_range(a1 as int),
        in_range(a2 as int),
        in_range(a3 as int),
        in_range(b0 as int),
        in_range(b1 as int),
        in_range(b2 as int),
        in_range(b3 as int),
    ensures
        r == fx_rc(
            a0 as int,
            a1 as int,
            a2 as int,
            a3 as int,
            b0 as int,
            b1 as int,
            b2 as int,
            b3 as int,
        ),
{
    proof {
        lemma_mul_magnitude(a0 as int, b0 as int, LIMIT as int, LIMIT as int);
        lemma_mul_magnitude(a1 as int, b1 as int, LIMIT as int, LIMIT as int);
        lemma_mul_magnitude(a2 as int, b2 as int, LIMIT as int, LIMIT as int);
        lemma_mul_magnitude(a3 as int, b3 as int, LIMIT as int, LIMIT as int);
    }
    let s: i64 = a0 * b0 + a1 * b1 + a2 * b2 + a3 * b3;
    fx_round_i64(s)
}

} // verus!
