//! Points and free vectors in homogeneous coordinates.
//!
//! A tuple holds four fixed-point components `(x, y, z, w)`.  A point
//! carries `w == ONE` so that translation applies to it; a free vector
//! carries `w == 0` so that translation leaves it alone.

use vstd::prelude::*;

use crate::fixed::{
    fx_div, fx_div_i64, fx_mul, fx_mul_i64, fx_round, fx_round_i64, in_range, isqrt_u64,
    lemma_mul_magnitude, lemma_sqrt_floor, sqrt_floor, LIMIT, ONE,
};

verus! {

/// A homogeneous 4-component tuple of fixed-point values.
#[derive(Clone, Copy, Debug, PartialEq, Eq, Structural)]
pub struct Tuple {
    x: i64,
    y: i64,
    z: i64,
    w: i64,
}

/// The tuple with the given components.
pub closed spec fn spec_tuple(x: i64, y: i64, z: i64, w: i64) -> Tuple {
    Tuple { x, y, z, w }
}

impl Tuple {
    /// The x component.
    pub closed spec fn spec_x(self) -> int {
        self.x as int
    }

    /// The y component.
    pub closed spec fn spec_y(self) -> int {
        self.y as int
    }

    /// The z component.
    pub closed spec fn spec_z(self) -> int {
        self.z as int
    }

    /// The homogeneous w component: `ONE` for points, `0` for free vectors.
    pub closed spec fn spec_w(self) -> int {
        self.w as int
    }

    /// All components lie in the working range of fixed-point products.
    pub open spec fn bounded(self) -> bool {
        in_range(self.spec_x()) && in_range(self.spec_y()) && in_range(self.spec_z()) && in_range(
            self.spec_w(),
        )
    }

    /// The squared length of the spatial part `(x, y, z)`.
    pub open spec fn spec_mag_sq(self) -> int {
        self.spec_x() * self.spec_x() + self.spec_y() * self.spec_y() + self.spec_z()
            * self.spec_z()
    }

    /// A tuple from four raw components.
    pub fn new(x: i64, y: i64, z: i64, w: i64) -> (t: Tuple)
        ensures
            t == spec_tuple(x, y, z, w),
            t.spec_x() == x,
            t.spec_y() == y,
            t.spec_z() == z,
            t.spec_w() == w,
    {
        Tuple { x, y, z, w }
    }

    /// A point: `w` is `ONE`, so translation moves it.
    pub fn point(x: i64, y: i64, z: i64) -> (t: Tuple)
        ensures
            t.spec_x() == x,
            t.spec_y() == y,
            t.spec_z() == z,
            t.spec_w() == ONE,
    {
        Tuple { x, y, z, w: ONE }
    }

    /// A free vector: `w` is `0`, so translation leaves it alone.
    pub fn vector(x: i64, y: i64, z: i64) -> (t: Tuple)
        ensures
            t.spec_x() == x,
            t.spec_y() == y,
            t.spec_z() == z,
            t.spec_w() == 0,
    {
        Tuple { x, y, z, w: 0 }
    }

    /// The x component.
    pub fn x(&self) -> (v: i64)
        ensures
            v == self.spec_x(),
    {
        self.x
    }

    /// The y component.
    pub fn y(&self) -> (v: i64)
        ensures
            v == self.spec_y(),
    {
        self.y
    }

    /// The z component.
    pub fn z(&self) -> (v: i64)
        ensures
            v == self.spec_z(),
    {
        self.z
    }

    /// The homogeneous w component.
    pub fn w(&self) -> (v: i64)
        ensures
            v == self.spec_w(),
    {
        self.w
    }

    /// The point with the same spatial components as this tuple.
    pub fn to_point(self) -> (t: Tuple)
        ensures
            t.spec_x() == self.spec_x(),
            t.spec_y() == self.spec_y(),
            t.spec_z() == self.spec_z(),
            t.spec_w() == ONE,
    {
        Tuple { w: ONE, ..self }
    }

    /// Component-wise sum, exact.  Point plus vector is a point; vector
    /// plus vector is a vector.
    pub fn add(self, rhs: Tuple) -> (t: Tuple)
        requires
            self.bounded(),
            rhs.bounded(),
        ensures
            t.spec_x() == self.spec_x() + rhs.spec_x(),
            t.spec_y() == self.spec_y() + rhs.spec_y(),
            t.spec_z() == self.spec_z() + rhs.spec_z(),
            t.spec_w() == self.spec_w() + rhs.spec_w(),
    {
        Tuple { x: self.x + rhs.x, y: self.y + rhs.y, z: self.z + rhs.z, w: self.w + rhs.w }
    }

    /// Component-wise difference, exact.  Point minus vector is a point;
    /// point minus point is a vector.
    pub fn sub(self, rhs: Tuple) -> (t: Tuple)
        requires
            self.bounded(),
            rhs.bounded(),
        ensures
            t.spec_x() == self.spec_x() - rhs.spec_x(),
            t.spec_y() == self.spec_y() - rhs.spec_y(),
            t.spec_z() == self.spec_z() - rhs.spec_z(),
            t.spec_w() == self.spec_w() - rhs.spec_w(),
    {
        Tuple { x: self.x - rhs.x, y: self.y - rhs.y, z: self.z - rhs.z, w: self.w - rhs.w }
    }

    /// Negate every component, exact.
    pub fn neg(self) -> (t: Tuple)
        requires
            self.bounded(),
        ensures
            t.spec_x() == -self.spec_x(),
            t.spec_y() == -self.spec_y(),
            t.spec_z() == -self.spec_z(),
            t.spec_w() == -self.spec_w(),
    {
        Tuple { x: -self.x, y: -self.y, z: -self.z, w: -self.w }
    }

    /// Scale every component by the fixed-point factor `k`, rounded to
    /// nearest.
    pub fn mul_scalar(self, k: i64) -> (t: Tuple)
        requires
            self.bounded(),
            in_range(k as int),
        ensures
            t.spec_x() == fx_mul(self.spec_x(), k as int),
            t.spec_y() == fx_mul(self.spec_y(), k as int),
            t.spec_z() == fx_mul(self.spec_z(), k as int),
            t.spec_w() == fx_mul(self.spec_w(), k as int),
    {
        Tuple {
            x: fx_mul_i64(self.x, k),
            y: fx_mul_i64(self.y, k),
            z: fx_mul_i64(self.z, k),
            w: fx_mul_i64(self.w, k),
        }
    }

    /// Divide every component by the fixed-point factor `k`, rounded to
    /// nearest.
    pub fn div_scalar(self, k: i64) -> (t: Tuple)
        requires
            self.bounded(),
            k != 0,
        ensures
            t.spec_x() == fx_div(self.spec_x(), k as int),
            t.spec_y() == fx_div(self.spec_y(), k as int),
            t.spec_z() == fx_div(self.spec_z(), k as int),
            t.spec_w() == fx_div(self.spec_w(), k as int),
    {
        Tuple {
            x: fx_div_i64(self.x, k),
            y: fx_div_i64(self.y, k),
            z: fx_div_i64(self.z, k),
            w: fx_div_i64(self.w, k),
        }
    }

    /// The dot product of the spatial parts, rounded to nearest.
    pub fn dot(&self, rhs: &Tuple) -> (d: i64)
        requires
            self.bounded(),
            rhs.bounded(),
        ensures
            d == fx_round(
                self.spec_x() * rhs.spec_x() + self.spec_y() * rhs.spec_y() + self.spec_z()
                    * rhs.spec_z(),
            ),
    {
        proof {
            lemma_mul_magnitude(self.spec_x(), rhs.spec_x(), LIMIT as int, LIMIT as int);
            lemma_mul_magnitude(self.spec_y(), rhs.spec_y(), LIMIT as int, LIMIT as int);
            lemma_mul_magnitude(self.spec_z(), rhs.spec_z(), LIMIT as int, LIMIT as int);
        }
        let s: i64 = self.x * rhs.x + self.y * rhs.y + self.z * rhs.z;
        fx_round_i64(s)
    }

    /// The cross product of the spatial parts, a free vector; each
    /// component is rounded to nearest.
    pub fn cross(&self, rhs: &Tuple) -> (c: Tuple)
        requires
            self.bounded(),
            rhs.bounded(),
        ensures
            c.spec_x() == fx_round(
                self.spec_y() * rhs.spec_z() - self.spec_z() * rhs.spec_y(),
            ),
            c.spec_y() == fx_round(
                self.spec_z() * rhs.spec_x() - self.spec_x() * rhs.spec_z(),
            ),
            c.spec_z() == fx_round(
                self.spec_x() * rhs.spec_y() - self.spec_y() * rhs.spec_x(),
            ),
            c.spec_w() == 0,
    {
        proof {
            lemma_mul_magnitude(self.spec_y(), rhs.spec_z(), LIMIT as int, LIMIT as int);
            lemma_mul_magnitude(self.spec_z(), rhs.spec_y(), LIMIT as int, LIMIT as int);
            lemma_mul_magnitude(self.spec_z(), rhs.spec_x(), LIMIT as int, LIMIT as int);
            lemma_mul_magnitude(self.spec_x(), rhs.spec_z(), LIMIT as int, LIMIT as int);
            lemma_mul_magnitude(self.spec_x(), rhs.spec_y(), LIMIT as int, LIMIT as int);
            lemma_mul_magnitude(self.spec_y(), rhs.spec_x(), LIMIT as int, LIMIT as int);
        }
        Tuple {
            x: fx_round_i64(self.y * rhs.z - self.z * rhs.y),
            y: fx_round_i64(self.z * rhs.x - self.x * rhs.z),
            z: fx_round_i64(self.x * rhs.y - self.y * rhs.x),
            w: 0,
        }
    }

    /// The length of the spatial part.  Because a fixed-point value holds
    /// `ONE` steps per unit, this is exactly the floor square root of the
    /// sum of the squared components.
    pub fn magnitude(&self) -> (m: i64)
        requires
            self.bounded(),
        ensures
            m == sqrt_floor(self.spec_mag_sq()),
            m >= 0,
    {
        proof {
            lemma_mul_magnitude(self.spec_x(), self.spec_x(), LIMIT as int, LIMIT as int);
            lemma_mul_magnitude(self.spec_y(), self.spec_y(), LIMIT as int, LIMIT as int);
            lemma_mul_magnitude(self.spec_z(), self.spec_z(), LIMIT as int, LIMIT as int);
            lemma_square_nonneg(self.spec_x());
            lemma_square_nonneg(self.spec_y());
            lemma_square_nonneg(self.spec_z());
        }
        let s: i64 = self.x * self.x + self.y * self.y + self.z * self.z;
        let m: u64 = isqrt_u64(s as u64);
        proof {
            assert((s as u64) as int == s as int);
            assert(m == sqrt_floor(self.spec_mag_sq()));
            lemma_sqrt_floor(self.spec_mag_sq());
            assert((m as int) <= 2_000_000_000) by (nonlinear_arith)
                requires
                    m >= 0,
                    (m as int) * (m as int) <= 3_000_000_000_000_000_000,
            ;
        }
        m as i64
    }

    /// Recover a point from a homogeneous tuple by dividing every spatial
    /// component through by `w`.  A zero `w` admits no point, so the
    /// conversion fails on it.
    pub fn point_from_homogeneous(self) -> (p: Option<Tuple>)
        requires
            self.bounded(),
        ensures
            p is Some <==> self.spec_w() != 0,
            p matches Some(q) ==> {
                &&& q.spec_x() == fx_div(self.spec_x(), self.spec_w())
                &&& q.spec_y() == fx_div(self.spec_y(), self.spec_w())
                &&& q.spec_z() == fx_div(self.spec_z(), self.spec_w())
                &&& q.spec_w() == ONE
            },
    {
        if self.w == 0 {
            None
        } else {
            Some(
                Tuple {
                    x: fx_div_i64(self.x, self.w),
                    y: fx_div_i64(self.y, self.w),
                    z: fx_div_i64(self.z, self.w),
                    w: ONE,
                },
            )
        }
    }

    /// Recover a free vector from a homogeneous tuple: only a zero `w`
    /// admits one, and the spatial components carry over unchanged.
    pub fn vector_from_homogeneous(self) -> (v: Option<Tuple>)
        ensures
            v is Some <==> self.spec_w() == 0,
            v matches Some(q) ==> {
                &&& q.spec_x() == self.spec_x()
                &&& q.spec_y() == self.spec_y()
                &&& q.spec_z() == self.spec_z()
                &&& q.spec_w() == 0
            },
    {
        if self.w == 0 {
            Some(self)
        } else {
            None
        }
    }

    /// The unit vector pointing the same way: each spatial component is
    /// divided by the magnitude.  The zero vector has no direction, so it
    /// is ruled out.
    pub fn normalize(&self) -> (u: Tuple)
        requires
            self.bounded(),
            self.spec_mag_sq() > 0,
        ensures
            u.spec_x() == fx_div(self.spec_x(), sqrt_floor(self.spec_mag_sq())),
            u.spec_y() == fx_div(self.spec_y(), sqrt_floor(self.spec_mag_sq())),
            u.spec_z() == fx_div(self.spec_z(), sqrt_floor(self.spec_mag_sq())),
            u.spec_w() == self.spec_w(),
    {
        let m = self.magnitude();
        proof {
            lemma_sqrt_floor(self.spec_mag_sq());
            if m == 0 {
                assert(self.spec_mag_sq() < 1);
            }
        }
        Tuple {
            x: fx_div_i64(self.x, m),
            y: fx_div_i64(self.y, m),
            z: fx_div_i64(self.z, m),
            w: self.w,
        }
    }
}

/// A square is never negative.
proof fn lemma_square_nonneg(a: int)
    ensures
        a * a >= 0,
{
    assert(a * a >= 0) by (nonlinear_arith);
}

} // verus!
