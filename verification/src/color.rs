//! An RGB color with fixed-point channels.
//!
//! Channel values are unbounded during arithmetic (they may leave `[0, ONE]`
//! and go negative); they are clamped to the displayable range only when a
//! canvas is serialized.  Sums and differences of channels are exact;
//! products are rounded to the nearest fixed-point value.

use vstd::prelude::*;

use crate::fixed::{fx_mul, in_range, lemma_mul_magnitude, HALF, LIMIT, ONE};

verus! {

/// An RGB triple of fixed-point channels: the channel value `v` stands for
/// the intensity `v / ONE`, where `0` is dark and `ONE` is full intensity.
#[derive(Clone, Copy, Debug, PartialEq, Eq, Structural)]
pub struct Color {
    r: i64,
    g: i64,
    b: i64,
}

/// The color with the given channel values.
pub closed spec fn spec_color(r: i64, g: i64, b: i64) -> Color {
    Color { r: r, g: g, b: b }
}

/// Clamp a channel to the displayable range `[0, ONE]`.
pub open spec fn clamp01(v: int) -> int {
    if v < 0 {
        0
    } else if v > ONE {
        ONE as int
    } else {
        v
    }
}

/// The integer in `[0, max]` that a channel serializes to: the channel is
/// clamped to `[0, ONE]`, scaled by `max`, and rounded to nearest.
pub open spec fn scale_channel(v: int, max: int) -> int {
    (clamp01(v) * max + HALF) / (ONE as int)
}

impl Color {
    /// The red channel.
    pub closed spec fn spec_r(self) -> int {
        self.r as int
    }

    /// The green channel.
    pub closed spec fn spec_g(self) -> int {
        self.g as int
    }

    /// The blue channel.
    pub closed spec fn spec_b(self) -> int {
        self.b as int
    }

    /// All channels lie in the working range of fixed-point products.
    pub open spec fn bounded(self) -> bool {
        in_range(self.spec_r()) && in_range(self.spec_g()) && in_range(self.spec_b())
    }

    /// Construct a color from three channel values.  Out-of-range values are
    /// legal: intermediate arithmetic may leave the displayable range.
    pub fn new(r: i64, g: i64, b: i64) -> (c: Color)
        ensures
            c == spec_color(r, g, b),
            c.spec_r() == r,
            c.spec_g() == g,
            c.spec_b() == b,
    {
        Color { r, g, b }
    }

    /// The red channel.
    pub fn r(&self) -> (v: i64)
        ensures
            v == self.spec_r(),
    {
        self.r
    }

    /// The green channel.
    pub fn g(&self) -> (v: i64)
        ensures
            v == self.spec_g(),
    {
        self.g
    }

    /// The blue channel.
    pub fn b(&self) -> (v: i64)
        ensures
            v == self.spec_b(),
    {
        self.b
    }

    /// Component-wise sum, exact.
    pub fn add(self, rhs: Color) -> (c: Color)
        requires
            self.bounded(),
            rhs.bounded(),
        ensures
            c.spec_r() == self.spec_r() + rhs.spec_r(),
            c.spec_g() == self.spec_g() + rhs.spec_g(),
            c.spec_b() == self.spec_b() + rhs.spec_b(),
    {
        Color { r: self.r + rhs.r, g: self.g + rhs.g, b: self.b + rhs.b }
    }

    /// Component-wise difference, exact.
    pub fn sub(self, rhs: Color) -> (c: Color)
        requires
            self.bounded(),
            rhs.bounded(),
        ensures
            c.spec_r() == self.spec_r() - rhs.spec_r(),
            c.spec_g() == self.spec_g() - rhs.spec_g(),
            c.spec_b() == self.spec_b() - rhs.spec_b(),
    {
        Color { r: self.r - rhs.r, g: self.g - rhs.g, b: self.b - rhs.b }
    }

    /// Component-wise product, for blending two tints.
    pub fn mul(self, rhs: Color) -> (c: Color)
        requires
            self.bounded(),
            rhs.bounded(),
        ensures
            c.spec_r() == fx_mul(self.spec_r(), rhs.spec_r()),
            c.spec_g() == fx_mul(self.spec_g(), rhs.spec_g()),
            c.spec_b() == fx_mul(self.spec_b(), rhs.spec_b()),
    {
        Color {
            r: crate::fixed::fx_mul_i64(self.r, rhs.r),
            g: crate::fixed::fx_mul_i64(self.g, rhs.g),
            b: crate::fixed::fx_mul_i64(self.b, rhs.b),
        }
    }

    /// Uniform scaling of all channels by the fixed-point factor `k`
    /// (`color * scalar`).
    pub fn mul_scalar(self, k: i64) -> (c: Color)
        requires
            self.bounded(),
            in_range(k as int),
        ensures
            c.spec_r() == fx_mul(self.spec_r(), k as int),
            c.spec_g() == fx_mul(self.spec_g(), k as int),
            c.spec_b() == fx_mul(self.spec_b(), k as int),
    {
        Color {
            r: crate::fixed::fx_mul_i64(self.r, k),
            g: crate::fixed::fx_mul_i64(self.g, k),
            b: crate::fixed::fx_mul_i64(self.b, k),
        }
    }

    /// Uniform scaling with the scalar on the left (`scalar * color`).
    pub fn scalar_mul(k: i64, c: Color) -> (r: Color)
        requires
            c.bounded(),
            in_range(k as int),
        ensures
            r.spec_r() == fx_mul(k as int, c.spec_r()),
            r.spec_g() == fx_mul(k as int, c.spec_g()),
            r.spec_b() == fx_mul(k as int, c.spec_b()),
    {
        Color {
            r: crate::fixed::fx_mul_i64(k, c.r),
            g: crate::fixed::fx_mul_i64(k, c.g),
            b: crate::fixed::fx_mul_i64(k, c.b),
        }
    }

    /// Approximate equality: every channel pair differs by at most
    /// `epsilon`.
    pub fn approx_eq(&self, other: &Color, epsilon: i64) -> (eq: bool)
        requires
            self.bounded(),
            other.bounded(),
            epsilon >= 0,
        ensures
            eq <==> {
                &&& -epsilon <= self.spec_r() - other.spec_r() <= epsilon
                &&& -epsilon <= self.spec_g() - other.spec_g() <= epsilon
                &&& -epsilon <= self.spec_b() - other.spec_b() <= epsilon
            },
    {
        let dr: i64 = self.r - other.r;
        let dg: i64 = self.g - other.g;
        let db: i64 = self.b - other.b;
        -epsilon <= dr && dr <= epsilon && -epsilon <= dg && dg <= epsilon && -epsilon <= db
            && db <= epsilon
    }

    /// Convert each channel to an integer in `[0, max]` for serialization:
    /// clamp to the displayable range, scale by `max`, round to nearest.
    pub fn scale(&self, max: u64) -> (s: (u64, u64, u64))
        requires
            max <= LIMIT,
        ensures
            s.0 == scale_channel(self.spec_r(), max as int),
            s.1 == scale_channel(self.spec_g(), max as int),
            s.2 == scale_channel(self.spec_b(), max as int),
            s.0 <= max,
            s.1 <= max,
            s.2 <= max,
    {
        (scale_one(self.r, max), scale_one(self.g, max), scale_one(self.b, max))
    }
}

/// Clamp-scale-round a single channel to `[0, max]`.
fn scale_one(v: i64, max: u64) -> (s: u64)
    requires
        max <= LIMIT,
    ensures
        s == scale_channel(v as int, max as int),
        s <= max,
{
    let c: u64 = if v < 0 {
        0
    } else if v > ONE {
        ONE as u64
    } else {
        v as u64
    };
    proof {
        lemma_mul_magnitude(c as int, max as int, ONE as int, LIMIT as int);
        assert(c * max + HALF < (max + 1) * ONE) by (nonlinear_arith)
            requires
                0 <= c <= ONE,
                0 <= max,
                ONE == 10_000,
                HALF == 5_000,
        ;
        assert((c * max + HALF) / (ONE as int) <= max);
    }
    (c * max + HALF as u64) / (ONE as u64)
}

/// Constructing a color and reading its channels back yields exactly the
/// channel values it was constructed from.
pub proof fn lemma_new_round_trip(r: i64, g: i64, b: i64)
    ensures
        spec_color(r, g, b).spec_r() == r,
        spec_color(r, g, b).spec_g() == g,
        spec_color(r, g, b).spec_b() == b,
{
}

/// Adding a color and then subtracting it again restores the original color
/// exactly: channel sums and differences are exact in fixed point.
pub proof fn lemma_add_sub_cancel(a: Color, b: Color, sum: Color, diff: Color)
    requires
        sum.spec_r() == a.spec_r() + b.spec_r(),
        sum.spec_g() == a.spec_g() + b.spec_g(),
        sum.spec_b() == a.spec_b() + b.spec_b(),
        diff.spec_r() == sum.spec_r() - b.spec_r(),
        diff.spec_g() == sum.spec_g() - b.spec_g(),
        diff.spec_b() == sum.spec_b() - b.spec_b(),
    ensures
        diff == a,
{
    assert(diff.r == a.r && diff.g == a.g && diff.b == a.b);
}

/// Scalar multiplication commutes: `k * c` and `c * k` are the same color.
pub proof fn lemma_scalar_mul_commutes(c: Color, k: i64, left: Color, right: Color)
    requires
        left.spec_r() == fx_mul(k as int, c.spec_r()),
        left.spec_g() == fx_mul(k as int, c.spec_g()),
        left.spec_b() == fx_mul(k as int, c.spec_b()),
        right.spec_r() == fx_mul(c.spec_r(), k as int),
        right.spec_g() == fx_mul(c.spec_g(), k as int),
        right.spec_b() == fx_mul(c.spec_b(), k as int),
    ensures
        left == right,
{
    assert(left.r == right.r && left.g == right.g && left.b == right.b);
}

} // verus!
