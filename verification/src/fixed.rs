//! Fixed-point arithmetic underlying every quantity in this crate.
//!
//! A fixed-point value is an `i64` holding `ONE` steps per unit: the value
//! `v` stands for the real number `v / ONE`.  Sums and differences of
//! fixed-point values are exact; products and quotients are rounded to the
//! nearest representable value, ties away from zero.

use vstd::prelude::*;

verus! {

/// Number of fixed-point steps per unit.
pub const ONE: i64 = 10_000;

/// Half a unit, used for round-to-nearest.
pub const HALF: i64 = 5_000;

/// Largest magnitude admitted for the operands of a fixed-point product,
/// chosen so that a sum of four such products still fits in an `i64`.
pub const LIMIT: i64 = 1_000_000_000;

/// The operand range of fixed-point products.
pub open spec fn in_range(v: int) -> bool {
    -LIMIT <= v <= LIMIT
}

/// Round `n / d` (for `d > 0`) to the nearest integer, ties away from zero.
pub open spec fn div_round(n: int, d: int) -> int {
    if n >= 0 {
        (n + d / 2) / d
    } else {
        -((-n + d / 2) / d)
    }
}

/// Scale a double-width intermediate (such as the product of two
/// fixed-point values) back down by `ONE`, rounding to nearest.
pub open spec fn fx_round(x: int) -> int {
    div_round(x, ONE as int)
}

/// Fixed-point product.
pub open spec fn fx_mul(a: int, b: int) -> int {
    fx_round(a * b)
}

/// Fixed-point quotient, for `b != 0`.
pub open spec fn fx_div(a: int, b: int) -> int {
    if b > 0 {
        div_round(a * ONE, b)
    } else {
        -div_round(a * ONE, -b)
    }
}

/// Scale `x` down by `ONE`, rounding to nearest, ties away from zero.
pub fn fx_round_i64(x: i64) -> (r: i64)
    requires
        -(i64::MAX - HALF) <= x <= i64::MAX - HALF,
    ensures
        r == fx_round(x as int),
{
    if x >= 0 {
        let q: u64 = (x as u64 + HALF as u64) / (ONE as u64);
        q as i64
    } else {
        let m: u64 = ((-x) as u64 + HALF as u64) / (ONE as u64);
        -(m as i64)
    }
}

/// Multiply two fixed-point values, rounding to nearest.
pub fn fx_mul_i64(a: i64, b: i64) -> (r: i64)
    requires
        in_range(a as int),
        in_range(b as int),
    ensures
        r == fx_mul(a as int, b as int),
{
    proof {
        lemma_mul_magnitude(a as int, b as int, LIMIT as int, LIMIT as int);
    }
    let p: i64 = a * b;
    fx_round_i64(p)
}

/// Divide two fixed-point values, rounding to nearest, ties away from zero.
pub fn fx_div_i64(a: i64, b: i64) -> (r: i64)
    requires
        in_range(a as int),
        b != 0,
    ensures
        r == fx_div(a as int, b as int),
{
    let ma: u64 = if a < 0 {
        (-a) as u64
    } else {
        a as u64
    };
    let mb: u64 = if b < 0 {
        if b == i64::MIN {
            9_223_372_036_854_775_808u64
        } else {
            (-b) as u64
        }
    } else {
        b as u64
    };
    let q: u64 = (ma * (ONE as u64) + mb / 2) / mb;
    proof {
        lemma_mul_magnitude(ma as int, ONE as int, LIMIT as int, ONE as int);
        lemma_div_round_magnitudes(a as int, b as int, ma as int, mb as int);
        assert((q as int) <= (ma as int) * (ONE as int) + (mb as int) / 2) by (nonlinear_arith)
            requires
                mb >= 1,
                (q as int) == ((ma as int) * (ONE as int) + (mb as int) / 2) / (mb as int),
        ;
    }
    if (a < 0) == (b < 0) {
        q as i64
    } else {
        -(q as i64)
    }
}

/// `fx_div` can be computed from the magnitudes of its operands.
proof fn lemma_div_round_magnitudes(a: int, b: int, ma: int, mb: int)
    requires
        b != 0,
        ma == if a < 0 {
            -a
        } else {
            a
        },
        mb == if b < 0 {
            -b
        } else {
            b
        },
    ensures
        fx_div(a, b) == if (a < 0) == (b < 0) {
            (ma * ONE + mb / 2) / mb
        } else {
            -((ma * ONE + mb / 2) / mb)
        },
{
    lemma_mul_magnitude(a, ONE as int, ma, ONE as int);
    assert(a * ONE == if a < 0 {
        -(ma * ONE)
    } else {
        ma * ONE
    }) by (nonlinear_arith)
        requires
            ma == if a < 0 {
                -a
            } else {
                a
            },
    ;
}

/// The floor of the square root of `n`, for `n >= 0`.
pub open spec fn sqrt_floor(n: int) -> int {
    choose|r: int| 0 <= r && (#[trigger] (r * r)) <= n < (r + 1) * (r + 1)
}

/// For every `n >= 0` there is exactly one floor square root, and
/// `sqrt_floor` denotes it.
pub proof fn lemma_sqrt_floor(n: int)
    requires
        n >= 0,
    ensures
        0 <= sqrt_floor(n),
        sqrt_floor(n) * sqrt_floor(n) <= n,
        n < (sqrt_floor(n) + 1) * (sqrt_floor(n) + 1),
    decreases n,
{
    if n == 0 {
        assert(0 <= 0 && 0 * 0 <= 0 < (0 + 1) * (0 + 1));
        assert(exists|r: int| 0 <= r && (#[trigger] (r * r)) <= n < (r + 1) * (r + 1));
    } else {
        lemma_sqrt_floor(n - 1);
        let p = sqrt_floor(n - 1);
        if (p + 1) * (p + 1) <= n {
            let r = p + 1;
            assert(r * r <= n < (r + 1) * (r + 1)) by (nonlinear_arith)
                requires
                    r == p + 1,
                    p * p <= n - 1 < (p + 1) * (p + 1),
                    (p + 1) * (p + 1) <= n,
                    0 <= p,
            ;
            assert(0 <= r && r * r <= n < (r + 1) * (r + 1));
            assert(exists|r2: int| 0 <= r2 && (#[trigger] (r2 * r2)) <= n < (r2 + 1) * (r2 + 1));
        } else {
            assert(0 <= p && p * p <= n < (p + 1) * (p + 1));
            assert(exists|r2: int| 0 <= r2 && (#[trigger] (r2 * r2)) <= n < (r2 + 1) * (r2 + 1));
        }
    }
}

/// Any integer with the floor-square-root property of `n` is `sqrt_floor(n)`.
pub proof fn lemma_sqrt_floor_unique(n: int, r: int)
    requires
        0 <= r,
        r * r <= n,
        n < (r + 1) * (r + 1),
    ensures
        r == sqrt_floor(n),
{
    lemma_sqrt_floor(n);
    let s = sqrt_floor(n);
    assert(r == s) by (nonlinear_arith)
        requires
            0 <= r,
            0 <= s,
            r * r <= n < (r + 1) * (r + 1),
            s * s <= n < (s + 1) * (s + 1),
    ;
}

/// The floor square root, by bisection.
pub fn isqrt_u64(n: u64) -> (r: u64)
    ensures
        r == sqrt_floor(n as int),
{
    let mut lo: u64 = 0;
    let mut hi: u64 = 4_294_967_296;
    proof {
        assert((4_294_967_296 as int) * (4_294_967_296 as int) > u64::MAX as int);
    }
    while lo + 1 < hi
        invariant
            0 <= lo < hi <= 4_294_967_296,
            lo * lo <= n,
            (n as int) < (hi as int) * (hi as int),
        decreases hi - lo,
    {
        let mid: u64 = lo + (hi - lo) / 2;
        proof {
            assert(lo < mid < hi);
            lemma_mul_magnitude(mid as int, mid as int, 4_294_967_295, 4_294_967_295);
        }
        if mid * mid <= n {
            lo = mid;
        } else {
            hi = mid;
        }
    }
    proof {
        lemma_sqrt_floor_unique(n as int, lo as int);
    }
    lo
}

/// The magnitude of a product is bounded by the product of the magnitudes.
pub proof fn lemma_mul_magnitude(a: int, b: int, m: int, n: int)
    requires
        -m <= a <= m,
        -n <= b <= n,
    ensures
        -(m * n) <= a * b <= m * n,
{
    assert(-(m * n) <= a * b <= m * n) by (nonlinear_arith)
        requires
            -m <= a <= m,
            -n <= b <= n,
    ;
}

} // verus!
