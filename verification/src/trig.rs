//! Integer trigonometry for bounce geometry. Sine and cosine are the
//! Bhaskara rational approximation, carried out in millidegrees with
//! results on a scale of 1000 (so 1000 stands for 1.0). The approximation
//! is exact where the simulation needs exactness: zero at 0 degrees and
//! one at 90 degrees, so a dead-center hit rebounds purely horizontally.

use vstd::prelude::*;

use crate::arith::abs_spec;
use crate::arith::div_trunc;

verus! {

/// Sine of `x` millidegrees on a scale of 1000, for `x` in `[0, 180_000]`:
/// `4 * x * (180 - x) / (40500 - x * (180 - x))` with `x` read in degrees.
pub open spec fn sin_milli_spec(x: int) -> int
    recommends
        0 <= x <= 180_000,
{
    (4000 * (x * (180_000 - x))) / (40_500_000_000 - x * (180_000 - x))
}

/// Odd extension of `sin_milli_spec` to `[-180_000, 180_000]`.
pub open spec fn sin_signed_spec(x: int) -> int
    recommends
        -180_000 <= x <= 180_000,
{
    if x >= 0 {
        sin_milli_spec(x)
    } else {
        -sin_milli_spec(-x)
    }
}

/// Cosine of `x` millidegrees on a scale of 1000, for `x` in
/// `[-90_000, 90_000]`, via the shift `cos x == sin (90 - x)`.
pub open spec fn cos_milli_spec(x: int) -> int
    recommends
        -90_000 <= x <= 90_000,
{
    sin_milli_spec(90_000 - x)
}

/// The argument's quadratic `x * (180_000 - x)` stays within
/// `[0, 8_100_000_000]` on the sine's domain.
proof fn lemma_quad_range(x: int)
    requires
        0 <= x <= 180_000,
    ensures
        0 <= x * (180_000 - x) <= 8_100_000_000,
{
    assert(0 <= x * (180_000 - x) <= 8_100_000_000) by (nonlinear_arith)
        requires
            0 <= x <= 180_000,
    ;
}

/// The sine approximation stays on its scale: within `[0, 1000]`.
pub proof fn lemma_sin_range(x: int)
    requires
        0 <= x <= 180_000,
    ensures
        0 <= sin_milli_spec(x) <= 1000,
{
    lemma_quad_range(x);
    let q = x * (180_000 - x);
    let num = 4000 * q;
    let den = 40_500_000_000 - q;
    assert(num <= 1000 * den);
    assert(0 <= num / den <= 1000) by (nonlinear_arith)
        requires
            0 <= num <= 1000 * den,
            den > 0,
    ;
}

/// Away from 0 and 180 degrees the sine approximation is strictly
/// positive; in particular it never truncates to zero on
/// `[30, 150]` degrees, the range the bounce cosine lives in.
pub proof fn lemma_sin_pos(x: int)
    requires
        30_000 <= x <= 150_000,
    ensures
        sin_milli_spec(x) >= 1,
{
    assert(x * (180_000 - x) >= 30_000 * 150_000) by (nonlinear_arith)
        requires
            30_000 <= x <= 150_000,
    ;
    let q = x * (180_000 - x);
    lemma_quad_range(x);
    let num = 4000 * q;
    let den = 40_500_000_000 - q;
    assert(num / den >= 1) by (nonlinear_arith)
        requires
            num >= den,
            den > 0,
    ;
}

/// The bounce cosine is strictly positive for any angle the clamped
/// bounce rule can produce: a deflected ball always has a horizontal
/// component.
pub proof fn lemma_cos_pos(x: int)
    requires
        -60_000 <= x <= 60_000,
    ensures
        1 <= cos_milli_spec(x) <= 1000,
{
    lemma_sin_pos(90_000 - x);
    lemma_sin_range(90_000 - x);
}

/// A horizontal angle is exact: cosine 1000, sine 0.
pub proof fn lemma_angle_zero_exact()
    ensures
        cos_milli_spec(0) == 1000,
        sin_signed_spec(0) == 0,
{
    assert(90_000int * (180_000 - 90_000) == 8_100_000_000int) by (nonlinear_arith);
    assert(4000int * 8_100_000_000 == 32_400_000_000_000int);
    assert(32_400_000_000_000int / (40_500_000_000int - 8_100_000_000) == 1000int) by (nonlinear_arith);
    assert(0int * (180_000 - 0) == 0) by (nonlinear_arith);
}

/// Sine of `x` millidegrees on a scale of 1000.
pub fn sin_milli(x: i64) -> (r: i64)
    requires
        0 <= x <= 180_000,
    ensures
        r == sin_milli_spec(x as int),
        0 <= r <= 1000,
{
    proof {
        lemma_quad_range(x as int);
        lemma_sin_range(x as int);
    }
    let q: i64 = x * (180_000 - x);
    let num: i64 = 4000 * q;
    let den: i64 = 40_500_000_000 - q;
    ((num as u64) / (den as u64)) as i64
}

/// Odd-extended sine of `x` millidegrees on a scale of 1000.
pub fn sin_signed(x: i64) -> (r: i64)
    requires
        -180_000 <= x <= 180_000,
    ensures
        r == sin_signed_spec(x as int),
        -1000 <= r <= 1000,
{
    if x >= 0 {
        sin_milli(x)
    } else {
        proof {
            lemma_sin_range(-x as int);
        }
        -sin_milli(-x)
    }
}

/// Cosine of `x` millidegrees on a scale of 1000.
pub fn cos_milli(x: i64) -> (r: i64)
    requires
        -90_000 <= x <= 90_000,
    ensures
        r == cos_milli_spec(x as int),
        0 <= r <= 1000,
{
    sin_milli(90_000 - x)
}

/// Scaling a non-negative value by a trig factor on the 1000 scale never
/// grows it past the value itself.
pub proof fn lemma_trig_scale_bound(c: int, s: int)
    requires
        -1000 <= c <= 1000,
        0 <= s,
    ensures
        abs_spec(div_trunc(c * s, 1000)) <= s,
{
    assert(abs_spec(c * s) <= 1000 * s) by (nonlinear_arith)
        requires
            -1000 <= c <= 1000,
            0 <= s,
    ;
    crate::arith::lemma_div_trunc_bounds(c * s, 1000);
    if c * s >= 0 {
        assert((c * s) / 1000 <= s) by (nonlinear_arith)
            requires
                0 <= c * s <= 1000 * s,
        ;
    } else {
        assert((-(c * s)) / 1000 <= s) by (nonlinear_arith)
            requires
                0 <= -(c * s) <= 1000 * s,
        ;
    }
}

} // verus!
