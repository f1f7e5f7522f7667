//! Fixed-point arithmetic: truncating (round-toward-zero) division, the
//! clamp used to keep entities inside the arena, and the bounds lemmas the
//! simulation's overflow and invariant proofs lean on.

use vstd::prelude::*;

verus! {

/// `p / d` rounded toward zero, for a positive divisor. This is the
/// division the simulation uses everywhere: scaling a product back down
/// by the fixed-point scale never changes its sign.
pub open spec fn div_trunc(p: int, d: int) -> int
    recommends
        d > 0,
{
    if p >= 0 {
        p / d
    } else {
        -((-p) / d)
    }
}

pub open spec fn abs_spec(x: int) -> int {
    if x < 0 {
        -x
    } else {
        x
    }
}

/// `x` pulled into `[lo, hi]`.
pub open spec fn clamp_spec(lo: int, x: int, hi: int) -> int
    recommends
        lo <= hi,
{
    if x < lo {
        lo
    } else if x > hi {
        hi
    } else {
        x
    }
}

/// Truncating division shrinks magnitude and keeps sign.
pub proof fn lemma_div_trunc_bounds(p: int, d: int)
    requires
        d > 0,
    ensures
        abs_spec(div_trunc(p, d)) <= abs_spec(p),
        p >= 0 ==> 0 <= div_trunc(p, d),
        p <= 0 ==> div_trunc(p, d) <= 0,
{
    if p >= 0 {
        assert(0 <= p / d <= p) by (nonlinear_arith)
            requires
                p >= 0,
                d > 0,
        ;
    } else {
        assert(0 <= (-p) / d <= -p) by (nonlinear_arith)
            requires
                p < 0,
                d > 0,
        ;
    }
}

/// A product of bounded factors is bounded by the product of the bounds.
pub proof fn lemma_mul_bound(a: int, b: int, ab: int, bb: int)
    requires
        abs_spec(a) <= ab,
        abs_spec(b) <= bb,
    ensures
        abs_spec(a * b) <= ab * bb,
{
    assert(abs_spec(a * b) <= ab * bb) by (nonlinear_arith)
        requires
            abs_spec(a) <= ab,
            abs_spec(b) <= bb,
    ;
}

/// A numerator within `b * d` divides down to within `b`.
pub proof fn lemma_div_trunc_scale(p: int, d: int, b: int)
    requires
        d > 0,
        abs_spec(p) <= b * d,
    ensures
        abs_spec(div_trunc(p, d)) <= b,
{
    if p >= 0 {
        assert(p / d <= b) by (nonlinear_arith)
            requires
                0 <= p <= b * d,
                d > 0,
        ;
    } else {
        assert((-p) / d <= b) by (nonlinear_arith)
            requires
                0 <= -p <= b * d,
                d > 0,
        ;
    }
}

/// One exponential-smoothing step with factor `m / 1000`, `m` at most
/// 1000, lands between the old value and the target.
pub proof fn lemma_smooth_step_bounds(v: int, t: int, m: int)
    requires
        0 <= m <= 1000,
    ensures
        t >= v ==> v <= v + div_trunc((t - v) * m, 1000) <= t,
        t < v ==> t <= v + div_trunc((t - v) * m, 1000) <= v,
{
    let d = t - v;
    if d >= 0 {
        assert(0 <= d * m <= d * 1000) by (nonlinear_arith)
            requires
                0 <= m <= 1000,
                d >= 0,
        ;
        assert(0 <= (d * m) / 1000 <= d) by (nonlinear_arith)
            requires
                0 <= d * m <= d * 1000,
        ;
    } else {
        assert((-d) * m == -(d * m)) by (nonlinear_arith);
        assert(0 <= (-d) * m <= (-d) * 1000) by (nonlinear_arith)
            requires
                0 <= m <= 1000,
                d < 0,
        ;
        assert(0 <= ((-(d * m))) / 1000 <= -d) by (nonlinear_arith)
            requires
                0 <= -(d * m) <= (-d) * 1000,
        ;
    }
}

/// `p / d` rounded toward zero, on machine integers.
pub fn div_trunc_i64(p: i64, d: i64) -> (r: i64)
    requires
        d > 0,
        p != i64::MIN,
    ensures
        r == div_trunc(p as int, d as int),
        abs_spec(r as int) <= abs_spec(p as int),
{
    proof {
        lemma_div_trunc_bounds(p as int, d as int);
    }
    if p >= 0 {
        ((p as u64) / (d as u64)) as i64
    } else {
        -((((-p) as u64) / (d as u64)) as i64)
    }
}

/// `x` pulled into `[lo, hi]`.
pub fn clamp_i64(lo: i64, x: i64, hi: i64) -> (r: i64)
    requires
        lo <= hi,
    ensures
        r == clamp_spec(lo as int, x as int, hi as int),
{
    if x < lo {
        lo
    } else if x > hi {
        hi
    } else {
        x
    }
}

} // verus!
