//! The one random source the simulation uses: the launch angle and launch
//! direction drawn at each ball reset.

use vstd::prelude::*;

verus! {

/// Relies on `macroquad::rand::gen_range` on `i32`. Its source computes
/// `low + (high - low) * u` in `f64` for a uniform `u` in `[0, 1)` and
/// casts the result to `i32` with truncation toward zero, so the result
/// lies in `[low, high]`, and strictly below `high` whenever `high` is
/// positive. The bounds are kept small: below 2^21 the product and sum
/// are far enough from `high` that rounding can never reach it, which at
/// larger magnitudes it can. Nothing more is promised of a random draw.
#[verifier::external_body]
pub(crate) fn gen_range_i32(low: i32, high: i32) -> (r: i32)
    requires
        -1_000_000 <= low < high <= 1_000_000,
    ensures
        low <= r <= high,
        high > 0 ==> r < high,
{
    macroquad::rand::gen_range(low, high)
}

} // verus!
