//! Saturating fixed-point arithmetic helpers shared by the simulation.
//!
//! Velocities and positions live in `i64`; a tick may be handed an arbitrary
//! time delta, so intermediate products are computed in `i128` and the final
//! value saturates at the `i64` range instead of overflowing.

use vstd::prelude::*;

verus! {

/// The value `x` clamped to the representable range of `i64`.
pub open spec fn clip(x: int) -> int {
    if x < i64::MIN as int {
        i64::MIN as int
    } else if x > i64::MAX as int {
        i64::MAX as int
    } else {
        x
    }
}

/// `clip` never leaves the `i64` range.
pub proof fn lemma_clip_range(x: int)
    ensures
        i64::MIN as int <= clip(x) <= i64::MAX as int,
{
}

/// Saturate a wide intermediate value back into `i64`.
pub fn clip_i128(v: i128) -> (r: i64)
    ensures
        r as int == clip(v as int),
{
    if v < i64::MIN as i128 {
        i64::MIN
    } else if v > i64::MAX as i128 {
        i64::MAX
    } else {
        v as i64
    }
}

/// Computes `clip(base + a * b)` without overflow.
pub fn add_mul_clipped(base: i64, a: i64, b: u32) -> (r: i64)
    ensures
        r as int == clip(base + a * b),
{
    proof {
        assert((a as int) * (b as int) <= 0x8000_0000_0000_0000 * 0x1_0000_0000
            && (a as int) * (b as int) >= -0x8000_0000_0000_0000 * 0x1_0000_0000) by (nonlinear_arith)
            requires
                i64::MIN <= a <= i64::MAX,
                0 <= b <= u32::MAX,
        ;
    }
    let prod: i128 = (a as i128) * (b as i128);
    clip_i128((base as i128) + prod)
}

/// Computes `clip(base - a * b)` without overflow.
pub fn sub_mul_clipped(base: i64, a: i64, b: u32) -> (r: i64)
    ensures
        r as int == clip(base - a * b),
{
    proof {
        assert((a as int) * (b as int) <= 0x8000_0000_0000_0000 * 0x1_0000_0000
            && (a as int) * (b as int) >= -0x8000_0000_0000_0000 * 0x1_0000_0000) by (nonlinear_arith)
            requires
                i64::MIN <= a <= i64::MAX,
                0 <= b <= u32::MAX,
        ;
    }
    let prod: i128 = (a as i128) * (b as i128);
    clip_i128((base as i128) - prod)
}

} // verus!
