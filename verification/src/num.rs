//! Saturating integer helpers: every position and speed update clamps to the
//! machine range instead of wrapping, so the simulation step is total.
use vstd::prelude::*;

verus! {

/// Mathematical value of `v` clamped to the `i64` range.
pub open spec fn clamp_i64(v: int) -> int {
    if v > i64::MAX as int {
        i64::MAX as int
    } else if v < i64::MIN as int {
        i64::MIN as int
    } else {
        v
    }
}

/// Mathematical value of `v` clamped to the `u32` range from above
/// (`v` is never negative where this is used).
pub open spec fn clamp_u32(v: int) -> int {
    if v > u32::MAX as int {
        u32::MAX as int
    } else if v < 0 {
        0
    } else {
        v
    }
}

/// Saturating `a + b` on `i64`.
pub fn sat_add_i64(a: i64, b: i64) -> (r: i64)
    ensures
        r as int == clamp_i64(a + b),
{
    if b >= 0 {
        if a > i64::MAX - b {
            i64::MAX
        } else {
            a + b
        }
    } else {
        if a < i64::MIN - b {
            i64::MIN
        } else {
            a + b
        }
    }
}

/// Saturating `a + b` on `u32`.
pub fn sat_add_u32(a: u32, b: u32) -> (r: u32)
    ensures
        r as int == clamp_u32(a + b),
{
    if a > u32::MAX - b {
        u32::MAX
    } else {
        a + b
    }
}

/// `p + a * b`, clamped to the `i64` range; the product is formed in `i128`,
/// where two `i64` factors cannot overflow.
pub fn add_mul_i64(p: i64, a: i64, b: i64) -> (r: i64)
    ensures
        r as int == clamp_i64(p + a * b),
{
    proof {
        lemma_i64_mul_fits(a as int, b as int);
    }
    let v: i128 = p as i128 + (a as i128) * (b as i128);
    if v > i64::MAX as i128 {
        i64::MAX
    } else if v < i64::MIN as i128 {
        i64::MIN
    } else {
        v as i64
    }
}

/// `p + s * a * b` for a sign `s` in `{-1, 0, 1}`, clamped to the `i64`
/// range; formed in `i128`, where the product cannot overflow.
pub fn add_mul_scaled_i64(p: i64, s: i8, a: i64, b: i64) -> (r: i64)
    requires
        -1 <= s <= 1,
    ensures
        r as int == clamp_i64(p + s * a * b),
{
    proof {
        assert((i64::MIN <= s * a <= i64::MAX || s * a == -(i64::MIN as int))
            && -0x4000_0000_0000_0000_0000_0000_0000_0000 <= (s * a) * b
            <= 0x4000_0000_0000_0000_0000_0000_0000_0000) by (nonlinear_arith)
            requires
                -1 <= s <= 1,
                i64::MIN <= a <= i64::MAX,
                i64::MIN <= b <= i64::MAX,
        ;
    }
    let v: i128 = p as i128 + (s as i128) * (a as i128) * (b as i128);
    if v > i64::MAX as i128 {
        i64::MAX
    } else if v < i64::MIN as i128 {
        i64::MIN
    } else {
        v as i64
    }
}

/// The product of two values in `i64` range stays well inside `i128` range,
/// with room for one more `i64`-range summand.
proof fn lemma_i64_mul_fits(a: int, b: int)
    requires
        i64::MIN <= a <= i64::MAX,
        i64::MIN <= b <= i64::MAX,
    ensures
        -0x4000_0000_0000_0000_0000_0000_0000_0000 <= a * b
            <= 0x4000_0000_0000_0000_0000_0000_0000_0000,
{
    assert(-0x4000_0000_0000_0000_0000_0000_0000_0000 <= a * b
        <= 0x4000_0000_0000_0000_0000_0000_0000_0000) by (nonlinear_arith)
        requires
            i64::MIN <= a <= i64::MAX,
            i64::MIN <= b <= i64::MAX,
    ;
}

} // verus!
