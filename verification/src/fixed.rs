//! Deterministic fixed-point arithmetic.
//!
//! Every length, time and velocity component in this crate is an `i64`
//! holding a real quantity scaled by [`SCALE`]. The operations below
//! saturate at [`FX_LIMIT`] instead of overflowing, and each one has an
//! exact specification (`spec_fx_add`, `spec_fx_mul`, ...), so callers can
//! reason about results bit for bit.

use vstd::prelude::*;

verus! {

/// One unit of length (or one second) in raw fixed-point ticks.
pub const SCALE: i64 = 1_000_000;

/// Largest raw magnitude the arithmetic produces; operations saturate here.
pub const FX_LIMIT: i64 = 1_000_000_000_000;

/// Bound on wide (128-bit) intermediates fed to `div_clamp` and `isqrt_u128`.
pub const WIDE_LIMIT: i128 = 4_000_000_000_000_000_000_000_000;

/// Bound on the product of two in-range values: `FX_LIMIT * FX_LIMIT`.
pub const MUL_BOUND: i128 = 1_000_000_000_000_000_000_000_000;

/// A raw value the arithmetic can take as input: within the saturation range.
pub open spec fn fx_ok(v: i64) -> bool {
    -FX_LIMIT <= v <= FX_LIMIT
}

/// Saturation into the representable range.
pub open spec fn clamp_s(v: int) -> int {
    if v > FX_LIMIT {
        FX_LIMIT as int
    } else if v < -FX_LIMIT {
        -(FX_LIMIT as int)
    } else {
        v
    }
}

/// Division truncating toward zero (machine signed division), positive divisor.
pub open spec fn div_t(a: int, b: int) -> int {
    if a >= 0 {
        a / b
    } else {
        -((-a) / b)
    }
}

/// Saturating addition of raw values.
pub open spec fn spec_fx_add(a: int, b: int) -> int {
    clamp_s(a + b)
}

/// Saturating subtraction of raw values.
pub open spec fn spec_fx_sub(a: int, b: int) -> int {
    clamp_s(a - b)
}

/// Fixed-point product: `a * b` rescaled by [`SCALE`], truncated, saturated.
pub open spec fn spec_fx_mul(a: int, b: int) -> int {
    clamp_s(div_t(a * b, SCALE as int))
}

/// Fixed-point quotient: `a / b` rescaled by [`SCALE`], truncated, saturated.
pub open spec fn spec_fx_div(a: int, b: int) -> int {
    clamp_s(div_t(a * (SCALE as int), b))
}

/// Clamps a wide intermediate into the representable range.
pub(crate) fn clamp_i128(v: i128) -> (r: i64)
    ensures
        r == clamp_s(v as int),
{
    if v > FX_LIMIT as i128 {
        FX_LIMIT
    } else if v < -(FX_LIMIT as i128) {
        -FX_LIMIT
    } else {
        v as i64
    }
}

/// The exact product of two in-range values, in a wide intermediate.
pub(crate) fn mul_wide(a: i64, b: i64) -> (r: i128)
    requires
        fx_ok(a),
        fx_ok(b),
    ensures
        r == a * b,
        -MUL_BOUND <= r <= MUL_BOUND,
{
    proof {
        assert(-1_000_000_000_000_000_000_000_000 <= (a as int) * (b as int)
            <= 1_000_000_000_000_000_000_000_000) by (nonlinear_arith)
            requires
                -1_000_000_000_000 <= a <= 1_000_000_000_000,
                -1_000_000_000_000 <= b <= 1_000_000_000_000,
        ;
    }
    (a as i128) * (b as i128)
}

/// Truncating division of a wide intermediate by a positive divisor,
/// saturated into the representable range.
pub(crate) fn div_clamp(p: i128, b: i64) -> (r: i64)
    requires
        0 < b,
        -WIDE_LIMIT <= p <= WIDE_LIMIT,
    ensures
        r == clamp_s(div_t(p as int, b as int)),
{
    if p >= 0 {
        let q: u128 = (p as u128) / (b as u128);
        if q > FX_LIMIT as u128 {
            FX_LIMIT
        } else {
            q as i64
        }
    } else {
        let m: u128 = (-p) as u128;
        let q: u128 = m / (b as u128);
        if q > FX_LIMIT as u128 {
            -FX_LIMIT
        } else {
            -(q as i64)
        }
    }
}

/// Saturating addition.
pub fn fx_add(a: i64, b: i64) -> (r: i64)
    ensures
        r == spec_fx_add(a as int, b as int),
        fx_ok(r),
{
    clamp_i128((a as i128) + (b as i128))
}

/// Saturating subtraction.
pub fn fx_sub(a: i64, b: i64) -> (r: i64)
    ensures
        r == spec_fx_sub(a as int, b as int),
        fx_ok(r),
{
    clamp_i128((a as i128) - (b as i128))
}

/// Fixed-point multiplication, truncating toward zero and saturating.
pub fn fx_mul(a: i64, b: i64) -> (r: i64)
    requires
        fx_ok(a),
        fx_ok(b),
    ensures
        r == spec_fx_mul(a as int, b as int),
        fx_ok(r),
{
    let p: i128 = mul_wide(a, b);
    div_clamp(p, SCALE)
}

/// Fixed-point division by a positive divisor, truncating toward zero
/// and saturating.
pub fn fx_div(a: i64, b: i64) -> (r: i64)
    requires
        fx_ok(a),
        0 < b,
    ensures
        r == spec_fx_div(a as int, b as int),
        fx_ok(r),
{
    let p: i128 = mul_wide(a, SCALE);
    div_clamp(p, b)
}

/// `r` is the integer square root of `n`.
pub open spec fn is_isqrt(n: int, r: int) -> bool {
    0 <= r && r * r <= n && n < (r + 1) * (r + 1)
}

/// The integer square root, as a total recursive definition.
pub open spec fn spec_isqrt(n: int) -> int
    decreases n,
{
    if n <= 0 {
        0
    } else {
        let r = spec_isqrt(n - 1);
        if (r + 1) * (r + 1) <= n {
            r + 1
        } else {
            r
        }
    }
}

/// `spec_isqrt` really is the integer square root.
pub proof fn lemma_isqrt_correct(n: int)
    requires
        n >= 0,
    ensures
        is_isqrt(n, spec_isqrt(n)),
    decreases n,
{
    if n == 0 {
        assert(spec_isqrt(0) == 0);
    } else {
        lemma_isqrt_correct(n - 1);
        let r = spec_isqrt(n - 1);
        if (r + 1) * (r + 1) <= n {
            assert(n < (r + 2) * (r + 2)) by (nonlinear_arith)
                requires
                    (r + 1) * (r + 1) <= n,
                    n - 1 < (r + 1) * (r + 1),
                    r >= 0,
            ;
        }
    }
}

/// The integer square root is unique.
pub proof fn lemma_isqrt_unique(n: int, r: int)
    requires
        is_isqrt(n, r),
    ensures
        r == spec_isqrt(n),
{
    assert(n >= 0) by (nonlinear_arith)
        requires
            0 <= r,
            r * r <= n,
    ;
    lemma_isqrt_correct(n);
    let s = spec_isqrt(n);
    assert(r == s) by (nonlinear_arith)
        requires
            0 <= r,
            r * r <= n,
            n < (r + 1) * (r + 1),
            0 <= s,
            s * s <= n,
            n < (s + 1) * (s + 1),
    ;
}

/// Integer square root of a wide value, by bisection.
pub fn isqrt_u128(n: u128) -> (r: u128)
    requires
        n <= WIDE_LIMIT,
    ensures
        r == spec_isqrt(n as int),
        is_isqrt(n as int, r as int),
{
    if n == 0 {
        proof {
            lemma_isqrt_unique(0, 0);
        }
        return 0;
    }
    let mut lo: u128 = 0;
    let mut hi: u128 = 2_100_000_000_000;
    assert((n as int) < (hi as int) * (hi as int)) by (nonlinear_arith)
        requires
            n <= 4_000_000_000_000_000_000_000_000u128,
            hi == 2_100_000_000_000u128,
    ;
    while lo + 1 < hi
        invariant
            (lo as int) * (lo as int) <= n as int,
            (n as int) < (hi as int) * (hi as int),
            lo < hi <= 2_100_000_000_000,
        decreases hi - lo,
    {
        let mid: u128 = lo + (hi - lo) / 2;
        proof {
            assert((mid as int) * (mid as int) <= 4_410_000_000_000_000_000_000_000) by (nonlinear_arith)
                requires
                    mid <= 2_100_000_000_000u128,
            ;
        }
        if mid * mid <= n {
            lo = mid;
        } else {
            hi = mid;
        }
    }
    proof {
        lemma_isqrt_unique(n as int, lo as int);
    }
    lo
}

} // verus!
