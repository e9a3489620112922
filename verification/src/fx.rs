//! Saturating fixed-point arithmetic over `i64`, in units of one millionth.
//!
//! `FX_ONE` is the fixed-point representation of 1.0.  Multiplication and
//! division truncate toward zero, as the corresponding real-number operation
//! followed by truncation would; every operation clamps its result to the
//! `i64` range, so no arithmetic here can overflow or panic.

use vstd::prelude::*;

verus! {

/// The fixed-point representation of 1.0: one million units.
pub const FX_ONE: i64 = 1_000_000;

/// The fixed-point representation of 0.5.
pub const FX_HALF: i64 = 500_000;

/// Clamp a mathematical integer to the `i64` range.
pub open spec fn sat(x: int) -> int {
    if x > i64::MAX {
        i64::MAX as int
    } else if x < i64::MIN {
        i64::MIN as int
    } else {
        x
    }
}

/// Absolute value of a mathematical integer.
pub open spec fn abs_int(x: int) -> int {
    if x >= 0 {
        x
    } else {
        -x
    }
}

/// Quotient truncated toward zero, the way machine division rounds.
pub open spec fn tdiv(a: int, b: int) -> int
    recommends
        b != 0,
{
    let q = abs_int(a) / abs_int(b);
    if (a >= 0) == (b >= 0) {
        q
    } else {
        -q
    }
}

/// Remainder with the sign of the dividend, the way machine `%` rounds.
pub open spec fn trem(a: int, b: int) -> int
    recommends
        b > 0,
{
    if a >= 0 {
        a % b
    } else {
        -((-a) % b)
    }
}

/// The fixed-point sum, saturated.
pub open spec fn spec_add(a: int, b: int) -> int {
    sat(a + b)
}

/// The fixed-point difference, saturated.
pub open spec fn spec_sub(a: int, b: int) -> int {
    sat(a - b)
}

/// The fixed-point product `a * b / FX_ONE`, truncated toward zero and saturated.
pub open spec fn spec_mul(a: int, b: int) -> int {
    sat(tdiv(a * b, FX_ONE as int))
}

/// The fixed-point quotient `a * FX_ONE / b`, truncated toward zero and saturated.
pub open spec fn spec_div(a: int, b: int) -> int
    recommends
        b != 0,
{
    sat(tdiv(a * FX_ONE, b))
}

/// `a * b / d` truncated toward zero and saturated.
pub open spec fn spec_muldiv(a: int, b: int, d: int) -> int
    recommends
        d != 0,
{
    sat(tdiv(a * b, d))
}

proof fn lemma_i64_prod_fits(a: int, b: int)
    requires
        i64::MIN <= a <= i64::MAX,
        i64::MIN <= b <= i64::MAX,
    ensures
        -0x4000_0000_0000_0000_0000_0000_0000_0000 <= a * b
            <= 0x4000_0000_0000_0000_0000_0000_0000_0000,
{
    assert(-0x4000_0000_0000_0000_0000_0000_0000_0000 <= a * b
        <= 0x4000_0000_0000_0000_0000_0000_0000_0000) by (nonlinear_arith)
        requires
            -0x8000_0000_0000_0000 <= a <= 0x7FFF_FFFF_FFFF_FFFF,
            -0x8000_0000_0000_0000 <= b <= 0x7FFF_FFFF_FFFF_FFFF,
    ;
}

/// Clamp a 128-bit intermediate result to the `i64` range.
fn clamp128(x: i128) -> (r: i64)
    ensures
        r as int == sat(x as int),
{
    if x > i64::MAX as i128 {
        i64::MAX
    } else if x < i64::MIN as i128 {
        i64::MIN
    } else {
        x as i64
    }
}

/// Truncated division of 128-bit intermediates; divisor nonzero.
fn tdiv128(a: i128, b: i128) -> (r: i128)
    requires
        b != 0,
        -0x4000_0000_0000_0000_0000_0000_0000_0000 <= a
            <= 0x4000_0000_0000_0000_0000_0000_0000_0000,
        -0x4000_0000_0000_0000_0000_0000_0000_0000 <= b
            <= 0x4000_0000_0000_0000_0000_0000_0000_0000,
    ensures
        r as int == tdiv(a as int, b as int),
{
    let an: i128 = if a >= 0 { a } else { -a };
    let bn: i128 = if b >= 0 { b } else { -b };
    let q: i128 = an / bn;
    if (a >= 0) == (b >= 0) {
        q
    } else {
        -q
    }
}

/// Saturating fixed-point addition.
pub fn fx_add(a: i64, b: i64) -> (r: i64)
    ensures
        r as int == spec_add(a as int, b as int),
{
    clamp128(a as i128 + b as i128)
}

/// Saturating fixed-point subtraction.
pub fn fx_sub(a: i64, b: i64) -> (r: i64)
    ensures
        r as int == spec_sub(a as int, b as int),
{
    clamp128(a as i128 - b as i128)
}

/// Saturating fixed-point negation.
pub fn fx_neg(a: i64) -> (r: i64)
    ensures
        r as int == sat(-(a as int)),
{
    clamp128(-(a as i128))
}

/// Saturating fixed-point multiplication: `a * b / FX_ONE`, truncated.
pub fn fx_mul(a: i64, b: i64) -> (r: i64)
    ensures
        r as int == spec_mul(a as int, b as int),
{
    proof {
        lemma_i64_prod_fits(a as int, b as int);
    }
    let p: i128 = a as i128 * b as i128;
    clamp128(tdiv128(p, FX_ONE as i128))
}

/// Saturating fixed-point division: `a * FX_ONE / b`, truncated.
pub fn fx_div(a: i64, b: i64) -> (r: i64)
    requires
        b != 0,
    ensures
        r as int == spec_div(a as int, b as int),
{
    proof {
        lemma_i64_prod_fits(a as int, FX_ONE as int);
    }
    let p: i128 = a as i128 * FX_ONE as i128;
    clamp128(tdiv128(p, b as i128))
}

/// Saturating `a * b / d`, truncated toward zero.
pub fn fx_muldiv(a: i64, b: i64, d: i64) -> (r: i64)
    requires
        d != 0,
    ensures
        r as int == spec_muldiv(a as int, b as int, d as int),
{
    proof {
        lemma_i64_prod_fits(a as int, b as int);
    }
    let p: i128 = a as i128 * b as i128;
    clamp128(tdiv128(p, d as i128))
}

/// A value clamped to the range `[lo, hi]`.
pub open spec fn spec_clamp(x: int, lo: int, hi: int) -> int {
    if x < lo {
        lo
    } else if x > hi {
        hi
    } else {
        x
    }
}

/// Clamp a value to the range `[lo, hi]`.
pub fn fx_clamp(x: i64, lo: i64, hi: i64) -> (r: i64)
    requires
        lo <= hi,
    ensures
        r as int == spec_clamp(x as int, lo as int, hi as int),
        lo <= r <= hi,
{
    if x < lo {
        lo
    } else if x > hi {
        hi
    } else {
        x
    }
}

/// Saturating plain integer product `a * b` (no fixed-point rescaling).
pub fn fx_scale(a: i64, b: i64) -> (r: i64)
    ensures
        r as int == sat(a * b),
{
    proof {
        lemma_i64_prod_fits(a as int, b as int);
    }
    clamp128(a as i128 * b as i128)
}

/// The larger of two fixed-point values.
pub fn fx_max(a: i64, b: i64) -> (r: i64)
    ensures
        r == if a >= b { a } else { b },
{
    if a >= b {
        a
    } else {
        b
    }
}

/// The fractional part of a phase, in `[0, FX_ONE)`: `p - floor(p)` of the
/// real number that `p` stands for.
pub open spec fn spec_frac(p: int) -> int {
    p % (FX_ONE as int)
}

/// The fractional part of a phase, in `[0, FX_ONE)`.
pub fn fx_frac(p: i64) -> (r: i64)
    ensures
        r as int == spec_frac(p as int),
        0 <= r < FX_ONE,
{
    if p >= 0 {
        p % FX_ONE
    } else {
        let m: i64 = (-(p as i128) % FX_ONE as i128) as i64;
        if m == 0 {
            0
        } else {
            proof {
                lemma_neg_mod(p as int);
            }
            FX_ONE - m
        }
    }
}

proof fn lemma_neg_mod(p: int)
    requires
        p < 0,
        (-p) % (FX_ONE as int) != 0,
    ensures
        p % (FX_ONE as int) == FX_ONE - (-p) % (FX_ONE as int),
{
    let n = FX_ONE as int;
    vstd::arithmetic::div_mod::lemma_mod_adds(p, -p, n);
    assert((p + -p) % n == 0) by {
        assert(p + -p == 0);
    }
}

/// Remainder with the sign of the dividend; used to wrap phase accumulators.
pub fn fx_trem(a: i64, b: i64) -> (r: i64)
    requires
        b > 0,
    ensures
        r as int == trem(a as int, b as int),
{
    if a >= 0 {
        a % b
    } else {
        let m: i64 = (-(a as i128) % b as i128) as i64;
        -m
    }
}

} // verus!
