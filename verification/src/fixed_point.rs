//! Arithmetic on unsigned integers scaled by a fixed factor.
//!
//! A decimal value `v` is carried as the integer `v * SCALE`. Sums and
//! differences are those of the raw integers; a product divides by the scale
//! once, a quotient multiplies by it once, and both truncate toward zero.
//! The executable functions compute in twice the width, so that they are
//! exact wherever the result itself fits.

use vstd::arithmetic::div_mod::{lemma_fundamental_div_mod, lemma_mod_bound};
use vstd::arithmetic::power::pow;
use vstd::prelude::*;

verus! {

/// Unsigned integer that carries every scaled quantity.
pub type Uint = u64;

/// Number of decimal digits that the scaled quantities keep.
pub const PRECISION: u32 = 6;

/// Scale factor of the fixed-point quantities.
pub const SCALE: Uint = 1_000_000;

/// The scale factor is ten to the power of the precision.
pub proof fn lemma_scale_is_power_of_ten()
    ensures
        SCALE == pow(10, PRECISION as nat),
{
    reveal_with_fuel(pow, 7);
}

/// A truncated quotient times the divisor is the dividend less a remainder
/// that is smaller than the divisor.
pub proof fn lemma_truncated_quotient(a: nat, d: nat)
    requires
        d > 0,
    ensures
        (a / d) * d <= a < (a / d) * d + d,
{
    lemma_fundamental_div_mod(a as int, d as int);
    lemma_mod_bound(a as int, d as int);
    assert((a / d) * d == d * (a / d)) by (nonlinear_arith);
}

/// The truncated quotient is no less than any whole number whose product
/// with the divisor is no more than the dividend.
pub proof fn lemma_quotient_at_least(a: nat, d: nat, q: nat)
    requires
        d > 0,
        q * d <= a,
    ensures
        q <= a / d,
{
    lemma_truncated_quotient(a, d);
    assert(q < a / d + 1) by (nonlinear_arith)
        requires
            q * d <= a,
            a < (a / d) * d + d,
            d > 0,
    ;
}

/// The truncated quotient is no more than any whole number whose product
/// with the divisor is no less than the dividend.
pub proof fn lemma_quotient_at_most(a: nat, d: nat, q: nat)
    requires
        d > 0,
        a <= q * d,
    ensures
        a / d <= q,
{
    lemma_truncated_quotient(a, d);
    assert(a / d <= q) by (nonlinear_arith)
        requires
            (a / d) * d <= a,
            a <= q * d,
            d > 0,
    ;
}

/// Fixed-point product of two scaled values, truncated toward zero.
pub open spec fn scaled_mul(a: nat, b: nat) -> nat {
    a * b / (SCALE as nat)
}

/// Fixed-point quotient of two scaled values, truncated toward zero.
pub open spec fn scaled_div(a: nat, b: nat) -> nat
    recommends
        b > 0,
{
    a * (SCALE as nat) / b
}

/// What is left of `amount` once the percentage `fee` is taken off it,
/// truncated toward zero.
pub open spec fn less_fee(amount: nat, fee: nat) -> nat
    recommends
        fee <= SCALE,
{
    scaled_mul(amount, (SCALE - fee) as nat)
}

/// The fixed-point product of a sum is no less than the sum of the
/// fixed-point products of its terms: truncating once loses no more than
/// truncating twice.
pub proof fn lemma_scaled_mul_superadditive(a: nat, b: nat, factor: nat)
    ensures
        scaled_mul(a, factor) + scaled_mul(b, factor) <= scaled_mul(a + b, factor),
{
    let scale = SCALE as nat;
    let qa = scaled_mul(a, factor);
    let qb = scaled_mul(b, factor);
    lemma_truncated_quotient(a * factor, scale);
    lemma_truncated_quotient(b * factor, scale);
    assert((qa + qb) * scale <= (a + b) * factor) by (nonlinear_arith)
        requires
            qa * scale <= a * factor,
            qb * scale <= b * factor,
    ;
    lemma_quotient_at_least((a + b) * factor, scale, qa + qb);
}

/// Taking a fee off an amount never yields more than the amount.
pub proof fn lemma_less_fee_bounded(amount: nat, fee: nat)
    requires
        fee <= SCALE,
    ensures
        less_fee(amount, fee) <= amount,
{
    let keep = (SCALE - fee) as nat;
    assert(amount * keep <= amount * (SCALE as nat)) by (nonlinear_arith)
        requires
            keep <= SCALE,
    ;
    assert(amount * keep / (SCALE as nat) <= amount) by (nonlinear_arith)
        requires
            amount * keep <= amount * (SCALE as nat),
            SCALE > 0,
    ;
}

/// A product whose fixed-point value fits the integer width is itself
/// below the width times the scale.
pub proof fn lemma_product_fits(a: nat, b: nat)
    requires
        scaled_mul(a, b) <= Uint::MAX,
    ensures
        a * b < (Uint::MAX + 1) * SCALE,
{
    let p = a * b;
    assert(p < (Uint::MAX + 1) * SCALE) by (nonlinear_arith)
        requires
            p / (SCALE as nat) <= Uint::MAX,
            SCALE > 0,
    ;
}

/// Computes the fixed-point product of two scaled values in double width.
pub(crate) fn mul_scaled_wide(a: Uint, b: Uint) -> (r: u128)
    ensures
        r == scaled_mul(a as nat, b as nat),
        r <= Uint::MAX * Uint::MAX,
{
    assert(a * b <= Uint::MAX * Uint::MAX) by (nonlinear_arith)
        requires
            a <= Uint::MAX,
            b <= Uint::MAX,
    ;
    let wide: u128 = (a as u128) * (b as u128);
    wide / (SCALE as u128)
}

/// Computes the fixed-point product of two scaled values.
pub(crate) fn mul_scaled(a: Uint, b: Uint) -> (r: Uint)
    requires
        scaled_mul(a as nat, b as nat) <= Uint::MAX,
    ensures
        r == scaled_mul(a as nat, b as nat),
{
    let wide: u128 = mul_scaled_wide(a, b);
    wide as Uint
}

/// Computes the fixed-point quotient of two scaled values.
pub(crate) fn div_scaled(a: Uint, b: Uint) -> (r: Uint)
    requires
        b > 0,
        scaled_div(a as nat, b as nat) <= Uint::MAX,
    ensures
        r == scaled_div(a as nat, b as nat),
{
    let wide: u128 = (a as u128) * (SCALE as u128);
    let q: u128 = wide / (b as u128);
    q as Uint
}

} // verus!
