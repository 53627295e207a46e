//! The inverse Park transform on Q15 values, computed in `I16F16` with
//! saturating arithmetic. The sine and cosine of the electrical angle are
//! given as `I16F16` bits.
use vstd::prelude::*;
use crate::fixed_point::{
    clamp_i16, clamp_i32, fx16_from_i16, fx16_saturating_add, fx16_saturating_mul,
    fx16_saturating_sub, fx16_saturating_to_i16, ONE16_BITS,
};

verus! {

/// Bits of `α` without saturation: `d·cos θ - q·sin θ`.
pub open spec fn alpha_bits(i_d: i16, i_q: i16, sin_theta: i32, cos_theta: i32) -> int {
    i_d * cos_theta - i_q * sin_theta
}

/// Bits of `β` without saturation: `d·sin θ + q·cos θ`.
pub open spec fn beta_bits(i_d: i16, i_q: i16, sin_theta: i32, cos_theta: i32) -> int {
    i_d * sin_theta + i_q * cos_theta
}

/// `α` as `inverse` computes it: each product and the difference saturate
/// at the `I16F16` range, and the integer part saturates at the `i16` range.
pub open spec fn spec_alpha(i_d: i16, i_q: i16, sin_theta: i32, cos_theta: i32) -> int {
    clamp_i16(
        clamp_i32(clamp_i32(i_d * cos_theta) - clamp_i32(i_q * sin_theta)) / (ONE16_BITS as int),
    )
}

/// `β` as `inverse` computes it, saturating like `spec_alpha`.
pub open spec fn spec_beta(i_d: i16, i_q: i16, sin_theta: i32, cos_theta: i32) -> int {
    clamp_i16(
        clamp_i32(clamp_i32(i_d * sin_theta) + clamp_i32(i_q * cos_theta)) / (ONE16_BITS as int),
    )
}

pub open spec fn fits_i32(x: int) -> bool {
    i32::MIN <= x <= i32::MAX
}

pub open spec fn fits_i16_part(bits: int) -> bool {
    i16::MIN <= bits / (ONE16_BITS as int) <= i16::MAX
}

/// The inputs on which no product, sum or result reaches a bound of its type.
pub open spec fn inverse_in_range(i_d: i16, i_q: i16, sin_theta: i32, cos_theta: i32) -> bool {
    &&& fits_i32(i_d * cos_theta)
    &&& fits_i32(i_q * sin_theta)
    &&& fits_i32(i_d * sin_theta)
    &&& fits_i32(i_q * cos_theta)
    &&& fits_i32(alpha_bits(i_d, i_q, sin_theta, cos_theta))
    &&& fits_i32(beta_bits(i_d, i_q, sin_theta, cos_theta))
    &&& fits_i16_part(alpha_bits(i_d, i_q, sin_theta, cos_theta))
    &&& fits_i16_part(beta_bits(i_d, i_q, sin_theta, cos_theta))
}

/// Multiplying an integer-valued `I16F16` by a value is exact.
proof fn lemma_scaled_product(x: i16, t: i32)
    ensures
        ((x * ONE16_BITS) * t) / (ONE16_BITS as int) == x * t,
{
    let xi = x as int;
    let ti = t as int;
    assert((xi * 65536) * ti == (xi * ti) * 65536) by (nonlinear_arith);
    assert(((xi * ti) * 65536) / 65536 == xi * ti) by (nonlinear_arith);
}

/// Inverse Park transformation: rotates the d/q components back into the
/// stationary frame, `α = d·cos θ - q·sin θ`, `β = d·sin θ + q·cos θ`, in
/// `I16F16` and truncated to `i16` (rounding toward negative infinity). It is
/// defined for every input and never overflows: a product, a sum or a result
/// that leaves its type saturates at the nearest bound.
pub fn inverse(i_d: i16, i_q: i16, sin_theta: i32, cos_theta: i32) -> (r: (i16, i16))
    ensures
        r.0 == spec_alpha(i_d, i_q, sin_theta, cos_theta),
        r.1 == spec_beta(i_d, i_q, sin_theta, cos_theta),
{
    proof {
        lemma_scaled_product(i_d, cos_theta);
        lemma_scaled_product(i_q, sin_theta);
        lemma_scaled_product(i_d, sin_theta);
        lemma_scaled_product(i_q, cos_theta);
    }
    let d = fx16_from_i16(i_d);
    let q = fx16_from_i16(i_q);
    let alpha = fx16_saturating_sub(
        fx16_saturating_mul(d, cos_theta),
        fx16_saturating_mul(q, sin_theta),
    );
    let beta = fx16_saturating_add(
        fx16_saturating_mul(d, sin_theta),
        fx16_saturating_mul(q, cos_theta),
    );
    (fx16_saturating_to_i16(alpha), fx16_saturating_to_i16(beta))
}

/// Where nothing reaches a bound, `inverse` is the exact rotation rounded
/// down.
pub proof fn lemma_inverse_exact_in_range(i_d: i16, i_q: i16, sin_theta: i32, cos_theta: i32)
    requires
        inverse_in_range(i_d, i_q, sin_theta, cos_theta),
    ensures
        spec_alpha(i_d, i_q, sin_theta, cos_theta) == alpha_bits(i_d, i_q, sin_theta, cos_theta)
            / (ONE16_BITS as int),
        spec_beta(i_d, i_q, sin_theta, cos_theta) == beta_bits(i_d, i_q, sin_theta, cos_theta)
            / (ONE16_BITS as int),
{
}

/// A zero vector stays zero at any angle, and at angle zero (sine 0, cosine
/// 1) the vector is kept as it is.
pub proof fn lemma_inverse_zero_and_identity(i_d: i16, i_q: i16, sin_theta: i32, cos_theta: i32)
    ensures
        spec_alpha(0, 0, sin_theta, cos_theta) == 0,
        spec_beta(0, 0, sin_theta, cos_theta) == 0,
        spec_alpha(i_d, i_q, 0, ONE16_BITS) == i_d,
        spec_beta(i_d, i_q, 0, ONE16_BITS) == i_q,
{
    let d = i_d as int;
    let q = i_q as int;
    assert((d * 65536) / 65536 == d) by (nonlinear_arith);
    assert((q * 65536) / 65536 == q) by (nonlinear_arith);
    assert(fits_i32(d * 65536)) by (nonlinear_arith)
        requires
            -32768 <= d <= 32767,
    ;
    assert(fits_i32(q * 65536)) by (nonlinear_arith)
        requires
            -32768 <= q <= 32767,
    ;
    assert(0 * (sin_theta as int) == 0 && 0 * (cos_theta as int) == 0);
}

/// At a quarter turn (sine 1, cosine 0) the d/q vector is rotated by 90°:
/// `α = -q` and `β = d`, where `-q` fits (`q` above `i16::MIN`).
pub proof fn lemma_inverse_quarter_turn(i_d: i16, i_q: i16)
    requires
        i_q > i16::MIN,
    ensures
        spec_alpha(i_d, i_q, ONE16_BITS, 0) == -i_q,
        spec_beta(i_d, i_q, ONE16_BITS, 0) == i_d,
{
    let d = i_d as int;
    let q = i_q as int;
    assert((d * 65536) / 65536 == d) by (nonlinear_arith);
    assert(((-q) * 65536) / 65536 == -q) by (nonlinear_arith);
    assert(fits_i32(d * 65536)) by (nonlinear_arith)
        requires
            -32768 <= d <= 32767,
    ;
    assert(fits_i32(q * 65536) && fits_i32(-(q * 65536))) by (nonlinear_arith)
        requires
            -32767 <= q <= 32767,
    ;
    assert(0 - q * 65536 == (-q) * 65536);
}

} // verus!
