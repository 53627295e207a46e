//! Park transforms on `I32F32` fixed-point arithmetic. The sine and cosine of
//! the electrical angle are given as `I32F32` bits.
use vstd::prelude::*;
use crate::clarke_fixed::{fits_i32, fits_i64, mul_in_range};
use crate::fixed_point::{fx_add, fx_floor, fx_from_i32, fx_mul, fx_mul_bits, fx_neg, fx_sub, fx_to_i32, ONE_BITS};

verus! {

/// Bits of `x · t` where `x` is an integer-valued `I32F32`.
proof fn lemma_scaled_product(x: i32, t: i64)
    ensures
        fx_mul(x * ONE_BITS, t as int) == x * t,
{
    let xi = x as int;
    let ti = t as int;
    assert((xi * 4294967296) * ti == (xi * ti) * 4294967296) by (nonlinear_arith);
    assert(((xi * ti) * 4294967296) / 4294967296 == xi * ti) by (nonlinear_arith);
}

/// Bits of `d` in `forward`: `α·cos θ + β·sin θ`.
pub open spec fn forward_d_bits(alpha: i32, beta: i32, sin_theta: i64, cos_theta: i64) -> int {
    alpha * cos_theta + beta * sin_theta
}

/// Bits of `q` in `forward`: `-α·sin θ + β·cos θ`.
pub open spec fn forward_q_bits(alpha: i32, beta: i32, sin_theta: i64, cos_theta: i64) -> int {
    -alpha * sin_theta + beta * cos_theta
}

/// The inputs of `forward` that can be computed without overflow.
pub open spec fn forward_in_range(alpha: i32, beta: i32, sin_theta: i64, cos_theta: i64) -> bool {
    &&& alpha != i32::MIN
    &&& mul_in_range(alpha * ONE_BITS, cos_theta as int)
    &&& mul_in_range(beta * ONE_BITS, sin_theta as int)
    &&& mul_in_range(-(alpha * ONE_BITS), sin_theta as int)
    &&& mul_in_range(beta * ONE_BITS, cos_theta as int)
    &&& fits_i64(forward_d_bits(alpha, beta, sin_theta, cos_theta))
    &&& fits_i64(forward_q_bits(alpha, beta, sin_theta, cos_theta))
    &&& fits_i32(fx_floor(forward_d_bits(alpha, beta, sin_theta, cos_theta)))
    &&& fits_i32(fx_floor(forward_q_bits(alpha, beta, sin_theta, cos_theta)))
}

/// Park transformation: rotates the stationary α/β components into the rotor
/// frame, `d = α·cos θ + β·sin θ`, `q = -α·sin θ + β·cos θ`, in `I32F32` and
/// truncated to integers (rounding toward negative infinity).
pub fn forward(alpha: i32, beta: i32, sin_theta: i64, cos_theta: i64) -> (r: (i32, i32))
    requires
        forward_in_range(alpha, beta, sin_theta, cos_theta),
    ensures
        r.0 == fx_floor(forward_d_bits(alpha, beta, sin_theta, cos_theta)),
        r.1 == fx_floor(forward_q_bits(alpha, beta, sin_theta, cos_theta)),
{
    let alpha_fx = fx_from_i32(alpha);
    let beta_fx = fx_from_i32(beta);
    proof {
        lemma_scaled_product(alpha, cos_theta);
        lemma_scaled_product(beta, sin_theta);
        lemma_scaled_product(-alpha as i32, sin_theta);
        lemma_scaled_product(beta, cos_theta);
        assert(alpha_fx > i64::MIN) by (nonlinear_arith)
            requires
                alpha_fx == alpha * 4294967296,
                alpha > i32::MIN,
        ;
    }
    let neg_alpha_fx = fx_neg(alpha_fx);
    proof {
        assert(neg_alpha_fx == (-alpha as i32) * ONE_BITS);
        assert(-(alpha * ONE_BITS) == neg_alpha_fx);
    }
    let d = fx_add(fx_mul_bits(alpha_fx, cos_theta), fx_mul_bits(beta_fx, sin_theta));
    let q = fx_add(fx_mul_bits(neg_alpha_fx, sin_theta), fx_mul_bits(beta_fx, cos_theta));
    (fx_to_i32(d), fx_to_i32(q))
}

/// Bits of `α` in `inverse`: `d·cos θ - q·sin θ`.
pub open spec fn inverse_alpha_bits(i_d: i32, i_q: i32, sin_theta: i64, cos_theta: i64) -> int {
    i_d * cos_theta - i_q * sin_theta
}

/// Bits of `β` in `inverse`: `d·sin θ + q·cos θ`.
pub open spec fn inverse_beta_bits(i_d: i32, i_q: i32, sin_theta: i64, cos_theta: i64) -> int {
    i_d * sin_theta + i_q * cos_theta
}

/// The inputs of `inverse` that can be computed without overflow.
pub open spec fn inverse_in_range(i_d: i32, i_q: i32, sin_theta: i64, cos_theta: i64) -> bool {
    &&& mul_in_range(i_d * ONE_BITS, cos_theta as int)
    &&& mul_in_range(i_q * ONE_BITS, sin_theta as int)
    &&& mul_in_range(i_d * ONE_BITS, sin_theta as int)
    &&& mul_in_range(i_q * ONE_BITS, cos_theta as int)
    &&& fits_i64(inverse_alpha_bits(i_d, i_q, sin_theta, cos_theta))
    &&& fits_i64(inverse_beta_bits(i_d, i_q, sin_theta, cos_theta))
    &&& fits_i32(fx_floor(inverse_alpha_bits(i_d, i_q, sin_theta, cos_theta)))
    &&& fits_i32(fx_floor(inverse_beta_bits(i_d, i_q, sin_theta, cos_theta)))
}

/// Inverse Park transformation: rotates the rotor-frame d/q components back
/// to the stationary frame, `α = d·cos θ - q·sin θ`, `β = d·sin θ + q·cos θ`,
/// in `I32F32` and truncated to integers (rounding toward negative infinity).
pub fn inverse(i_d: i32, i_q: i32, sin_theta: i64, cos_theta: i64) -> (r: (i32, i32))
    requires
        inverse_in_range(i_d, i_q, sin_theta, cos_theta),
    ensures
        r.0 == fx_floor(inverse_alpha_bits(i_d, i_q, sin_theta, cos_theta)),
        r.1 == fx_floor(inverse_beta_bits(i_d, i_q, sin_theta, cos_theta)),
{
    let d_fx = fx_from_i32(i_d);
    let q_fx = fx_from_i32(i_q);
    proof {
        lemma_scaled_product(i_d, cos_theta);
        lemma_scaled_product(i_q, sin_theta);
        lemma_scaled_product(i_d, sin_theta);
        lemma_scaled_product(i_q, cos_theta);
    }
    let alpha = fx_sub(fx_mul_bits(d_fx, cos_theta), fx_mul_bits(q_fx, sin_theta));
    let beta = fx_add(fx_mul_bits(d_fx, sin_theta), fx_mul_bits(q_fx, cos_theta));
    (fx_to_i32(alpha), fx_to_i32(beta))
}

/// At angle zero (sine 0, cosine 1) both transforms leave the vector as it is,
/// and a zero vector stays zero at any angle.
pub proof fn lemma_park_identity_and_zero(x: i32, y: i32, sin_theta: i64, cos_theta: i64)
    ensures
        fx_floor(forward_d_bits(x, y, 0, ONE_BITS)) == x,
        fx_floor(forward_q_bits(x, y, 0, ONE_BITS)) == y,
        fx_floor(inverse_alpha_bits(x, y, 0, ONE_BITS)) == x,
        fx_floor(inverse_beta_bits(x, y, 0, ONE_BITS)) == y,
        fx_floor(forward_d_bits(0, 0, sin_theta, cos_theta)) == 0,
        fx_floor(forward_q_bits(0, 0, sin_theta, cos_theta)) == 0,
        fx_floor(inverse_alpha_bits(0, 0, sin_theta, cos_theta)) == 0,
        fx_floor(inverse_beta_bits(0, 0, sin_theta, cos_theta)) == 0,
{
    let xi = x as int;
    let yi = y as int;
    assert((xi * 4294967296) / 4294967296 == xi) by (nonlinear_arith);
    assert((yi * 4294967296) / 4294967296 == yi) by (nonlinear_arith);
}

/// At a quarter turn (sine 1, cosine 0), the inverse transform maps d/q to
/// `α = -q`, `β = d`, and the forward transform maps α/β to `d = β`, `q = -α`:
/// the two undo each other.
pub proof fn lemma_park_quarter_turn(x: i32, y: i32)
    ensures
        fx_floor(inverse_alpha_bits(x, y, ONE_BITS, 0)) == -y,
        fx_floor(inverse_beta_bits(x, y, ONE_BITS, 0)) == x,
        fx_floor(forward_d_bits(x, y, ONE_BITS, 0)) == y,
        fx_floor(forward_q_bits(x, y, ONE_BITS, 0)) == -x,
{
    let xi = x as int;
    let yi = y as int;
    assert((xi * 4294967296) / 4294967296 == xi) by (nonlinear_arith);
    assert((yi * 4294967296) / 4294967296 == yi) by (nonlinear_arith);
    assert(((-yi) * 4294967296) / 4294967296 == -yi) by (nonlinear_arith);
    assert(((-xi) * 4294967296) / 4294967296 == -xi) by (nonlinear_arith);
}

} // verus!
