//! Clarke transforms on `I32F32` fixed-point arithmetic.
use vstd::prelude::*;
use crate::fixed_point::{
    fx_add, fx_div_int, fx_floor, fx_from_i32, fx_mul, fx_mul_bits, fx_saturating_neg, fx_sub,
    fx_to_i32, trunc_div, ONE_BITS,
};

verus! {

/// √3/2 as `I32F32` bits.
pub const SQRT3_OVER_2: i64 = 3719550787;
/// 2/3 as `I32F32` bits.
pub const TWO_OVER_3: i64 = 2863311531;
/// 1/3 as `I32F32` bits.
pub const ONE_OVER_3: i64 = 1431655765;
/// 1/√3 as `I32F32` bits.
pub const ONE_OVER_SQRT3: i64 = 2479700525;
/// 2/√3 as `I32F32` bits.
pub const TWO_OVER_SQRT3: i64 = 4959401049;

/// Bits of `-α/2` in `inverse`: `α` negated with saturation, then halved
/// rounding toward zero.
pub open spec fn half_neg_alpha(alpha: i32) -> int {
    let bits = alpha * ONE_BITS;
    let neg = if bits == i64::MIN { i64::MAX as int } else { -bits };
    trunc_div(neg, 2)
}

/// Bits of `β·√3/2` in `inverse`.
pub open spec fn beta_term(beta: i32) -> int {
    fx_mul(beta * ONE_BITS, SQRT3_OVER_2 as int)
}

pub open spec fn inverse_b_bits(alpha: i32, beta: i32) -> int {
    half_neg_alpha(alpha) + beta_term(beta)
}

pub open spec fn inverse_c_bits(alpha: i32, beta: i32) -> int {
    half_neg_alpha(alpha) - beta_term(beta)
}

pub open spec fn fits_i64(x: int) -> bool {
    i64::MIN <= x <= i64::MAX
}

pub open spec fn fits_i32(x: int) -> bool {
    i32::MIN <= x <= i32::MAX
}

/// The inputs of `inverse` whose B and C values can be represented.
pub open spec fn inverse_in_range(alpha: i32, beta: i32) -> bool {
    &&& fits_i64(inverse_b_bits(alpha, beta))
    &&& fits_i64(inverse_c_bits(alpha, beta))
    &&& fits_i32(fx_floor(inverse_b_bits(alpha, beta)))
    &&& fits_i32(fx_floor(inverse_c_bits(alpha, beta)))
}

/// Whether the `fixed` crate multiplies `a` and `b` (as bits) without overflow.
pub open spec fn mul_in_range(a: int, b: int) -> bool {
    -0x8000_0000_0000_0000_0000_0000 <= a * b < 0x8000_0000_0000_0000_0000_0000
}

/// Multiplying an integer-valued `I32F32` by a constant is exact.
proof fn lemma_mul_by_integer_bits(x: i32, k: i64)
    ensures
        fx_mul(x * ONE_BITS, k as int) == x * k,
        (x * ONE_BITS) * k == (x * k) * ONE_BITS,
{
    let xi = x as int;
    let ki = k as int;
    assert((xi * 4294967296) * ki == (xi * ki) * 4294967296) by (nonlinear_arith);
    assert(((xi * ki) * 4294967296) / 4294967296 == xi * ki) by (nonlinear_arith);
}

/// A constant below one (`0 <= k < 2^32`) times any `i32` never overflows.
proof fn lemma_small_constant_in_range(x: i32, k: i64)
    requires
        0 <= k < 0x1_0000_0000,
    ensures
        mul_in_range(x * ONE_BITS, k as int),
{
    let xi = x as int;
    let ki = k as int;
    assert(-0x8000_0000_0000_0000_0000_0000 <= (xi * 4294967296) * ki < 0x8000_0000_0000_0000_0000_0000)
        by (nonlinear_arith)
        requires
            -0x8000_0000 <= xi < 0x8000_0000,
            0 <= ki < 0x1_0000_0000,
    ;
}

/// Inverse Clarke transformation: from α/β to the three phase values
/// `a = α`, `b = -α/2 + β·√3/2`, `c = -α/2 - β·√3/2`, computed in `I32F32`
/// and truncated to integers (rounding toward negative infinity).
pub fn inverse(alpha: i32, beta: i32) -> (r: (i32, i32, i32))
    requires
        inverse_in_range(alpha, beta),
    ensures
        r.0 == alpha,
        r.1 == fx_floor(inverse_b_bits(alpha, beta)),
        r.2 == fx_floor(inverse_c_bits(alpha, beta)),
{
    let alpha_fx = fx_from_i32(alpha);
    let beta_fx = fx_from_i32(beta);
    proof {
        lemma_mul_by_integer_bits(beta, SQRT3_OVER_2);
        lemma_small_constant_in_range(beta, SQRT3_OVER_2);
    }
    let neg = fx_saturating_neg(alpha_fx);
    let half = fx_div_int(neg, 2);
    let term = fx_mul_bits(beta_fx, SQRT3_OVER_2);
    let b = fx_add(half, term);
    let c = fx_sub(half, term);
    (fx_to_i32(alpha_fx), fx_to_i32(b), fx_to_i32(c))
}


/// Bits of α in `full`: `2/3·a - 1/3·b - 1/3·c`.
pub open spec fn full_alpha_bits(a: i32, b: i32, c: i32) -> int {
    TWO_OVER_3 * a - ONE_OVER_3 * b - ONE_OVER_3 * c
}

/// Bits of β in `full`: `b/√3 - c/√3`.
pub open spec fn full_beta_bits(b: i32, c: i32) -> int {
    ONE_OVER_SQRT3 * b - ONE_OVER_SQRT3 * c
}

/// The inputs of `full` whose intermediate and final values can be represented.
pub open spec fn full_in_range(a: i32, b: i32, c: i32) -> bool {
    &&& fits_i64(TWO_OVER_3 * a - ONE_OVER_3 * b)
    &&& fits_i64(full_alpha_bits(a, b, c))
    &&& fits_i32(fx_floor(full_alpha_bits(a, b, c)))
    &&& fits_i64(full_beta_bits(b, c))
    &&& fits_i32(fx_floor(full_beta_bits(b, c)))
}

/// Forward Clarke transformation from three measured phase values:
/// `α = 2/3·a - 1/3·b - 1/3·c` and `β = (b - c)/√3`, in `I32F32` and truncated
/// to integers (rounding toward negative infinity).
pub fn full(a: i32, b: i32, c: i32) -> (r: (i32, i32))
    requires
        full_in_range(a, b, c),
    ensures
        r.0 == fx_floor(full_alpha_bits(a, b, c)),
        r.1 == fx_floor(full_beta_bits(b, c)),
{
    let a_fx = fx_from_i32(a);
    let b_fx = fx_from_i32(b);
    let c_fx = fx_from_i32(c);
    proof {
        lemma_mul_by_integer_bits(a, TWO_OVER_3);
        lemma_small_constant_in_range(a, TWO_OVER_3);
        lemma_mul_by_integer_bits(b, ONE_OVER_3);
        lemma_small_constant_in_range(b, ONE_OVER_3);
        lemma_mul_by_integer_bits(c, ONE_OVER_3);
        lemma_small_constant_in_range(c, ONE_OVER_3);
        lemma_mul_by_integer_bits(b, ONE_OVER_SQRT3);
        lemma_small_constant_in_range(b, ONE_OVER_SQRT3);
        lemma_mul_by_integer_bits(c, ONE_OVER_SQRT3);
        lemma_small_constant_in_range(c, ONE_OVER_SQRT3);
    }
    let ta = fx_mul_bits(a_fx, TWO_OVER_3);
    let tb = fx_mul_bits(b_fx, ONE_OVER_3);
    let tc = fx_mul_bits(c_fx, ONE_OVER_3);
    let alpha = fx_sub(fx_sub(ta, tb), tc);
    let sb = fx_mul_bits(b_fx, ONE_OVER_SQRT3);
    let sc = fx_mul_bits(c_fx, ONE_OVER_SQRT3);
    let beta = fx_sub(sb, sc);
    (fx_to_i32(alpha), fx_to_i32(beta))
}

/// Bits of β in `assume_balanced`: `a/√3 + 2b/√3`.
pub open spec fn balanced_beta_bits(a: i32, b: i32) -> int {
    ONE_OVER_SQRT3 * a + TWO_OVER_SQRT3 * b
}

/// The inputs of `assume_balanced` whose intermediate and final values can be
/// represented.
pub open spec fn balanced_in_range(a: i32, b: i32) -> bool {
    &&& mul_in_range(b * ONE_BITS, TWO_OVER_SQRT3 as int)
    &&& fits_i64(balanced_beta_bits(a, b))
    &&& fits_i32(fx_floor(balanced_beta_bits(a, b)))
}

/// Forward Clarke transformation from two measured phases of a balanced motor
/// (`c = -a - b`): `α = a` and `β = a/√3 + 2b/√3`, in `I32F32` and truncated to
/// integers (rounding toward negative infinity).
pub fn assume_balanced(a: i32, b: i32) -> (r: (i32, i32))
    requires
        balanced_in_range(a, b),
    ensures
        r.0 == a,
        r.1 == fx_floor(balanced_beta_bits(a, b)),
{
    let a_fx = fx_from_i32(a);
    let b_fx = fx_from_i32(b);
    proof {
        lemma_mul_by_integer_bits(a, ONE_OVER_SQRT3);
        lemma_small_constant_in_range(a, ONE_OVER_SQRT3);
        lemma_mul_by_integer_bits(b, TWO_OVER_SQRT3);
    }
    let sa = fx_mul_bits(a_fx, ONE_OVER_SQRT3);
    let sb = fx_mul_bits(b_fx, TWO_OVER_SQRT3);
    let beta = fx_add(sa, sb);
    (fx_to_i32(a_fx), fx_to_i32(beta))
}

/// The three phase values of `inverse` sum to zero up to rounding: the sum is
/// between -2 and 0 for every input it accepts.
pub proof fn lemma_inverse_sums_to_zero(alpha: i32, beta: i32)
    requires
        inverse_in_range(alpha, beta),
    ensures
        -2 <= alpha + fx_floor(inverse_b_bits(alpha, beta)) + fx_floor(inverse_c_bits(alpha, beta))
            <= 0,
{
    let k: int = ONE_BITS as int;
    let h = half_neg_alpha(alpha);
    let m = beta_term(beta);
    let x = h + m;
    let y = h - m;
    assert(x == k * (x / k) + x % k && 0 <= x % k < k) by (nonlinear_arith)
        requires k == 4294967296;
    assert(y == k * (y / k) + y % k && 0 <= y % k < k) by (nonlinear_arith)
        requires k == 4294967296;
    let ai = alpha as int;
    let bits = ai * k;
    if alpha == i32::MIN {
        assert(bits == i64::MIN);
        assert(9223372036854775807int / 2 == 0x3fff_ffff_ffff_ffffint) by (nonlinear_arith);
        assert(trunc_div(i64::MAX as int, 2) == 0x3fff_ffff_ffff_ffff);
        assert(h == 0x3fff_ffff_ffff_ffff);
    } else {
        assert(bits > i64::MIN && -bits == (-ai) * 2147483648 * 2) by (nonlinear_arith)
            requires
                bits == ai * k,
                k == 4294967296,
                -2147483648 < ai <= 2147483647,
        ;
        assert(((-ai) * 2147483648 * 2) / 2 == (-ai) * 2147483648) by (nonlinear_arith);
        assert((ai * 2147483648 * 2) / 2 == ai * 2147483648) by (nonlinear_arith);
        assert(trunc_div(-bits, 2) == -ai * 2147483648);
        assert(h == -(alpha as int) * 2147483648);
    }
    let q = x / k + y / k;
    assert(-2 <= alpha + q <= 0) by (nonlinear_arith)
        requires
            x == k * (x / k) + x % k,
            y == k * (y / k) + y % k,
            0 <= x % k < k,
            0 <= y % k < k,
            x + y == 2 * h,
            q == x / k + y / k,
            k == 4294967296,
            alpha == i32::MIN ==> h == 0x3fff_ffff_ffff_ffff,
            alpha != i32::MIN ==> h == -(alpha as int) * 2147483648,
            alpha == i32::MIN ==> alpha == -2147483648,
    ;
}

/// For a balanced set of currents (`c = -a - b`), the two forward transforms
/// agree: the same α, and β values at most one apart.
pub proof fn lemma_balanced_matches_full(a: i32, b: i32, c: i32)
    requires
        c == -a - b,
        full_in_range(a, b, c),
        balanced_in_range(a, b),
    ensures
        fx_floor(full_alpha_bits(a, b, c)) == a,
        -1 <= fx_floor(full_beta_bits(b, c)) - fx_floor(balanced_beta_bits(a, b)) <= 1,
{
    let k: int = ONE_BITS as int;
    assert(full_alpha_bits(a, b, c) == a * k);
    assert((a * k) / k == a) by (nonlinear_arith) requires k == 4294967296;
    let f = full_beta_bits(b, c);
    let g = balanced_beta_bits(a, b);
    assert(f - g == b as int);
    assert(-1 <= f / k - g / k <= 1) by (nonlinear_arith)
        requires
            f - g == b as int,
            -2147483648 <= b <= 2147483647,
            k == 4294967296,
    ;
}

} // verus!
