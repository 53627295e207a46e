use vstd::prelude::*;

verus! {

/// √3 / 2 in Q15 format.
pub const FRAC_SQRT_3_2_Q15: i32 = 28377;

/// The B-phase value before it is narrowed to `i16`:
/// `⌊-α/2⌋ + ⌊β·√3/2⌋` in Q15 arithmetic.
pub open spec fn q15_b_wide(alpha: i16, beta: i16) -> int {
    (-alpha) / 2 + (beta * FRAC_SQRT_3_2_Q15) / 32768
}

/// The C-phase value before it is narrowed to `i16`: whatever keeps the
/// three phases balanced, `-α - b`.
pub open spec fn q15_c_wide(alpha: i16, beta: i16) -> int {
    -alpha - q15_b_wide(alpha, beta)
}

proof fn lemma_shr_is_floor_div(x: i32, k: u32)
    requires
        k == 1 || k == 15,
    ensures
        k == 1 ==> (x >> k) as int == (x as int) / 2,
        k == 15 ==> (x >> k) as int == (x as int) / 32768,
{
    if k == 1 {
        assert((x >> 1u32) as int == (x as int) / 2) by (bit_vector);
    } else {
        assert((x >> 15u32) as int == (x as int) / 32768) by (bit_vector);
    }
}

/// Performs the inverse Clarke transformation on Q15 values.
///
/// Converts α/β (stationary two-phase) components back into three-phase
/// (A, B, C) values: `a = α`, `b = -α/2 + β·√3/2` (each division rounding
/// down) and `c = -a - b`, so that the three phases sum to zero. The B and C
/// values are narrowed to `i16` with wrapping; they fit whenever `α + β` and
/// `α - β` are in the `i16` range.
pub fn inverse(alpha: i16, beta: i16) -> (r: (i16, i16, i16))
    ensures
        r.0 == alpha,
        r.1 == q15_b_wide(alpha, beta) as i16,
        r.2 == q15_c_wide(alpha, beta) as i16,
{
    let negated: i32 = -(alpha as i32);
    let product: i32 = beta as i32 * FRAC_SQRT_3_2_Q15;
    let half: i32 = negated >> 1u32;
    let scaled: i32 = product >> 15u32;
    proof {
        lemma_shr_is_floor_div(negated, 1);
        lemma_shr_is_floor_div(product, 15);
    }
    let b_wide: i32 = half + scaled;
    let b = b_wide as i16;
    let c = (negated - b_wide) as i16;
    (alpha, b, c)
}

/// The phase values of `inverse` always sum to zero (a balanced three-phase
/// system) whenever the B and C values fit in `i16`, in particular on the
/// whole documented input range.
pub proof fn lemma_inverse_sums_to_zero(alpha: i16, beta: i16)
    requires
        i16::MIN <= q15_b_wide(alpha, beta) <= i16::MAX,
        i16::MIN <= q15_c_wide(alpha, beta) <= i16::MAX,
    ensures
        alpha + (q15_b_wide(alpha, beta) as i16) + (q15_c_wide(alpha, beta) as i16) == 0,
{
}

/// The B phase is `-α/2 + β·√3/2` up to the two roundings down, and C is
/// what balances the three: `2b + α` and the difference `b - c` both lie
/// within three below `β·√3` (in Q15, with `√3/2` as `28377/32768`), and for `β = 0` the B and C phases share `-α` as evenly as
/// integers allow.
pub proof fn lemma_inverse_splits_alpha_and_beta(alpha: i16, beta: i16)
    ensures
        -3 * 32768 < 32768 * (2 * q15_b_wide(alpha, beta) + alpha) - 2 * beta * FRAC_SQRT_3_2_Q15
            <= 0,
        -3 * 32768 < 32768 * (q15_b_wide(alpha, beta) - q15_c_wide(alpha, beta)) - 2 * beta
            * FRAC_SQRT_3_2_Q15 <= 0,
        beta == 0 ==> q15_c_wide(alpha, beta) - q15_b_wide(alpha, beta) == alpha % 2,
{
}

/// Under the documented input range (`α + β` and `α - β` within `i16`), the B
/// and C values of `inverse` fit in `i16`, so nothing wraps.
pub proof fn lemma_inverse_documented_range_fits(alpha: i16, beta: i16)
    requires
        i16::MIN <= alpha + beta <= i16::MAX,
        i16::MIN <= alpha - beta <= i16::MAX,
    ensures
        i16::MIN <= q15_b_wide(alpha, beta) <= i16::MAX,
        i16::MIN <= q15_c_wide(alpha, beta) <= i16::MAX,
{
}

} // verus!
