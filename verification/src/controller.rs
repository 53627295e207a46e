//! The open-loop drive of the motor controller: on every tick the rotor angle
//! is read and a fixed d-axis voltage is applied at that angle.
use vstd::prelude::*;
use crate::clarke;
use crate::park;
use crate::park::{alpha_bits, beta_bits, inverse_in_range, spec_alpha, spec_beta};
use crate::fixed_point::ONE16_BITS;

verus! {

/// The d-axis voltage of the open-loop drive (Q15): a quarter of full scale.
pub const OPEN_LOOP_D_VOLTAGE: i16 = 8191;

/// A sine or cosine in `I16F16` bits: within `[-1, 1]`.
pub open spec fn unit_i16f16(x: i32) -> bool {
    -65536 <= x <= 65536
}

/// The α/β voltages of the open-loop drive at the angle with the given sine
/// and cosine, as the inverse Park transform gives them.
pub open spec fn open_loop_alpha_beta(sin_theta: i32, cos_theta: i32) -> (int, int) {
    (
        spec_alpha(OPEN_LOOP_D_VOLTAGE, 0, sin_theta, cos_theta),
        spec_beta(OPEN_LOOP_D_VOLTAGE, 0, sin_theta, cos_theta),
    )
}

/// The phase voltages of one tick of the open-loop drive: the d-axis voltage
/// `OPEN_LOOP_D_VOLTAGE` (and no q-axis voltage) rotated to the rotor angle
/// by the inverse Park transform, then split into three phases by the inverse
/// Clarke transform. The three phase voltages balance: their sum is zero.
pub fn open_loop_phase_voltages(sin_theta: i32, cos_theta: i32) -> (r: (i16, i16, i16))
    requires
        unit_i16f16(sin_theta),
        unit_i16f16(cos_theta),
    ensures
        r.0 == open_loop_alpha_beta(sin_theta, cos_theta).0,
        r.1 == clarke::q15_b_wide(
            open_loop_alpha_beta(sin_theta, cos_theta).0 as i16,
            open_loop_alpha_beta(sin_theta, cos_theta).1 as i16,
        ) as i16,
        r.2 == clarke::q15_c_wide(
            open_loop_alpha_beta(sin_theta, cos_theta).0 as i16,
            open_loop_alpha_beta(sin_theta, cos_theta).1 as i16,
        ) as i16,
        r.0 + r.1 + r.2 == 0,
{
    proof {
        let d = OPEN_LOOP_D_VOLTAGE as int;
        let s = sin_theta as int;
        let c = cos_theta as int;
        assert(-d * 65536 <= d * c <= d * 65536) by (nonlinear_arith)
            requires
                -65536 <= c <= 65536,
                d == 8191,
        ;
        assert(-d * 65536 <= d * s <= d * 65536) by (nonlinear_arith)
            requires
                -65536 <= s <= 65536,
                d == 8191,
        ;
        assert(-d <= (d * c) / 65536 <= d) by (nonlinear_arith)
            requires
                -d * 65536 <= d * c <= d * 65536,
                d == 8191,
        ;
        assert(-d <= (d * s) / 65536 <= d) by (nonlinear_arith)
            requires
                -d * 65536 <= d * s <= d * 65536,
                d == 8191,
        ;
        assert(inverse_in_range(OPEN_LOOP_D_VOLTAGE, 0, sin_theta, cos_theta));
        park::lemma_inverse_exact_in_range(OPEN_LOOP_D_VOLTAGE, 0, sin_theta, cos_theta);
        assert(alpha_bits(OPEN_LOOP_D_VOLTAGE, 0, sin_theta, cos_theta) == d * c - 0 * s);
        assert(beta_bits(OPEN_LOOP_D_VOLTAGE, 0, sin_theta, cos_theta) == d * s + 0 * c);
    }
    let (alpha, beta) = park::inverse(OPEN_LOOP_D_VOLTAGE, 0, sin_theta, cos_theta);
    proof {
        clarke::lemma_inverse_documented_range_fits(alpha, beta);
        clarke::lemma_inverse_sums_to_zero(alpha, beta);
    }
    clarke::inverse(alpha, beta)
}

} // verus!
