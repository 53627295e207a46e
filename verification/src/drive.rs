//! The current-to-voltage path of the control loop, around the controllers
//! that turn the d/q currents into d/q voltages.
use vstd::prelude::*;
use crate::clarke_fixed;
use crate::fixed_point::fx_floor;
use crate::park_transformation;
use crate::state::PhaseCurrent;

verus! {

/// `x` clamped to the `i16` range.
pub open spec fn spec_clamp_i16(x: int) -> i16 {
    if x < i16::MIN {
        i16::MIN
    } else if x > i16::MAX {
        i16::MAX
    } else {
        x as i16
    }
}

/// Clamps a phase voltage to the range the driver accepts.
pub fn clamp_to_i16(x: i32) -> (r: i16)
    ensures
        r == spec_clamp_i16(x as int),
{
    if x < i16::MIN as i32 {
        i16::MIN
    } else if x > i16::MAX as i32 {
        i16::MAX
    } else {
        x as i16
    }
}

/// The α/β currents of the measured phase currents.
pub open spec fn measured_alpha(c: PhaseCurrent) -> int {
    fx_floor(clarke_fixed::full_alpha_bits(c.a, c.b, c.c))
}

pub open spec fn measured_beta(c: PhaseCurrent) -> int {
    fx_floor(clarke_fixed::full_beta_bits(c.b, c.c))
}

/// The d/q currents of the measured phase currents at the rotor angle whose
/// sine and cosine (`I32F32` bits) are given: the Clarke transform of the three
/// phases followed by the Park transform.
pub fn currents_to_dq(currents: PhaseCurrent, sin_theta: i64, cos_theta: i64) -> (r: (i32, i32))
    requires
        clarke_fixed::full_in_range(currents.a, currents.b, currents.c),
        park_transformation::forward_in_range(
            measured_alpha(currents) as i32,
            measured_beta(currents) as i32,
            sin_theta,
            cos_theta,
        ),
    ensures
        r.0 == fx_floor(
            park_transformation::forward_d_bits(
                measured_alpha(currents) as i32,
                measured_beta(currents) as i32,
                sin_theta,
                cos_theta,
            ),
        ),
        r.1 == fx_floor(
            park_transformation::forward_q_bits(
                measured_alpha(currents) as i32,
                measured_beta(currents) as i32,
                sin_theta,
                cos_theta,
            ),
        ),
{
    let (i_alpha, i_beta) = clarke_fixed::full(currents.a, currents.b, currents.c);
    park_transformation::forward(i_alpha, i_beta, sin_theta, cos_theta)
}

pub open spec fn voltage_alpha(v_d: i32, v_q: i32, sin_theta: i64, cos_theta: i64) -> int {
    fx_floor(park_transformation::inverse_alpha_bits(v_d, v_q, sin_theta, cos_theta))
}

pub open spec fn voltage_beta(v_d: i32, v_q: i32, sin_theta: i64, cos_theta: i64) -> int {
    fx_floor(park_transformation::inverse_beta_bits(v_d, v_q, sin_theta, cos_theta))
}

/// The three phase voltages for the d/q voltages at the rotor angle: the
/// inverse Park transform, the inverse Clarke transform, and a clamp of each
/// phase to the `i16` range of the driver.
pub fn dq_to_phase_voltages(v_d: i32, v_q: i32, sin_theta: i64, cos_theta: i64) -> (r: (
    i16,
    i16,
    i16,
))
    requires
        park_transformation::inverse_in_range(v_d, v_q, sin_theta, cos_theta),
        clarke_fixed::inverse_in_range(
            voltage_alpha(v_d, v_q, sin_theta, cos_theta) as i32,
            voltage_beta(v_d, v_q, sin_theta, cos_theta) as i32,
        ),
    ensures
        ({
            let a = voltage_alpha(v_d, v_q, sin_theta, cos_theta) as i32;
            let b = voltage_beta(v_d, v_q, sin_theta, cos_theta) as i32;
            &&& r.0 == spec_clamp_i16(a as int)
            &&& r.1 == spec_clamp_i16(fx_floor(clarke_fixed::inverse_b_bits(a, b)))
            &&& r.2 == spec_clamp_i16(fx_floor(clarke_fixed::inverse_c_bits(a, b)))
        }),
{
    let (v_alpha, v_beta) = park_transformation::inverse(v_d, v_q, sin_theta, cos_theta);
    let (v_a, v_b, v_c) = clarke_fixed::inverse(v_alpha, v_beta);
    (clamp_to_i16(v_a), clamp_to_i16(v_b), clamp_to_i16(v_c))
}

} // verus!
