use vstd::prelude::*;

verus! {

/// PWM clock of the driver (Hz).
pub const CLOCK_FREQUENCY: u32 = 125_000_000;
/// Switching frequency of the PWM (Hz).
pub const DESIRED_FREQ: u32 = 20_000;
/// Counter top of the phase-correct PWM: `CLOCK_FREQUENCY / DESIRED_FREQ / 2`.
pub const PWM_PERIOD: i32 = 3125;
/// Half of the dead time between the high and the low switch, in PWM counts.
pub const HALF_DEAD_TIME: i32 = 31;

/// `x * out_max / in_max` over the integers, rounding down.
pub open spec fn spec_map(x: u16, in_max: u16, out_max: u16) -> int {
    (x as int * out_max as int) / (in_max as int)
}

/// The high-side and low-side compare values for a duty cycle.
pub open spec fn spec_duty_levels(duty_cycle: u16) -> (int, int) {
    let scaled = spec_map(duty_cycle, 65535, PWM_PERIOD as u16);
    let high = if scaled - HALF_DEAD_TIME > 0 { scaled - HALF_DEAD_TIME } else { 0 };
    let low = if scaled + HALF_DEAD_TIME < PWM_PERIOD { scaled + HALF_DEAD_TIME } else { PWM_PERIOD as int };
    (high, low)
}

/// Scales `x` from the range `0..=in_max` to the range `0..=out_max`, rounding
/// down. The result is narrowed to `u16`; it fits whenever `x <= in_max`.
pub fn map(x: u16, in_max: u16, out_max: u16) -> (r: u16)
    requires
        in_max > 0,
    ensures
        r == spec_map(x, in_max, out_max) as u16,
{
    proof {
        assert(0 <= x as int * out_max as int <= 65535 * 65535) by (nonlinear_arith)
            requires
                0 <= x <= 65535,
                0 <= out_max <= 65535,
        ;
    }
    (x as u32 * out_max as u32 / in_max as u32) as u16
}

/// Scaling an input that lies in `0..=in_max` never leaves `0..=out_max`.
pub proof fn lemma_map_within_range(x: u16, in_max: u16, out_max: u16)
    requires
        in_max > 0,
        x <= in_max,
    ensures
        0 <= spec_map(x, in_max, out_max) <= out_max,
        spec_map(x, in_max, out_max) as u16 == spec_map(x, in_max, out_max),
{
    let xi = x as int;
    let ii = in_max as int;
    let oi = out_max as int;
    assert(0 <= xi * oi <= ii * oi) by (nonlinear_arith)
        requires
            0 <= xi <= ii,
            0 <= oi,
    ;
    assert(0 <= (xi * oi) / ii <= oi) by (nonlinear_arith)
        requires
            0 <= xi * oi <= ii * oi,
            ii > 0,
    ;
}

/// Scaling rounds down: `map(x)` is the largest value whose back-scaled
/// size does not exceed `x`, i.e. `map(x) · in_max <= x · out_max <
/// (map(x) + 1) · in_max`; the ends of the input range go to the ends of the
/// output range.
pub proof fn lemma_map_rounds_down(x: u16, in_max: u16, out_max: u16)
    requires
        in_max > 0,
    ensures
        spec_map(x, in_max, out_max) * in_max <= x * out_max,
        x * out_max < (spec_map(x, in_max, out_max) + 1) * in_max,
        spec_map(0, in_max, out_max) == 0,
        spec_map(in_max, in_max, out_max) == out_max,
{
    let xi = x as int;
    let ii = in_max as int;
    let oi = out_max as int;
    let q = (xi * oi) / ii;
    assert(q * ii <= xi * oi < (q + 1) * ii) by (nonlinear_arith)
        requires
            q == (xi * oi) / ii,
            ii > 0,
    ;
    assert((ii * oi) / ii == oi) by (nonlinear_arith)
        requires
            ii > 0,
    ;
}

/// A larger input never scales to a smaller output.
pub proof fn lemma_map_monotonic(x: u16, y: u16, in_max: u16, out_max: u16)
    requires
        in_max > 0,
        x <= y,
    ensures
        spec_map(x, in_max, out_max) <= spec_map(y, in_max, out_max),
{
    let xi = x as int;
    let yi = y as int;
    let ii = in_max as int;
    let oi = out_max as int;
    assert(xi * oi <= yi * oi) by (nonlinear_arith)
        requires
            xi <= yi,
            0 <= oi,
    ;
    assert((xi * oi) / ii <= (yi * oi) / ii) by (nonlinear_arith)
        requires
            xi * oi <= yi * oi,
            ii > 0,
    ;
}

/// The duty cycle (`0..=u16::MAX / 2`) that a signed phase voltage is driven
/// with: `(voltage + i16::MAX) / 2`, rounding toward zero.
pub fn voltage_to_duty_cycle(voltage: i16) -> (r: u16)
    ensures
        r == (if voltage + 32767 >= 0 { (voltage + 32767) / 2 } else { 0 }),
        r <= 32767,
{
    let shifted: i32 = voltage as i32 + 32767;
    (shifted / 2) as u16
}

/// The compare values of the high and the low switch of one phase for a duty
/// cycle on the `0..=u16::MAX` scale: the duty is scaled to the PWM period and
/// the dead time is taken off the high side and added to the low side, clamped
/// to `0..=PWM_PERIOD`.
pub fn duty_cycle_levels(duty_cycle: u16) -> (r: (u16, u16))
    ensures
        r.0 == spec_duty_levels(duty_cycle).0,
        r.1 == spec_duty_levels(duty_cycle).1,
{
    let scaled = map(duty_cycle, 65535, PWM_PERIOD as u16) as i32;
    proof {
        lemma_map_within_range(duty_cycle, 65535, PWM_PERIOD as u16);
    }
    let high = if scaled - HALF_DEAD_TIME > 0 { scaled - HALF_DEAD_TIME } else { 0 };
    let low = if scaled + HALF_DEAD_TIME < PWM_PERIOD { scaled + HALF_DEAD_TIME } else { PWM_PERIOD };
    (high as u16, low as u16)
}

/// The two switches of a phase never conduct at once: the high compare value
/// is at most the low one, they are at most two half dead times apart, and
/// neither exceeds the PWM period.
pub proof fn lemma_duty_levels_keep_dead_time(duty_cycle: u16)
    ensures
        0 <= spec_duty_levels(duty_cycle).0 <= spec_duty_levels(duty_cycle).1 <= PWM_PERIOD,
        spec_duty_levels(duty_cycle).1 - spec_duty_levels(duty_cycle).0 <= 2 * HALF_DEAD_TIME,
{
    lemma_map_within_range(duty_cycle, 65535, PWM_PERIOD as u16);
}

/// A higher phase voltage never gives a lower duty cycle.
pub proof fn lemma_voltage_to_duty_monotonic(v1: i16, v2: i16)
    requires
        v1 <= v2,
    ensures
        (if v1 + 32767 >= 0 { (v1 + 32767) / 2 } else { 0int }) <= (if v2 + 32767 >= 0 { (v2 + 32767) / 2 } else { 0int }),
{
}

/// The settings written to a PWM slice of one phase: channel A drives the
/// high switch and channel B the low one.
#[derive(Debug, Clone, Copy, PartialEq, Eq, Structural)]
pub struct PwmConfig {
    pub invert_a: bool,
    pub invert_b: bool,
    pub phase_correct: bool,
    pub enable: bool,
    pub compare_a: u16,
    pub compare_b: u16,
    pub top: u16,
}

/// The configuration every slice starts from: phase-correct counting up to
/// the PWM period, the low side inverted, both compares at zero, stopped.
pub open spec fn spec_default_config() -> PwmConfig {
    PwmConfig {
        invert_a: false,
        invert_b: true,
        phase_correct: true,
        enable: false,
        compare_a: 0,
        compare_b: 0,
        top: PWM_PERIOD as u16,
    }
}

pub fn default_config() -> (r: PwmConfig)
    ensures
        r == spec_default_config(),
{
    PwmConfig {
        invert_a: false,
        invert_b: true,
        phase_correct: true,
        enable: false,
        compare_a: 0,
        compare_b: 0,
        top: PWM_PERIOD as u16,
    }
}

/// The configuration that powers a single phase on its own (used while the
/// current sensor is calibrated): the default one, running.
pub fn single_phase_config() -> (r: PwmConfig)
    ensures
        r == (PwmConfig { enable: true, ..spec_default_config() }),
{
    let mut config = default_config();
    config.enable = true;
    config
}

/// The configuration that switches the driver off: the default one with the
/// low side no longer inverted, so that both switches stay open.
pub fn disabled_config() -> (r: PwmConfig)
    ensures
        r == (PwmConfig { invert_b: false, ..spec_default_config() }),
{
    let mut config = default_config();
    config.invert_b = false;
    config
}

/// The interrupt-enable bit of a PWM slice. There are eight slices, 0 to 7;
/// any other index stops the program and is not accepted.
pub fn pwm_slice_interrupt_mask(slice_index: usize) -> (r: u32)
    requires
        slice_index < 8,
    ensures
        r == pow2_u32(slice_index as nat),
{
    proof {
        reveal_with_fuel(pow2_u32, 8);
    }
    match slice_index {
        0 => 1,
        1 => 2,
        2 => 4,
        3 => 8,
        4 => 16,
        5 => 32,
        6 => 64,
        _ => 128,
    }
}

/// `2^n` for small `n`.
pub open spec fn pow2_u32(n: nat) -> int
    decreases n,
{
    if n == 0 { 1 } else { 2 * pow2_u32((n - 1) as nat) }
}

} // verus!
