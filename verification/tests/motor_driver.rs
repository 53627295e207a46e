use pyrion::motor_driver::{default_config, disabled_config, single_phase_config, PwmConfig};
use pyrion::electrical_angle::ElectricalAngle;
use pyrion::angle::Angle;
use pyrion::motor_driver::{duty_cycle_levels, pwm_slice_interrupt_mask, voltage_to_duty_cycle};

#[test]
fn voltage_maps_to_duty_cycle() {
    assert_eq!(voltage_to_duty_cycle(i16::MIN), 0);
    assert_eq!(voltage_to_duty_cycle(-32767), 0);
    assert_eq!(voltage_to_duty_cycle(0), 16383);
    assert_eq!(voltage_to_duty_cycle(i16::MAX), 32767);
}

#[test]
fn duty_cycle_levels_keep_dead_time() {
    assert_eq!(duty_cycle_levels(0), (0, 31));
    assert_eq!(duty_cycle_levels(u16::MAX), (3094, 3125));
    // 32767 scales to 1562
    assert_eq!(duty_cycle_levels(32767), (1531, 1593));
    for d in [0u16, 10, 1000, 20000, 40000, 65535] {
        let (high, low) = duty_cycle_levels(d);
        assert!(high <= low && low - high <= 62 && low <= 3125);
    }
}

#[test]
fn pwm_interrupt_masks() {
    assert_eq!(pwm_slice_interrupt_mask(0), 1);
    assert_eq!(pwm_slice_interrupt_mask(7), 128);
}

#[test]
fn electrical_angle_from_mechanical() {
    let e = ElectricalAngle::from_angle(&Angle::from_raw(1000), 200, 7);
    assert_eq!(e.0, 5600);
    // wraps below the offset, then reduces modulo u16::MAX
    let e = ElectricalAngle::from_angle(&Angle::from_raw(100), 200, 2);
    assert_eq!(e.0, ((65436u32 * 2) % 65535) as u16);
}

#[test]
fn pwm_configurations() {
    let d = default_config();
    assert_eq!(
        d,
        PwmConfig {
            invert_a: false,
            invert_b: true,
            phase_correct: true,
            enable: false,
            compare_a: 0,
            compare_b: 0,
            top: 3125,
        }
    );
    assert_eq!(single_phase_config(), PwmConfig { enable: true, ..d });
    assert_eq!(disabled_config(), PwmConfig { invert_b: false, ..d });
}
