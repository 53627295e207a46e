use pyrion::motor_driver;

#[test]
fn test_map_basic() {
    assert_eq!(motor_driver::map(50, 100, 200), 100);
    assert_eq!(motor_driver::map(50, 200, 100), 25);
    assert_eq!(motor_driver::map(50, 200, 200), 50);
}

#[test]
fn test_map_real() {
    const PWM_PERIOD: u16 = 3125;

    assert_eq!(motor_driver::map(32767, u16::MAX, PWM_PERIOD), 1562);
    assert_eq!(motor_driver::map(16383, u16::MAX, PWM_PERIOD), 781);
}
