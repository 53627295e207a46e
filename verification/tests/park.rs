use pyrion::drive::{clamp_to_i16, currents_to_dq, dq_to_phase_voltages};
use pyrion::park;
use pyrion::park_transformation::{forward, inverse};
use pyrion::state::PhaseCurrent;

const TOLERANCE: i32 = 201;
const ONE: i64 = 1 << 32;

fn sin_cos_bits(deg: f64) -> (i64, i64) {
    let rad = deg.to_radians();
    ((rad.sin() * ONE as f64).round() as i64, (rad.cos() * ONE as f64).round() as i64)
}

fn sin_cos_bits_i16f16(deg: f64) -> (i32, i32) {
    let rad = deg.to_radians();
    ((rad.sin() * 65536.0).round() as i32, (rad.cos() * 65536.0).round() as i32)
}

fn assert_close(expected: i32, actual: i32) {
    assert!(
        (expected - actual).abs() <= TOLERANCE,
        "expected {}, got {}, diff {} > tolerance {}",
        expected,
        actual,
        (expected - actual).abs(),
        TOLERANCE
    );
}

const FRAC_1_SQRT_2_Q15: i16 = (i16::MAX as f32 * core::f32::consts::FRAC_1_SQRT_2) as i16;
const CARDINALS: [(i32, i16, i16); 8] = [
    (0, i16::MAX, 0),
    (45, FRAC_1_SQRT_2_Q15, FRAC_1_SQRT_2_Q15),
    (90, 0, i16::MAX),
    (135, -FRAC_1_SQRT_2_Q15, FRAC_1_SQRT_2_Q15),
    (180, i16::MIN, 0),
    (225, -FRAC_1_SQRT_2_Q15, -FRAC_1_SQRT_2_Q15),
    (270, 0, i16::MIN),
    (315, FRAC_1_SQRT_2_Q15, -FRAC_1_SQRT_2_Q15),
];

#[test]
fn test_inverse_park_cardinals() {
    for (deg, expected_alpha, expected_beta) in CARDINALS {
        let (sin, cos) = sin_cos_bits_i16f16(deg as f64);
        let (i_alpha, i_beta) = park::inverse(i16::MAX, 0, sin, cos);
        assert_close(expected_alpha as i32, i_alpha as i32);
        assert_close(expected_beta as i32, i_beta as i32);
    }
}

#[test]
fn test_zero_input() {
    let (sin, cos) = sin_cos_bits_i16f16(123.0);
    let (alpha, beta) = park::inverse(0, 0, sin, cos);
    assert_eq!(alpha, 0);
    assert_eq!(beta, 0);
}

#[test]
fn park_q15_exact_values() {
    assert_eq!(park::inverse(1000, -250, 0, 65536), (1000, -250));
    assert_eq!(park::inverse(1000, -250, 65536, 0), (250, 1000));
    // half of one: 3 * 0.5 floors to 1, -3 * 0.5 to -2
    assert_eq!(park::inverse(3, 0, 0, 32768), (1, 0));
    assert_eq!(park::inverse(-3, 0, 0, 32768), (-2, 0));
    // out of range: saturates instead of overflowing
    assert_eq!(park::inverse(i16::MAX, i16::MAX, 46341, 46341), (0, i16::MAX));
    assert_eq!(park::inverse(i16::MIN, 0, 0, -65536), (i16::MAX, 0));
    assert_eq!(park::inverse(i16::MIN, i16::MIN, 65536, 65536), (0, i16::MIN));
}

#[test]
fn i32f32_inverse_park_cardinals() {
    const FRAC_1_SQRT_2_Q15: i16 = (i16::MAX as f32 * core::f32::consts::FRAC_1_SQRT_2) as i16;
    let cases = [
        (0, i16::MAX, 0),
        (45, FRAC_1_SQRT_2_Q15, FRAC_1_SQRT_2_Q15),
        (90, 0, i16::MAX),
        (135, -FRAC_1_SQRT_2_Q15, FRAC_1_SQRT_2_Q15),
        (180, i16::MIN, 0),
        (225, -FRAC_1_SQRT_2_Q15, -FRAC_1_SQRT_2_Q15),
        (270, 0, i16::MIN),
        (315, FRAC_1_SQRT_2_Q15, -FRAC_1_SQRT_2_Q15),
    ];

    for (deg, expected_alpha, expected_beta) in cases {
        let (sin, cos) = sin_cos_bits(deg as f64);
        let (i_alpha, i_beta) = inverse(i16::MAX as i32, 0, sin, cos);
        assert_close(expected_alpha as i32, i_alpha);
        assert_close(expected_beta as i32, i_beta);
    }
}

#[test]
fn i32f32_zero_input() {
    let (sin, cos) = sin_cos_bits(123.0);
    let (alpha, beta) = inverse(0, 0, sin, cos);
    assert_eq!(alpha, 0);
    assert_eq!(beta, 0);
}

#[test]
fn park_exact_values() {
    assert_eq!(forward(1000, -250, 0, ONE), (1000, -250));
    assert_eq!(inverse(1000, -250, 0, ONE), (1000, -250));
    assert_eq!(inverse(1000, -250, ONE, 0), (250, 1000));
    assert_eq!(forward(1000, -250, ONE, 0), (-250, -1000));
    // half of one: 1000 * 0.5 = 500 exactly, 3 * 0.5 floors to 1
    assert_eq!(forward(3, 0, 0, ONE / 2), (1, 0));
    assert_eq!(forward(-3, 0, 0, ONE / 2), (-2, 0));
}

#[test]
fn drive_path() {
    let pc = PhaseCurrent { a: 300, b: -150, c: -150 };
    assert_eq!(currents_to_dq(pc, 0, ONE), (300, 0));
    let (a, b, c) = dq_to_phase_voltages(1000, 0, 0, ONE);
    assert_eq!((a, b, c), (1000, -500, -500));
    assert_eq!(clamp_to_i16(40000), i16::MAX);
    assert_eq!(clamp_to_i16(-40000), i16::MIN);
    assert_eq!(clamp_to_i16(-5), -5);
    let (a, _, _) = dq_to_phase_voltages(100_000, 0, 0, ONE);
    assert_eq!(a, i16::MAX);
}

#[test]
fn open_loop_drive_voltages() {
    use_open_loop(0, 65536, (8191, -4096, -4095));
    use_open_loop(65536, 0, (0, 7093, -7093));
    use_open_loop(0, -65536, (-8191, 4095, 4096));
}

fn use_open_loop(sin: i32, cos: i32, expected: (i16, i16, i16)) {
    assert_eq!(pyrion::controller::open_loop_phase_voltages(sin, cos), expected);
}
