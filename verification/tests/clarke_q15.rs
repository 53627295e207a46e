use pyrion::clarke::{inverse, FRAC_SQRT_3_2_Q15};

const TOLERANCE: i16 = 3;

#[test]
fn clarke_transformation_test_inverse_clarke_cardinals() {
    let cases: &[(i16, i16, i16, i16, i16)] = &[
        (i16::MAX, 0, i16::MAX, -i16::MAX / 2, -i16::MAX / 2),
        (i16::MIN, 0, i16::MIN, i16::MAX / 2, i16::MAX / 2),
        (0, i16::MAX, 0, FRAC_SQRT_3_2_Q15 as i16, -FRAC_SQRT_3_2_Q15 as i16),
        (0, i16::MIN, 0, -FRAC_SQRT_3_2_Q15 as i16, FRAC_SQRT_3_2_Q15 as i16),
        (
            i16::MAX / 2,
            i16::MAX / 2,
            i16::MAX / 2,
            -i16::MAX / 4 + (FRAC_SQRT_3_2_Q15 as i16 / 2),
            -i16::MAX / 4 - (FRAC_SQRT_3_2_Q15 as i16 / 2),
        ),
        (
            -i16::MAX / 2,
            -i16::MAX / 2,
            -i16::MAX / 2,
            i16::MAX / 4 - (FRAC_SQRT_3_2_Q15 as i16 / 2),
            i16::MAX / 4 + (FRAC_SQRT_3_2_Q15 as i16 / 2),
        ),
    ];

    for &(alpha, beta, expected_a, expected_b, expected_c) in cases {
        let (a, b, c) = inverse(alpha, beta);
        assert!(
            (a - expected_a).abs() < TOLERANCE,
            "alpha={} beta={} => a={}, expected {} +- {}",
            alpha,
            beta,
            a,
            expected_a,
            TOLERANCE,
        );
        assert!(
            (b - expected_b).abs() < TOLERANCE,
            "alpha={} beta={} => b={}, expected {} +- {}",
            alpha,
            beta,
            b,
            expected_b,
            TOLERANCE,
        );
        assert!(
            (c - expected_c).abs() < TOLERANCE,
            "alpha={} beta={} => c={}, expected {} +- {}",
            alpha,
            beta,
            c,
            expected_c,
            TOLERANCE,
        );
    }
}

#[test]
fn clarke_transformation_test_sum_of_currents_should_equal_zero() {
    let cases: &[(i16, i16)] = &[
        (i16::MAX / 2, i16::MAX / 2),
        (1212, 1111),
        (0, i16::MAX),
        (i16::MIN / 2, i16::MAX / 2),
    ];
    for &(alpha, beta) in cases {
        let (a, b, c) = inverse(alpha, beta);
        let sum = a as i32 + b as i32 + c as i32;
        assert!(
            sum.abs() <= TOLERANCE as i32,
            "alpha = {}, beta = {}, a={} b={} c={}, sum={}, expected 0 +- {}",
            alpha,
            beta,
            a,
            b,
            c,
            sum,
            TOLERANCE,
        );
    }
}

#[test]
fn clarke_q15_exact_values() {
    // a = alpha; b = floor(-alpha/2) + floor(beta * 28377 / 32768); c = -a - b.
    assert_eq!(inverse(1000, 0), (1000, -500, -500));
    assert_eq!(inverse(1001, 0), (1001, -501, -500));
    assert_eq!(inverse(0, 1000), (0, 865, -865));
    // odd alpha: the three values still sum to zero
    let (a, b, c) = inverse(1001, 77);
    assert_eq!(a as i32 + b as i32 + c as i32, 0);
    let (a, b, c) = inverse(1, 0);
    assert_eq!((a, b, c), (1, -1, 0));
}
