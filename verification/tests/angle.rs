use pyrion::angle::{Angle, Direction};
use pyrion::angle::Direction::{Clockwise, CounterClockwise};

const TOLERANCE: u16 = 1;

fn assert_close(expected: u16, actual: u16) {
    let diff = (expected as i32 - actual as i32).abs();
    assert!(
        diff <= TOLERANCE as i32,
        "expected {}, got {}, diff {} > tolerance {}",
        expected,
        actual,
        diff,
        TOLERANCE
    );
}

#[test]
fn test_get_difference() {
    let cases = vec![(0, 20, 20), (20, 10, 10), (340, 20, 40), (20, 345, 35), (359, 359, 0)];

    for (from, to, expected) in cases {
        let a1 = Angle::from_degrees(from);
        let a2 = Angle::from_degrees(to);
        let actual1 = a1.get_abs(&a2).to_degrees();
        let actual2 = a2.get_abs(&a1).to_degrees();
        assert_close(expected, actual1);
        assert_close(expected, actual2);
    }
}

#[test]
fn test_get_direction() {
    let cases = vec![
        (0, 0, None),
        (0, 1, Some(CounterClockwise)),
        (0, 179, Some(CounterClockwise)),
        (0, 180, Some(Clockwise)),
        (0, 181, Some(Clockwise)),
        (359, 0, Some(CounterClockwise)),
        (0, 359, Some(Clockwise)),
        (90, 270, Some(Clockwise)),
        (270, 90, Some(Clockwise)),
    ];

    for (from_deg, to_deg, expected) in cases {
        let from = Angle::from_degrees(from_deg);
        let to = Angle::from_degrees(to_deg);
        let result = from.get_direction(&to);
        assert_eq!(
            result, expected,
            "Angle::get_direction({from_deg}, {to_deg}) = {:?}, expected {:?}",
            result, expected
        );
    }
}

#[test]
fn angle_raw_round_trip_and_degrees() {
    assert_eq!(Angle::from_raw(1234).get_raw(), 1234);
    assert_eq!(Angle::from_degrees(90).get_raw(), 16383);
    assert_eq!(Angle::from_degrees(359).get_raw(), 65352);
    assert_eq!(Angle::from_raw(65535).to_degrees(), 360);
    assert_eq!(Angle::from_raw(100).get_abs(&Angle::from_raw(65500)).get_raw(), 136);
}

#[test]
fn angle_direction_reverses_except_near_half_turn() {
    let a = Angle::from_raw(1000);
    let b = Angle::from_raw(5000);
    assert_eq!(a.get_direction(&b), Some(Direction::CounterClockwise));
    assert_eq!(b.get_direction(&a), Some(Direction::Clockwise));
    // a step of exactly half a turn counts as clockwise both ways
    let c = Angle::from_raw(1000 + 32768);
    assert_eq!(a.get_direction(&c), Some(Direction::Clockwise));
    assert_eq!(c.get_direction(&a), Some(Direction::Clockwise));
}

#[test]
fn as5600_readings_scale_to_a_full_turn() {
    use_reading(0, 0);
    use_reading(1, 16);
    use_reading(2048, 32768);
    use_reading(4095, 65520);
    // bits beyond the sensor's twelve are shifted out
    use_reading(0x1001, 16);
}

fn use_reading(reading: u16, raw: u16) {
    assert_eq!(pyrion::as5600::raw_angle_from_reading(reading), raw);
}
