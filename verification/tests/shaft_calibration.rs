use pyrion::angle::Direction;
use pyrion::shaft::{Config, NaturalDirection, Shaft};
use pyrion::shaft_calibration::{
    calibration_step, compute_shaft_calibration, AngleReading, CalibrationPhase, CalibrationStep,
    DirectionPhase, DirectionStep, DirectionTracker, ShaftCalibrationConstants,
};

#[test]
fn calibration_steps() {
    assert_eq!(
        calibration_step(None, AngleReading::Electrical(5), CalibrationPhase::Slow(1)),
        (None, CalibrationStep::Stop)
    );
    assert_eq!(
        calibration_step(None, AngleReading::Mechanical(5), CalibrationPhase::Slow(100)),
        (Some(100), CalibrationStep::Start)
    );
    assert_eq!(
        calibration_step(Some(100), AngleReading::Mechanical(6), CalibrationPhase::Slow(100)),
        (Some(100), CalibrationStep::Wait)
    );
    assert_eq!(
        calibration_step(Some(100), AngleReading::Mechanical(7), CalibrationPhase::Fast(356)),
        (Some(356), CalibrationStep::Record { fast: true, commanded: 100, mechanical: 7 })
    );
    assert_eq!(
        calibration_step(Some(356), AngleReading::Mechanical(8), CalibrationPhase::Done),
        (Some(356), CalibrationStep::Finish)
    );
}

#[test]
fn shaft_calibration_constants() {
    // 768 raw units of difference is one millisecond of latency, during which
    // the slow run lags 256 units
    assert_eq!(
        compute_shaft_calibration(1000, 1768, 7),
        Some(ShaftCalibrationConstants { offset: 744, pole_pairs: 7, measurement_delay_us: 1000 })
    );
    assert_eq!(
        compute_shaft_calibration(500, 500, 3),
        Some(ShaftCalibrationConstants { offset: 500, pole_pairs: 3, measurement_delay_us: 0 })
    );
    assert_eq!(compute_shaft_calibration(500, 400, 3), None);
    assert_eq!(compute_shaft_calibration(100, 1768, 3), None);
    let d = ShaftCalibrationConstants::default();
    assert_eq!((d.offset, d.pole_pairs, d.measurement_delay_us), (0, 1, 0));
}

#[test]
fn direction_measurement() {
    let mut t = DirectionTracker::new();
    assert_eq!(t.step(AngleReading::Mechanical(0), DirectionPhase::Measuring(0)), DirectionStep::Continue);
    assert_eq!(t.step(AngleReading::Mechanical(5), DirectionPhase::Measuring(0)), DirectionStep::Wait);
    assert_eq!(t.step(AngleReading::Mechanical(100), DirectionPhase::Measuring(50)), DirectionStep::Continue);
    assert_eq!(t.correlation, 1);
    assert_eq!(t.step(AngleReading::Mechanical(200), DirectionPhase::Measuring(100)), DirectionStep::Continue);
    assert_eq!(t.correlation, 2);
    assert_eq!(
        t.step(AngleReading::Mechanical(200), DirectionPhase::Done),
        DirectionStep::Finish(Direction::Clockwise)
    );
    let mut u = DirectionTracker::new();
    u.step(AngleReading::Mechanical(1000), DirectionPhase::Measuring(0));
    u.step(AngleReading::Mechanical(900), DirectionPhase::Measuring(50));
    assert_eq!(u.correlation, -1);
    assert_eq!(u.step(AngleReading::Electrical(1), DirectionPhase::Done), DirectionStep::Stop);
    assert_eq!(
        u.step(AngleReading::Mechanical(0), DirectionPhase::Done),
        DirectionStep::Finish(Direction::CounterClockwise)
    );
}

#[test]
fn shaft_config() {
    let mut shaft = Shaft::new(());
    assert_eq!(shaft.current_config(), None);
    let cfg = Config { offset: 12, pole_pairs: 7, natural_direction: NaturalDirection::Clockwise };
    shaft.init_with_config(cfg);
    assert_eq!(shaft.current_config(), Some(cfg));
}
