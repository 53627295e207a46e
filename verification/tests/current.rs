use pyrion::current_task::{CurrentTask, CurrentTaskAction};
use pyrion::current::{
    calibrating_phase, CalibrationAccumulator, ChannelAccumulator, Output, RawOutput,
};
use pyrion::state::{
    CalibratingCurrentSensorState, InitializationState, MotorState, PhaseCurrent,
};

#[test]
fn channel_average_rounds_down_and_defaults_to_mid_scale() {
    let mut ch = ChannelAccumulator::new();
    assert_eq!(ch.average(), 32767);
    ch.add(10);
    ch.add(11);
    assert_eq!(ch.average(), 10);
    ch.add(u16::MAX);
    assert_eq!(ch.average(), ((10u32 + 11 + 65535) / 3) as u16);
}

#[test]
fn calibration_accumulates_the_powered_phase() {
    let mut acc = CalibrationAccumulator::new();
    acc.update(CalibratingCurrentSensorState::PhaseAPowered, RawOutput::ThreePhases(100, 7, 7));
    acc.update(CalibratingCurrentSensorState::PhaseAPowered, RawOutput::TwoPhases(200, 7));
    acc.update(CalibratingCurrentSensorState::PhaseBPowered, RawOutput::TwoPhases(7, 300));
    acc.update(CalibratingCurrentSensorState::PhaseCPowered, RawOutput::TwoPhases(7, 7));
    acc.update(CalibratingCurrentSensorState::PhaseCPowered, RawOutput::ThreePhases(7, 7, 1000));
    assert_eq!(acc.finalize(), (150, 300, 500));
}

#[test]
fn calibration_without_samples_reports_mid_scale() {
    let acc = CalibrationAccumulator::new();
    assert_eq!(acc.finalize(), (32767, 32767, 32767));
}

#[test]
fn phase_current_from_two_phases_balances() {
    let pc = PhaseCurrent::from_output(Output::TwoPhases(100, -30));
    assert_eq!(pc, PhaseCurrent { a: 100, b: -30, c: -70 });
    let pc = PhaseCurrent::from_output(Output::ThreePhases(1, 2, 3));
    assert_eq!(pc, PhaseCurrent { a: 1, b: 2, c: 3 });
}

#[test]
fn calibrating_phase_of_state() {
    let s = MotorState::Initializing(InitializationState::CalibratingCurrentSensor(
        CalibratingCurrentSensorState::PhaseCPowered,
    ));
    assert_eq!(calibrating_phase(s), Some(CalibratingCurrentSensorState::PhaseCPowered));
    assert_eq!(calibrating_phase(MotorState::Idle), None);
}

#[test]
fn current_task_hands_over_zero_levels_once() {
    let calibrating = |p| MotorState::Initializing(InitializationState::CalibratingCurrentSensor(p));
    let mut task = CurrentTask::new();
    assert_eq!(task.step(MotorState::Uninitialized), CurrentTaskAction::ReadConverted);
    let a = calibrating(CalibratingCurrentSensorState::PhaseAPowered);
    assert_eq!(task.step(a), CurrentTaskAction::StartCollecting);
    assert_eq!(task.step(a), CurrentTaskAction::ReadRaw(CalibratingCurrentSensorState::PhaseAPowered));
    task.record_raw(CalibratingCurrentSensorState::PhaseAPowered, RawOutput::TwoPhases(100, 5));
    assert_eq!(task.step(a), CurrentTaskAction::ReadRaw(CalibratingCurrentSensorState::PhaseAPowered));
    task.record_raw(CalibratingCurrentSensorState::PhaseAPowered, RawOutput::TwoPhases(200, 5));
    let b = calibrating(CalibratingCurrentSensorState::PhaseBPowered);
    assert_eq!(task.step(b), CurrentTaskAction::ReadRaw(CalibratingCurrentSensorState::PhaseBPowered));
    task.record_raw(CalibratingCurrentSensorState::PhaseBPowered, RawOutput::ThreePhases(7, 300, 9));
    // the calibration is over: the zero levels are handed over, phase C had no sample
    assert_eq!(task.step(MotorState::Idle), CurrentTaskAction::Calibrate(150, 300, 32767));
    assert_eq!(task.step(MotorState::Idle), CurrentTaskAction::ReadConverted);
    assert_eq!(task.step(MotorState::Idle), CurrentTaskAction::ReadConverted);
    // a new run starts without the old samples
    assert_eq!(task.step(a), CurrentTaskAction::StartCollecting);
    assert_eq!(task.step(MotorState::Idle), CurrentTaskAction::Calibrate(32767, 32767, 32767));
}
