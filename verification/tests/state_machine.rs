use pyrion::state::{
    CalibratingCurrentSensorState, ControlCommand, InitializationState, MotorState, Powered,
    ShaftCalibrationState,
};
use pyrion::state_machine::{
    apply_state_transition, does_state_allow_command_handling, handle_command, next_motor_state,
    pid_loop_updates_velocity, state_loop_next, LoopCounters,
};
use pyrion::state_machine::TransitionAction::{
    DisableDriver, EnablePhaseB, EnableSynced, ResetVelocityPid, SetVelocityTargetRpm, SetVoltageB,
};

fn phase(p: CalibratingCurrentSensorState) -> MotorState {
    MotorState::Initializing(InitializationState::CalibratingCurrentSensor(p))
}

fn shaft(s: ShaftCalibrationState) -> MotorState {
    MotorState::Powered(Powered::ShaftCalibration(s))
}

#[test]
fn startup_sequence_reaches_idle() {
    assert_eq!(next_motor_state(MotorState::Uninitialized, 500_000), None);
    let s1 = next_motor_state(MotorState::Uninitialized, 500_001).unwrap();
    assert_eq!(s1, phase(CalibratingCurrentSensorState::PhaseAPowered));
    assert_eq!(next_motor_state(s1, 100_000), None);
    let s2 = next_motor_state(s1, 100_001).unwrap();
    assert_eq!(s2, phase(CalibratingCurrentSensorState::PhaseBPowered));
    let s3 = next_motor_state(s2, 200_000).unwrap();
    assert_eq!(s3, phase(CalibratingCurrentSensorState::PhaseCPowered));
    let s4 = next_motor_state(s3, 100_001).unwrap();
    assert_eq!(s4, MotorState::Idle);
    assert_eq!(next_motor_state(MotorState::Idle, u64::MAX), None);
}

#[test]
fn shaft_calibration_cycle_returns_to_idle() {
    assert!(does_state_allow_command_handling(MotorState::Idle));
    assert!(!does_state_allow_command_handling(MotorState::Uninitialized));
    assert!(!does_state_allow_command_handling(shaft(ShaftCalibrationState::WarmUp)));
    let start = handle_command(ControlCommand::CalibrateShaft).unwrap();
    assert_eq!(start, shaft(ShaftCalibrationState::WarmUp));
    assert_eq!(
        state_loop_next(MotorState::Idle, 0, Some(ControlCommand::CalibrateShaft)),
        Some(start)
    );
    assert_eq!(next_motor_state(start, 1_000_000), None);
    let s = next_motor_state(start, 1_000_001).unwrap();
    assert_eq!(s, shaft(ShaftCalibrationState::MeasuringSlow));
    let s = next_motor_state(s, 2_000_000).unwrap();
    assert_eq!(s, shaft(ShaftCalibrationState::ChangeSpeed));
    let s = next_motor_state(s, 2_000_000).unwrap();
    assert_eq!(s, shaft(ShaftCalibrationState::MeasuringFast));
    let s = next_motor_state(s, 2_000_000).unwrap();
    assert_eq!(s, MotorState::Idle);
    assert_eq!(state_loop_next(MotorState::Idle, 5_000_000, None), None);
}

#[test]
fn transition_actions() {
    assert_eq!(
        apply_state_transition(phase(CalibratingCurrentSensorState::PhaseBPowered), MotorState::Idle),
        vec![DisableDriver, EnablePhaseB, SetVoltageB(0)]
    );
    assert_eq!(apply_state_transition(MotorState::Idle, MotorState::Uninitialized), vec![DisableDriver]);
    assert_eq!(
        apply_state_transition(shaft(ShaftCalibrationState::WarmUp), MotorState::Idle),
        vec![EnableSynced, ResetVelocityPid, SetVelocityTargetRpm(100)]
    );
    assert_eq!(
        apply_state_transition(
            shaft(ShaftCalibrationState::ChangeSpeed),
            shaft(ShaftCalibrationState::MeasuringSlow)
        ),
        vec![ResetVelocityPid, SetVelocityTargetRpm(300)]
    );
    assert_eq!(
        apply_state_transition(
            shaft(ShaftCalibrationState::MeasuringSlow),
            shaft(ShaftCalibrationState::WarmUp)
        ),
        vec![]
    );
    assert_eq!(apply_state_transition(MotorState::Uninitialized, MotorState::Idle), vec![]);
}

#[test]
fn pid_loop_runs_only_when_powered() {
    assert!(pid_loop_updates_velocity(shaft(ShaftCalibrationState::MeasuringFast)));
    assert!(!pid_loop_updates_velocity(MotorState::Idle));
}

#[test]
fn loop_counters_divide_the_tick_rate() {
    let mut counters = LoopCounters::new();
    let mut state_runs = Vec::new();
    let mut pid_runs = Vec::new();
    for tick in 1..=80u32 {
        let outcome = counters.tick();
        if outcome.run_state_loop {
            state_runs.push(tick);
        }
        if outcome.run_pid_loop {
            pid_runs.push(tick);
        }
    }
    assert_eq!(state_runs, vec![40, 80]);
    assert_eq!(pid_runs, vec![10, 20, 30, 40, 50, 60, 70, 80]);
    assert_eq!(counters.state_counter, 0);
}
