use vstd::prelude::*;

verus! {

/// Which phase is powered while the current sensor's zero levels are measured.
#[derive(Debug, Clone, Copy, PartialEq, Eq, Structural)]
pub enum CalibratingCurrentSensorState {
    PhaseAPowered,
    PhaseBPowered,
    PhaseCPowered,
}

#[derive(Debug, Clone, Copy, PartialEq, Eq, Structural)]
pub enum InitializationState {
    CalibratingCurrentSensor(CalibratingCurrentSensorState),
}

/// Steps of the shaft (encoder) calibration run.
#[derive(Debug, Clone, Copy, PartialEq, Eq, Structural)]
pub enum ShaftCalibrationState {
    WarmUp,
    MeasuringSlow,
    ChangeSpeed,
    MeasuringFast,
}

#[derive(Debug, Clone, Copy, PartialEq, Eq, Structural)]
pub enum Powered {
    ShaftCalibration(ShaftCalibrationState),
}

/// The state of the motor as driven by the state machine.
#[derive(Debug, Clone, Copy, PartialEq, Eq, Structural)]
pub enum MotorState {
    Uninitialized,
    Initializing(InitializationState),
    Idle,
    Powered(Powered),
}

/// A request to the motor. Targets are in the library's base units: millivolts
/// for voltage, milliamps for torque current, raw encoder units per millisecond
/// for velocity and raw encoder units for position.
#[derive(Debug, Clone, Copy, PartialEq, Eq, Structural)]
pub enum ControlCommand {
    CalibrateShaft,
    SetTargetZero,
    SetTargetVoltage(i32),
    SetTargetTorque(i32),
    SetTargetVelocity(i32),
    SetTargetPosition(i32),
}

/// Phase currents in milliamps.
#[derive(Debug, Clone, Copy, PartialEq, Eq, Structural)]
pub struct PhaseCurrent {
    pub a: i32,
    pub b: i32,
    pub c: i32,
}

} // verus!
