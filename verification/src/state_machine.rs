use vstd::prelude::*;
use crate::state::{
    CalibratingCurrentSensorState, ControlCommand, InitializationState, MotorState, Powered,
    ShaftCalibrationState,
};

verus! {

/// Time (µs) the motor stays uninitialized after power-up.
pub const INITIAL_DEAD_TIME_US: u64 = 500_000;
/// Time (µs) each phase is powered while the current sensor is calibrated.
pub const CURRENT_SENSOR_PHASE_CALIBRATION_TIME_US: u64 = 100_000;
/// Time (µs) each step of the shaft calibration lasts.
pub const ENCODER_CALIBRATION_STEP_TIME_US: u64 = 1_000_000;
/// Velocity target (rpm) of the slow part of the shaft calibration.
pub const ENCODER_CALIBRATION_SPEED_SLOW_RPM: i16 = 100;
/// Velocity target (rpm) of the fast part of the shaft calibration.
pub const ENCODER_CALIBRATION_SPEED_FAST_RPM: i16 = 300;
/// The state loop runs once every this many ticks of the control loop.
pub const STATE_LOOP_DIVIDER: u32 = 40;
/// The PID loop runs once every this many ticks of the control loop.
pub const PID_LOOP_DIVIDER: u32 = 10;

pub open spec fn init_phase(p: CalibratingCurrentSensorState) -> MotorState {
    MotorState::Initializing(InitializationState::CalibratingCurrentSensor(p))
}

pub open spec fn shaft_step(s: ShaftCalibrationState) -> MotorState {
    MotorState::Powered(Powered::ShaftCalibration(s))
}

/// The time-driven transition table of the motor: the state that follows
/// `current` once it has lasted `elapsed_us`, or `None` if it stays.
pub open spec fn spec_next_motor_state(current: MotorState, elapsed_us: u64) -> Option<MotorState> {
    match current {
        MotorState::Uninitialized => if elapsed_us > INITIAL_DEAD_TIME_US {
            Some(init_phase(CalibratingCurrentSensorState::PhaseAPowered))
        } else {
            None
        },
        MotorState::Initializing(InitializationState::CalibratingCurrentSensor(phase)) =>
            if elapsed_us > CURRENT_SENSOR_PHASE_CALIBRATION_TIME_US {
            match phase {
                CalibratingCurrentSensorState::PhaseAPowered => Some(
                    init_phase(CalibratingCurrentSensorState::PhaseBPowered),
                ),
                CalibratingCurrentSensorState::PhaseBPowered => Some(
                    init_phase(CalibratingCurrentSensorState::PhaseCPowered),
                ),
                CalibratingCurrentSensorState::PhaseCPowered => Some(MotorState::Idle),
            }
        } else {
            None
        },
        MotorState::Idle => None,
        MotorState::Powered(Powered::ShaftCalibration(step)) =>
            if elapsed_us > ENCODER_CALIBRATION_STEP_TIME_US {
            match step {
                ShaftCalibrationState::WarmUp => Some(shaft_step(ShaftCalibrationState::MeasuringSlow)),
                ShaftCalibrationState::MeasuringSlow => Some(shaft_step(ShaftCalibrationState::ChangeSpeed)),
                ShaftCalibrationState::ChangeSpeed => Some(shaft_step(ShaftCalibrationState::MeasuringFast)),
                ShaftCalibrationState::MeasuringFast => Some(MotorState::Idle),
            }
        } else {
            None
        },
    }
}

/// How long (µs) a state must last before it moves on by itself.
pub open spec fn dwell_time(s: MotorState) -> u64 {
    match s {
        MotorState::Uninitialized => INITIAL_DEAD_TIME_US,
        MotorState::Initializing(_) => CURRENT_SENSOR_PHASE_CALIBRATION_TIME_US,
        MotorState::Idle => 0,
        MotorState::Powered(_) => ENCODER_CALIBRATION_STEP_TIME_US,
    }
}

/// Number of time-driven transitions left before the motor is idle.
pub open spec fn steps_to_idle(s: MotorState) -> nat {
    match s {
        MotorState::Uninitialized => 4,
        MotorState::Initializing(InitializationState::CalibratingCurrentSensor(p)) => match p {
            CalibratingCurrentSensorState::PhaseAPowered => 3,
            CalibratingCurrentSensorState::PhaseBPowered => 2,
            CalibratingCurrentSensorState::PhaseCPowered => 1,
        },
        MotorState::Idle => 0,
        MotorState::Powered(Powered::ShaftCalibration(step)) => match step {
            ShaftCalibrationState::WarmUp => 4,
            ShaftCalibrationState::MeasuringSlow => 3,
            ShaftCalibrationState::ChangeSpeed => 2,
            ShaftCalibrationState::MeasuringFast => 1,
        },
    }
}

/// Commands are only taken while the motor is idle.
pub open spec fn spec_allows_command_handling(current: MotorState) -> bool {
    current == MotorState::Idle
}

/// Commands that the state machine knows how to start.
pub open spec fn is_handled_command(command: ControlCommand) -> bool {
    command == ControlCommand::CalibrateShaft
}

pub open spec fn spec_handle_command(command: ControlCommand) -> Option<MotorState> {
    match command {
        ControlCommand::CalibrateShaft => Some(shaft_step(ShaftCalibrationState::WarmUp)),
        _ => None,
    }
}

/// The state that follows one run of the state loop, given the command that was
/// taken from the command slot (only taken while commands are allowed).
pub open spec fn spec_state_loop_next(
    current: MotorState,
    elapsed_us: u64,
    taken: Option<ControlCommand>,
) -> Option<MotorState> {
    match taken {
        Some(c) => match spec_handle_command(c) {
            Some(s) => Some(s),
            None => spec_next_motor_state(current, elapsed_us),
        },
        None => spec_next_motor_state(current, elapsed_us),
    }
}

/// The time-driven transition of the motor state.
pub fn next_motor_state(current: MotorState, elapsed_us: u64) -> (r: Option<MotorState>)
    ensures
        r == spec_next_motor_state(current, elapsed_us),
{
    match current {
        MotorState::Uninitialized => {
            if elapsed_us > INITIAL_DEAD_TIME_US {
                Some(
                    MotorState::Initializing(
                        InitializationState::CalibratingCurrentSensor(
                            CalibratingCurrentSensorState::PhaseAPowered,
                        ),
                    ),
                )
            } else {
                None
            }
        },
        MotorState::Initializing(InitializationState::CalibratingCurrentSensor(phase)) => {
            if elapsed_us > CURRENT_SENSOR_PHASE_CALIBRATION_TIME_US {
                match phase {
                    CalibratingCurrentSensorState::PhaseAPowered => Some(
                        MotorState::Initializing(
                            InitializationState::CalibratingCurrentSensor(
                                CalibratingCurrentSensorState::PhaseBPowered,
                            ),
                        ),
                    ),
                    CalibratingCurrentSensorState::PhaseBPowered => Some(
                        MotorState::Initializing(
                            InitializationState::CalibratingCurrentSensor(
                                CalibratingCurrentSensorState::PhaseCPowered,
                            ),
                        ),
                    ),
                    CalibratingCurrentSensorState::PhaseCPowered => Some(MotorState::Idle),
                }
            } else {
                None
            }
        },
        MotorState::Idle => None,
        MotorState::Powered(Powered::ShaftCalibration(step)) => {
            if elapsed_us > ENCODER_CALIBRATION_STEP_TIME_US {
                let next = match step {
                    ShaftCalibrationState::WarmUp => ShaftCalibrationState::MeasuringSlow,
                    ShaftCalibrationState::MeasuringSlow => ShaftCalibrationState::ChangeSpeed,
                    ShaftCalibrationState::ChangeSpeed => ShaftCalibrationState::MeasuringFast,
                    ShaftCalibrationState::MeasuringFast => {
                        return Some(MotorState::Idle);
                    },
                };
                Some(MotorState::Powered(Powered::ShaftCalibration(next)))
            } else {
                None
            }
        },
    }
}

/// Whether the state loop may take a pending command in this state.
pub fn does_state_allow_command_handling(current: MotorState) -> (r: bool)
    ensures
        r == spec_allows_command_handling(current),
{
    match current {
        MotorState::Idle => true,
        _ => false,
    }
}

/// The state a command starts. Only shaft calibration starts a state; the
/// other commands have no handling in the state machine (they stop the
/// program) and are not accepted here.
pub fn handle_command(control_command: ControlCommand) -> (r: Option<MotorState>)
    requires
        is_handled_command(control_command),
    ensures
        r == spec_handle_command(control_command),
        r is Some,
{
    match control_command {
        ControlCommand::CalibrateShaft => Some(
            MotorState::Powered(Powered::ShaftCalibration(ShaftCalibrationState::WarmUp)),
        ),
        _ => None,
    }
}

/// The decision of one run of the state loop: the command taken from the
/// command slot (which is only taken when `does_state_allow_command_handling`
/// holds) starts its state; otherwise the time-driven transition applies.
pub fn state_loop_next(current: MotorState, elapsed_us: u64, taken: Option<ControlCommand>) -> (r:
    Option<MotorState>)
    requires
        taken is Some ==> spec_allows_command_handling(current),
        taken matches Some(c) ==> is_handled_command(c),
    ensures
        r == spec_state_loop_next(current, elapsed_us, taken),
{
    match taken {
        Some(command) => {
            let handled = handle_command(command);
            match handled {
                Some(s) => Some(s),
                None => next_motor_state(current, elapsed_us),
            }
        },
        None => next_motor_state(current, elapsed_us),
    }
}


/// The order of the time-driven transitions: after its dwell time the motor
/// leaves `Uninitialized` for the calibration of phase A, then B, then C, and
/// then becomes idle; the shaft calibration goes from the warm-up to the slow
/// measurement, the speed change, the fast measurement and back to idle.
/// Before the dwell time no state moves.
pub proof fn lemma_transition_order(elapsed_us: u64)
    ensures
        elapsed_us > INITIAL_DEAD_TIME_US ==> spec_next_motor_state(MotorState::Uninitialized, elapsed_us)
            == Some(init_phase(CalibratingCurrentSensorState::PhaseAPowered)),
        elapsed_us > CURRENT_SENSOR_PHASE_CALIBRATION_TIME_US ==> spec_next_motor_state(
            init_phase(CalibratingCurrentSensorState::PhaseAPowered),
            elapsed_us,
        ) == Some(init_phase(CalibratingCurrentSensorState::PhaseBPowered)),
        elapsed_us > CURRENT_SENSOR_PHASE_CALIBRATION_TIME_US ==> spec_next_motor_state(
            init_phase(CalibratingCurrentSensorState::PhaseBPowered),
            elapsed_us,
        ) == Some(init_phase(CalibratingCurrentSensorState::PhaseCPowered)),
        elapsed_us > CURRENT_SENSOR_PHASE_CALIBRATION_TIME_US ==> spec_next_motor_state(
            init_phase(CalibratingCurrentSensorState::PhaseCPowered),
            elapsed_us,
        ) == Some(MotorState::Idle),
        elapsed_us > ENCODER_CALIBRATION_STEP_TIME_US ==> spec_next_motor_state(
            shaft_step(ShaftCalibrationState::WarmUp),
            elapsed_us,
        ) == Some(shaft_step(ShaftCalibrationState::MeasuringSlow)),
        elapsed_us > ENCODER_CALIBRATION_STEP_TIME_US ==> spec_next_motor_state(
            shaft_step(ShaftCalibrationState::MeasuringSlow),
            elapsed_us,
        ) == Some(shaft_step(ShaftCalibrationState::ChangeSpeed)),
        elapsed_us > ENCODER_CALIBRATION_STEP_TIME_US ==> spec_next_motor_state(
            shaft_step(ShaftCalibrationState::ChangeSpeed),
            elapsed_us,
        ) == Some(shaft_step(ShaftCalibrationState::MeasuringFast)),
        elapsed_us > ENCODER_CALIBRATION_STEP_TIME_US ==> spec_next_motor_state(
            shaft_step(ShaftCalibrationState::MeasuringFast),
            elapsed_us,
        ) == Some(MotorState::Idle),
        elapsed_us <= INITIAL_DEAD_TIME_US ==> spec_next_motor_state(MotorState::Uninitialized, elapsed_us) is None,
        spec_next_motor_state(MotorState::Idle, elapsed_us) is None,
        spec_allows_command_handling(MotorState::Idle),
        spec_handle_command(ControlCommand::CalibrateShaft) == Some(shaft_step(ShaftCalibrationState::WarmUp)),
{
}

/// What entering a state does to the driver, whatever the state left: a
/// current-sensor calibration step switches the driver off and then powers
/// exactly the phase it names, at zero voltage; becoming idle only switches
/// the driver off; a shaft-calibration step enables the synchronised drive
/// only when it comes from an unpowered state, the steps that change the
/// speed reset the velocity controller and aim it at the slow (warm-up) or
/// the fast speed, and the measuring steps do nothing more. The actions depend on the state left only through whether
/// it was powered.
pub proof fn lemma_transition_powers_the_named_phase(current: MotorState, other: MotorState, new_state: MotorState)
    ensures
        spec_transition_actions(init_phase(CalibratingCurrentSensorState::PhaseAPowered), current)
            == seq![
            TransitionAction::DisableDriver,
            TransitionAction::EnablePhaseA,
            TransitionAction::SetVoltageA(0),
        ],
        spec_transition_actions(init_phase(CalibratingCurrentSensorState::PhaseBPowered), current)
            == seq![
            TransitionAction::DisableDriver,
            TransitionAction::EnablePhaseB,
            TransitionAction::SetVoltageB(0),
        ],
        spec_transition_actions(init_phase(CalibratingCurrentSensorState::PhaseCPowered), current)
            == seq![
            TransitionAction::DisableDriver,
            TransitionAction::EnablePhaseC,
            TransitionAction::SetVoltageC(0),
        ],
        spec_transition_actions(MotorState::Idle, current) == seq![TransitionAction::DisableDriver],
        spec_transition_actions(MotorState::Uninitialized, current).len() == 0,
        new_state is Powered ==> (spec_transition_actions(new_state, current).len() > 0
            && spec_transition_actions(new_state, current)[0] == TransitionAction::EnableSynced
            <==> !(current is Powered)),
        spec_transition_actions(shaft_step(ShaftCalibrationState::WarmUp), MotorState::Idle) == seq![
            TransitionAction::EnableSynced,
            TransitionAction::ResetVelocityPid,
            TransitionAction::SetVelocityTargetRpm(ENCODER_CALIBRATION_SPEED_SLOW_RPM),
        ],
        current is Powered ==> spec_transition_actions(shaft_step(ShaftCalibrationState::WarmUp), current)
            == seq![
            TransitionAction::ResetVelocityPid,
            TransitionAction::SetVelocityTargetRpm(ENCODER_CALIBRATION_SPEED_SLOW_RPM),
        ],
        current is Powered ==> spec_transition_actions(
            shaft_step(ShaftCalibrationState::ChangeSpeed),
            current,
        ) == seq![
            TransitionAction::ResetVelocityPid,
            TransitionAction::SetVelocityTargetRpm(ENCODER_CALIBRATION_SPEED_FAST_RPM),
        ],
        !(current is Powered) ==> spec_transition_actions(
            shaft_step(ShaftCalibrationState::ChangeSpeed),
            current,
        ) == seq![
            TransitionAction::EnableSynced,
            TransitionAction::ResetVelocityPid,
            TransitionAction::SetVelocityTargetRpm(ENCODER_CALIBRATION_SPEED_FAST_RPM),
        ],
        current is Powered ==> spec_transition_actions(
            shaft_step(ShaftCalibrationState::MeasuringSlow),
            current,
        ).len() == 0,
        current is Powered ==> spec_transition_actions(
            shaft_step(ShaftCalibrationState::MeasuringFast),
            current,
        ).len() == 0,
        !(current is Powered) ==> spec_transition_actions(
            shaft_step(ShaftCalibrationState::MeasuringSlow),
            current,
        ) == seq![TransitionAction::EnableSynced],
        !(current is Powered) ==> spec_transition_actions(
            shaft_step(ShaftCalibrationState::MeasuringFast),
            current,
        ) == seq![TransitionAction::EnableSynced],
        (current is Powered <==> other is Powered) ==> spec_transition_actions(new_state, current)
            == spec_transition_actions(new_state, other),
{
    if new_state is Powered {
        let s = spec_transition_actions(new_state, current);
        if !(current is Powered) {
            assert(s[0] == TransitionAction::EnableSynced);
        }
    }
}

/// What the driver and the velocity controller are told when the state changes.
#[derive(Debug, Clone, Copy, PartialEq, Eq, Structural)]
pub enum TransitionAction {
    DisableDriver,
    EnablePhaseA,
    EnablePhaseB,
    EnablePhaseC,
    SetVoltageA(i16),
    SetVoltageB(i16),
    SetVoltageC(i16),
    EnableSynced,
    ResetVelocityPid,
    SetVelocityTargetRpm(i16),
}

pub open spec fn spec_transition_actions(new_state: MotorState, current_state: MotorState) -> Seq<
    TransitionAction,
> {
    match new_state {
        MotorState::Uninitialized => seq![],
        MotorState::Initializing(InitializationState::CalibratingCurrentSensor(phase)) => match phase {
            CalibratingCurrentSensorState::PhaseAPowered => seq![
                TransitionAction::DisableDriver,
                TransitionAction::EnablePhaseA,
                TransitionAction::SetVoltageA(0),
            ],
            CalibratingCurrentSensorState::PhaseBPowered => seq![
                TransitionAction::DisableDriver,
                TransitionAction::EnablePhaseB,
                TransitionAction::SetVoltageB(0),
            ],
            CalibratingCurrentSensorState::PhaseCPowered => seq![
                TransitionAction::DisableDriver,
                TransitionAction::EnablePhaseC,
                TransitionAction::SetVoltageC(0),
            ],
        },
        MotorState::Idle => seq![TransitionAction::DisableDriver],
        MotorState::Powered(Powered::ShaftCalibration(step)) => {
            let enable: Seq<TransitionAction> = if current_state is Powered {
                seq![]
            } else {
                seq![TransitionAction::EnableSynced]
            };
            let rest: Seq<TransitionAction> = match step {
                ShaftCalibrationState::WarmUp => seq![
                    TransitionAction::ResetVelocityPid,
                    TransitionAction::SetVelocityTargetRpm(ENCODER_CALIBRATION_SPEED_SLOW_RPM),
                ],
                ShaftCalibrationState::MeasuringSlow => seq![],
                ShaftCalibrationState::ChangeSpeed => seq![
                    TransitionAction::ResetVelocityPid,
                    TransitionAction::SetVelocityTargetRpm(ENCODER_CALIBRATION_SPEED_FAST_RPM),
                ],
                ShaftCalibrationState::MeasuringFast => seq![],
            };
            enable + rest
        },
    }
}

/// The actions that entering `new_state` from `current_state` performs, in order.
pub fn apply_state_transition(new_state: MotorState, current_state: MotorState) -> (r: Vec<
    TransitionAction,
>)
    ensures
        r@ == spec_transition_actions(new_state, current_state),
{
    let mut actions: Vec<TransitionAction> = Vec::new();
    match new_state {
        MotorState::Uninitialized => {},
        MotorState::Initializing(InitializationState::CalibratingCurrentSensor(phase)) => {
            actions.push(TransitionAction::DisableDriver);
            match phase {
                CalibratingCurrentSensorState::PhaseAPowered => {
                    actions.push(TransitionAction::EnablePhaseA);
                    actions.push(TransitionAction::SetVoltageA(0));
                },
                CalibratingCurrentSensorState::PhaseBPowered => {
                    actions.push(TransitionAction::EnablePhaseB);
                    actions.push(TransitionAction::SetVoltageB(0));
                },
                CalibratingCurrentSensorState::PhaseCPowered => {
                    actions.push(TransitionAction::EnablePhaseC);
                    actions.push(TransitionAction::SetVoltageC(0));
                },
            }
        },
        MotorState::Idle => {
            actions.push(TransitionAction::DisableDriver);
        },
        MotorState::Powered(Powered::ShaftCalibration(step)) => {
            let was_powered = match current_state {
                MotorState::Powered(_) => true,
                _ => false,
            };
            if !was_powered {
                actions.push(TransitionAction::EnableSynced);
            }
            match step {
                ShaftCalibrationState::WarmUp => {
                    actions.push(TransitionAction::ResetVelocityPid);
                    actions.push(
                        TransitionAction::SetVelocityTargetRpm(ENCODER_CALIBRATION_SPEED_SLOW_RPM),
                    );
                },
                ShaftCalibrationState::MeasuringSlow => {},
                ShaftCalibrationState::ChangeSpeed => {
                    actions.push(TransitionAction::ResetVelocityPid);
                    actions.push(
                        TransitionAction::SetVelocityTargetRpm(ENCODER_CALIBRATION_SPEED_FAST_RPM),
                    );
                },
                ShaftCalibrationState::MeasuringFast => {},
            }
        },
    }
    proof {
        assert(actions@ =~= spec_transition_actions(new_state, current_state));
    }
    actions
}

/// Whether the PID loop updates the velocity controller in this state.
pub fn pid_loop_updates_velocity(state: MotorState) -> (r: bool)
    ensures
        r == (state is Powered),
{
    match state {
        MotorState::Powered(Powered::ShaftCalibration(_)) => true,
        _ => false,
    }
}

/// Tick counters of the control loop, which runs the state loop and the PID
/// loop at fractions of its own rate.
#[derive(Debug, Clone, Copy, PartialEq, Eq, Structural)]
pub struct LoopCounters {
    pub state_counter: u32,
    pub pid_counter: u32,
}

/// Which sub-loops run on a tick.
#[derive(Debug, Clone, Copy, PartialEq, Eq, Structural)]
pub struct TickOutcome {
    pub run_state_loop: bool,
    pub run_pid_loop: bool,
}

impl LoopCounters {
    pub open spec fn wf(self) -> bool {
        self.state_counter < STATE_LOOP_DIVIDER && self.pid_counter < PID_LOOP_DIVIDER
    }

    pub fn new() -> (r: Self)
        ensures
            r.state_counter == 0,
            r.pid_counter == 0,
            r.wf(),
    {
        LoopCounters { state_counter: 0, pid_counter: 0 }
    }

    /// Advances both counters by one tick and reports which loops run now; a
    /// counter that reaches its divider starts again from zero.
    pub fn tick(&mut self) -> (r: TickOutcome)
        requires
            old(self).wf(),
        ensures
            final(self).wf(),
            final(self).state_counter == (old(self).state_counter + 1) % (STATE_LOOP_DIVIDER as int),
            final(self).pid_counter == (old(self).pid_counter + 1) % (PID_LOOP_DIVIDER as int),
            r.run_state_loop == (old(self).state_counter + 1 == STATE_LOOP_DIVIDER),
            r.run_pid_loop == (old(self).pid_counter + 1 == PID_LOOP_DIVIDER),
    {
        self.state_counter = self.state_counter + 1;
        self.pid_counter = self.pid_counter + 1;
        let run_state_loop = self.state_counter == STATE_LOOP_DIVIDER;
        if run_state_loop {
            self.state_counter = 0;
        }
        let run_pid_loop = self.pid_counter == PID_LOOP_DIVIDER;
        if run_pid_loop {
            self.pid_counter = 0;
        }
        TickOutcome { run_state_loop, run_pid_loop }
    }
}

// ---------------------------------------------------------------------------
// Laws of the state machine
// ---------------------------------------------------------------------------

/// The state reached after `n` time-driven transitions, each taken after the
/// state has lasted longer than its dwell time.
pub open spec fn settle(s: MotorState, n: nat) -> MotorState
    decreases n,
{
    if n == 0 {
        s
    } else {
        match spec_next_motor_state(s, (dwell_time(s) + 1) as u64) {
            Some(t) => settle(t, (n - 1) as nat),
            None => s,
        }
    }
}

/// Idle is stable: without a command the motor never leaves it.
pub proof fn lemma_idle_is_stable(elapsed_us: u64)
    ensures
        spec_next_motor_state(MotorState::Idle, elapsed_us) is None,
{
}

/// No state changes before it has lasted its dwell time, and every state but
/// Idle changes once it has lasted longer.
pub proof fn lemma_dwell_time(s: MotorState, elapsed_us: u64)
    ensures
        elapsed_us <= dwell_time(s) ==> spec_next_motor_state(s, elapsed_us) is None,
        elapsed_us > dwell_time(s) && s != MotorState::Idle ==> spec_next_motor_state(
            s,
            elapsed_us,
        ) is Some,
{
}

/// The successor of a state does not depend on how long past its dwell time
/// the state lasted.
pub proof fn lemma_next_state_independent_of_time(s: MotorState, e1: u64, e2: u64)
    requires
        spec_next_motor_state(s, e1) is Some,
        spec_next_motor_state(s, e2) is Some,
    ensures
        spec_next_motor_state(s, e1) == spec_next_motor_state(s, e2),
{
}

/// Every time-driven transition brings the motor one step closer to Idle.
pub proof fn lemma_transition_approaches_idle(s: MotorState, elapsed_us: u64)
    ensures
        spec_next_motor_state(s, elapsed_us) matches Some(t) ==> steps_to_idle(t) + 1
            == steps_to_idle(s),
{
}

/// From any state, the motor is idle after `steps_to_idle` transitions: the
/// start-up sequence (dead time, then phases A, B and C powered) and the shaft
/// calibration (warm-up, slow, speed change, fast) both end in Idle.
pub proof fn lemma_settles_to_idle(s: MotorState)
    ensures
        settle(s, steps_to_idle(s)) == MotorState::Idle,
    decreases steps_to_idle(s),
{
    if steps_to_idle(s) > 0 {
        let t = spec_next_motor_state(s, (dwell_time(s) + 1) as u64)->0;
        lemma_transition_approaches_idle(s, (dwell_time(s) + 1) as u64);
        lemma_settles_to_idle(t);
    }
}

/// A shaft calibration command taken while idle starts the warm-up, and the
/// calibration run then returns to Idle after four timed steps.
pub proof fn lemma_calibration_round_trip(elapsed_us: u64)
    ensures
        spec_state_loop_next(MotorState::Idle, elapsed_us, Some(ControlCommand::CalibrateShaft))
            == Some(shaft_step(ShaftCalibrationState::WarmUp)),
        settle(shaft_step(ShaftCalibrationState::WarmUp), 4) == MotorState::Idle,
{
    lemma_settles_to_idle(shaft_step(ShaftCalibrationState::WarmUp));
}

/// The counters after `n` ticks from zero.
pub open spec fn counters_after(n: nat) -> LoopCounters {
    LoopCounters {
        state_counter: (n % (STATE_LOOP_DIVIDER as nat)) as u32,
        pid_counter: (n % (PID_LOOP_DIVIDER as nat)) as u32,
    }
}

/// Starting from zero, the state loop runs exactly on every 40th tick and the
/// PID loop exactly on every 10th: the tick that follows `n` ticks runs the
/// state loop iff `n + 1` is a multiple of 40, and the PID loop iff it is a
/// multiple of 10.
pub proof fn lemma_tick_rates(n: nat, c: LoopCounters)
    requires
        c == counters_after(n),
    ensures
        c.wf(),
        (c.state_counter + 1) % (STATE_LOOP_DIVIDER as int) == counters_after(n + 1).state_counter,
        (c.pid_counter + 1) % (PID_LOOP_DIVIDER as int) == counters_after(n + 1).pid_counter,
        (c.state_counter + 1 == STATE_LOOP_DIVIDER) == ((n + 1) % 40 == 0),
        (c.pid_counter + 1 == PID_LOOP_DIVIDER) == ((n + 1) % 10 == 0),
{
    assert((n % 40 + 1) % 40 == (n + 1) % 40) by (nonlinear_arith);
    assert((n % 10 + 1) % 10 == (n + 1) % 10) by (nonlinear_arith);
    assert((n % 40 + 1 == 40) == ((n + 1) % 40 == 0)) by (nonlinear_arith);
    assert((n % 10 + 1 == 10) == ((n + 1) % 10 == 0)) by (nonlinear_arith);
}

} // verus!
