use vstd::prelude::*;
use crate::state::ControlCommand;

verus! {

/// Which controllers a PID update applies to.
#[derive(Debug, Clone, Copy, PartialEq, Eq, Structural)]
pub enum Pid {
    Velocity,
    Current,
}

/// Gains and optional output limits of a PID controller, as `I32F32` bits.
#[derive(Debug, Clone, Copy, PartialEq, Eq, Structural)]
pub struct PidValue {
    pub kp: i64,
    pub kp_limit: Option<i64>,
    pub ki: i64,
    pub ki_limit: Option<i64>,
    pub kd: i64,
    pub kd_limit: Option<i64>,
}

/// The gains a PID update starts from: a proportional gain of one, no
/// integral or derivative gain, no limits.
pub open spec fn spec_default_pid_value() -> PidValue {
    PidValue { kp: 4294967296, kp_limit: None, ki: 0, ki_limit: None, kd: 0, kd_limit: None }
}

impl Default for PidValue {
    fn default() -> (r: Self)
        ensures
            r == spec_default_pid_value(),
    {
        PidValue { kp: 4294967296, kp_limit: None, ki: 0, ki_limit: None, kd: 0, kd_limit: None }
    }
}

/// A command received over the serial interface.
#[derive(Debug, Clone, Copy, PartialEq, Eq, Structural)]
pub enum Command {
    Echo,
    GetState,
    GetShaft,
    SetPid(Pid, PidValue),
    SetControlCommand(ControlCommand),
}

/// What executing a command answers, apart from the motor data that the
/// firmware attaches to state and shaft queries.
#[derive(Debug, Clone, Copy, PartialEq, Eq, Structural)]
pub enum CommandResultKind {
    Echo,
    State,
    Shaft,
    Accepted,
}

/// The controllers a PID update is written to.
#[derive(Debug, Clone, Copy, PartialEq, Eq, Structural)]
pub enum PidController {
    Velocity,
    CurrentQ,
    CurrentD,
}

/// The action of the command executor for a command, and the kind of answer it gives.
#[derive(Debug, Clone, Copy, PartialEq, Eq, Structural)]
pub enum CommandAction {
    Reply,
    ReadSnapshot,
    SignalControlCommand(ControlCommand),
    WritePid(Pid, PidValue),
}

pub open spec fn spec_command_action(command: Command) -> (CommandAction, CommandResultKind) {
    match command {
        Command::Echo => (CommandAction::Reply, CommandResultKind::Echo),
        Command::GetState => (CommandAction::ReadSnapshot, CommandResultKind::State),
        Command::GetShaft => (CommandAction::ReadSnapshot, CommandResultKind::Shaft),
        Command::SetControlCommand(c) => (CommandAction::SignalControlCommand(c), CommandResultKind::Accepted),
        Command::SetPid(p, v) => (CommandAction::WritePid(p, v), CommandResultKind::Accepted),
    }
}

/// How the executor handles a command: echo answers at once, state and shaft
/// queries read a snapshot of the motor, a control command is signalled to the
/// state machine, and a PID update is written to its controllers; the last two
/// answer `Accepted`.
pub fn command_action(command: Command) -> (r: (CommandAction, CommandResultKind))
    ensures
        r == spec_command_action(command),
{
    match command {
        Command::Echo => (CommandAction::Reply, CommandResultKind::Echo),
        Command::GetState => (CommandAction::ReadSnapshot, CommandResultKind::State),
        Command::GetShaft => (CommandAction::ReadSnapshot, CommandResultKind::Shaft),
        Command::SetControlCommand(c) => (CommandAction::SignalControlCommand(c), CommandResultKind::Accepted),
        Command::SetPid(p, v) => (CommandAction::WritePid(p, v), CommandResultKind::Accepted),
    }
}

pub open spec fn spec_pid_controllers(pid: Pid) -> Seq<PidController> {
    match pid {
        Pid::Velocity => seq![PidController::Velocity],
        Pid::Current => seq![PidController::CurrentQ, PidController::CurrentD],
    }
}

/// What executing each command does and answers, for every command: echo
/// answers `Echo` without touching the motor; a state query reads a snapshot
/// and answers `State`, a shaft query reads a snapshot and answers `Shaft`,
/// so the two queries answer differently; a control command is signalled to
/// the state machine unchanged, and a PID update is written with the same
/// controller choice and gains, both answering `Accepted`. A velocity PID
/// update reaches only the velocity controller; a current PID update reaches
/// both current controllers and never the velocity one.
pub proof fn lemma_command_actions_and_replies(control: ControlCommand, pid: Pid, value: PidValue)
    ensures
        spec_command_action(Command::Echo) == (CommandAction::Reply, CommandResultKind::Echo),
        spec_command_action(Command::GetState) == (
            CommandAction::ReadSnapshot,
            CommandResultKind::State,
        ),
        spec_command_action(Command::GetShaft) == (
            CommandAction::ReadSnapshot,
            CommandResultKind::Shaft,
        ),
        spec_command_action(Command::GetState).1 != spec_command_action(Command::GetShaft).1,
        spec_command_action(Command::SetControlCommand(control)) == (
            CommandAction::SignalControlCommand(control),
            CommandResultKind::Accepted,
        ),
        spec_command_action(Command::SetPid(pid, value)) == (
            CommandAction::WritePid(pid, value),
            CommandResultKind::Accepted,
        ),
        spec_pid_controllers(Pid::Velocity) =~= seq![PidController::Velocity],
        spec_pid_controllers(Pid::Current) =~= seq![PidController::CurrentQ, PidController::CurrentD],
        spec_pid_controllers(Pid::Current).len() == 2,
        spec_pid_controllers(Pid::Current).contains(PidController::CurrentQ),
        spec_pid_controllers(Pid::Current).contains(PidController::CurrentD),
        !spec_pid_controllers(Pid::Current).contains(PidController::Velocity),
{
    let c = spec_pid_controllers(Pid::Current);
    assert(c[0] == PidController::CurrentQ);
    assert(c[1] == PidController::CurrentD);
    if c.contains(PidController::Velocity) {
        let i = choose|i: int| 0 <= i < c.len() && c[i] == PidController::Velocity;
        assert(i == 0 || i == 1);
    }
}

/// The controllers a PID update goes to: the velocity controller, or both
/// current controllers (q first, then d).
pub fn pid_controllers(pid: Pid) -> (r: Vec<PidController>)
    ensures
        r@ == spec_pid_controllers(pid),
{
    let mut v: Vec<PidController> = Vec::new();
    match pid {
        Pid::Velocity => {
            v.push(PidController::Velocity);
        },
        Pid::Current => {
            v.push(PidController::CurrentQ);
            v.push(PidController::CurrentD);
        },
    }
    proof {
        assert(v@ =~= spec_pid_controllers(pid));
    }
    v
}

} // verus!
