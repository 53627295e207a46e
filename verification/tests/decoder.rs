use fixed::types::I32F32;
use pyrion::command::{command_action, pid_controllers, Command, CommandAction, CommandResultKind, Pid, PidController, PidValue};
use pyrion::serial::command_chain::{decode_line, decode_line_bytes};
use pyrion::serial::decoder::{apply_pid_value, decode_command, parse_decimal_i32, str_equals};
use pyrion::serial::errors::{CommandChainError, DecodingError, ParsingError};
use pyrion::serial::parser::{parse, RawCommand};
use pyrion::state::ControlCommand;

fn decode(s: &str) -> Result<Command, DecodingError> {
    let raw = RawCommand::serial(s);
    let env = parse(&raw).unwrap();
    decode_command(&env)
}

fn bits(s: &str) -> i64 {
    s.parse::<I32F32>().unwrap().to_bits()
}

#[test]
fn decodes_simple_commands() {
    assert_eq!(decode("echo anything=1"), Ok(Command::Echo));
    assert_eq!(decode("get state"), Ok(Command::GetState));
    assert_eq!(decode("get shaft"), Ok(Command::GetShaft));
    assert_eq!(decode("get"), Err(DecodingError::NotEnoughArguments));
    assert_eq!(decode("get state shaft"), Err(DecodingError::TooManyArguments));
    assert_eq!(decode("get speed"), Err(DecodingError::InvalidArgumentValue));
    assert_eq!(decode("reboot"), Err(DecodingError::UnknownCommand));
    assert_eq!(
        decode("calibrate shaft"),
        Ok(Command::SetControlCommand(ControlCommand::CalibrateShaft))
    );
    assert_eq!(decode("calibrate motor"), Err(DecodingError::InvalidArgumentValue));
}

#[test]
fn decodes_targets() {
    assert_eq!(
        decode("set_target zero"),
        Ok(Command::SetControlCommand(ControlCommand::SetTargetZero))
    );
    assert_eq!(
        decode("set_target voltage=1200"),
        Ok(Command::SetControlCommand(ControlCommand::SetTargetVoltage(1200)))
    );
    assert_eq!(
        decode("set_target torque=0"),
        Ok(Command::SetControlCommand(ControlCommand::SetTargetTorque(0)))
    );
    assert_eq!(
        decode("set_target Velocity=42"),
        Ok(Command::SetControlCommand(ControlCommand::SetTargetVelocity(42)))
    );
    assert_eq!(
        decode("set_target angle=16384"),
        Ok(Command::SetControlCommand(ControlCommand::SetTargetPosition(16384)))
    );
    assert_eq!(decode("set_target voltage"), Err(DecodingError::InvalidArgumentValue));
    assert_eq!(decode("set_target voltage=12abc"), Err(DecodingError::InvalidArgumentValue));
    assert_eq!(decode("set_target velocity=1"), Err(DecodingError::InvalidArgumentValue));
}

#[test]
fn decodes_pid_updates() {
    let mut expected = PidValue::default();
    expected.kp = bits("3");
    expected.ki_limit = Some(bits("10"));
    assert_eq!(decode("set_pid speed kp=3 i_limit=10"), Ok(Command::SetPid(Pid::Velocity, expected)));
    // a fractional value is refused by the line parser before it is decoded
    assert_eq!(
        parse(&RawCommand::serial("set_pid speed kp=2.5")).err(),
        Some(ParsingError::InvalidArgumentFormat)
    );
    assert_eq!(
        decode("set_pid Current"),
        Ok(Command::SetPid(Pid::Current, PidValue::default()))
    );
    assert_eq!(decode("set_pid"), Err(DecodingError::NotEnoughArguments));
    assert_eq!(decode("set_pid torque"), Err(DecodingError::InvalidArgumentValue));
    assert_eq!(decode("set_pid speed kx=1"), Err(DecodingError::InvalidArgumentValue));
    assert_eq!(decode("set_pid speed kp"), Err(DecodingError::InvalidArgumentValue));
    assert_eq!(decode("set_pid speed kp=abc"), Err(DecodingError::InvalidArgumentValue));
    let d = PidValue::default();
    assert_eq!(d.kp, 1i64 << 32);
    assert_eq!((d.ki, d.kd, d.kp_limit, d.ki_limit, d.kd_limit), (0, 0, None, None, None));
}

#[test]
fn decimal_integers() {
    assert_eq!(parse_decimal_i32("0"), Some(0));
    assert_eq!(parse_decimal_i32("+17"), Some(17));
    assert_eq!(parse_decimal_i32("-2147483648"), Some(i32::MIN));
    assert_eq!(parse_decimal_i32("2147483647"), Some(i32::MAX));
    assert_eq!(parse_decimal_i32("2147483648"), None);
    assert_eq!(parse_decimal_i32("99999999999999999999"), None);
    assert_eq!(parse_decimal_i32("-"), None);
    assert_eq!(parse_decimal_i32(""), None);
    assert_eq!(parse_decimal_i32("1_0"), None);
    for s in ["12", "-7", "+0", "2147483647", "-2147483648", "1e3", " 1"] {
        assert_eq!(parse_decimal_i32(s), s.parse::<i32>().ok(), "{}", s);
    }
}

#[test]
fn string_equality() {
    assert!(str_equals("abc", "abc"));
    assert!(!str_equals("abc", "abd"));
    assert!(!str_equals("abc", "ab"));
}

#[test]
fn decode_line_reports_the_first_error() {
    assert_eq!(decode_line(""), Err(CommandChainError::Empty));
    assert_eq!(decode_line("get _x"), Err(CommandChainError::InvalidArgumentFormat));
    assert_eq!(decode_line("get x"), Err(CommandChainError::InvalidArgumentValue));
    assert_eq!(decode_line("frobnicate"), Err(CommandChainError::UnknownCommand));
    assert_eq!(decode_line("echo"), Ok(Command::Echo));
}

#[test]
fn command_actions() {
    assert_eq!(command_action(Command::Echo), (CommandAction::Reply, CommandResultKind::Echo));
    assert_eq!(
        command_action(Command::GetShaft),
        (CommandAction::ReadSnapshot, CommandResultKind::Shaft)
    );
    assert_eq!(
        command_action(Command::SetControlCommand(ControlCommand::SetTargetZero)),
        (
            CommandAction::SignalControlCommand(ControlCommand::SetTargetZero),
            CommandResultKind::Accepted
        )
    );
    assert_eq!(pid_controllers(Pid::Velocity), vec![PidController::Velocity]);
    assert_eq!(
        pid_controllers(Pid::Current),
        vec![PidController::CurrentQ, PidController::CurrentD]
    );
}

#[test]
fn pid_values_from_read_numbers() {
    let d = PidValue::default();
    let v = apply_pid_value(d, "i", Ok(123)).unwrap();
    assert_eq!(v, PidValue { ki: 123, ..d });
    let v = apply_pid_value(v, "kd_limit", Ok(-5)).unwrap();
    assert_eq!(v, PidValue { ki: 123, kd_limit: Some(-5), ..d });
    assert_eq!(
        apply_pid_value(d, "kp", Err(DecodingError::InvalidArgumentValue)),
        Err(DecodingError::InvalidArgumentValue)
    );
    assert_eq!(apply_pid_value(d, "gain", Ok(1)), Err(DecodingError::InvalidArgumentValue));
    assert_eq!(apply_pid_value(d, "p_limit", Ok(7)), Ok(PidValue { kp_limit: Some(7), ..d }));
}

#[test]
fn lines_received_as_bytes() {
    assert_eq!(decode_line_bytes(b"get state"), Some(Ok(Command::GetState)));
    assert_eq!(decode_line_bytes(b"get"), Some(Err(CommandChainError::NotEnoughArguments)));
    assert_eq!(decode_line_bytes(&[b'g', 0xff, b't']), None);
    assert_eq!(decode_line_bytes("echo \u{e9}".as_bytes()), Some(Err(CommandChainError::InvalidArgumentFormat)));
}
