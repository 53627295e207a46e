use pyrion::serial::errors::ParsingError;
use pyrion::serial::parser::{
    is_name_expression_valid, is_value_expression_valid, parse, RawCommand,
};

#[test]
fn parse_empty_command_name_should_fail() {
    for input in ["", " "] {
        let result = parse(&RawCommand::serial(input));
        assert!(result.is_err(), "Input `{}` should fail", input);
    }
}

#[test]
fn parse_invalid_command_name_should_fail() {
    for input in ["_test", "9test", "*", "💩"] {
        let result = parse(&RawCommand::serial(input));
        assert!(result.is_err(), "Invalid command `{}` was parsed successfully", input);
    }
}

#[test]
fn parse_valid_command_name_should_succeed() {
    for input in ["echo", "print_state", "disable_motor_1"] {
        let result = parse(&RawCommand::serial(input));
        let parsed = result.expect(&format!("Command `{}` should parse", input));
        assert_eq!(parsed.name, input);
    }
}

#[test]
fn parse_invalid_argument_name_should_fail() {
    for input in ["echo _a", "echo 9test", "echo *", "echo aaa💩"] {
        let result = parse(&RawCommand::serial(input));
        assert!(result.is_err(), "Input `{}` should fail due to invalid arg name", input);
    }
}

#[test]
fn parse_invalid_argument_value_should_fail() {
    for input in ["echo a=_a", "echo a=1💩", "echo a=a=", "echo a==", "echo aaa💩"] {
        let result = parse(&RawCommand::serial(input));
        assert!(result.is_err(), "Input `{}` should fail due to invalid arg value", input);
    }
}

#[test]
fn parse_valid_argument_list_should_be_parsed() {
    let inputs = vec![
        ("command argument", vec![("argument", None)]),
        ("command argument=value", vec![("argument", Some("value"))]),
        ("command argument1=10", vec![("argument1", Some("10"))]),
        (
            "command argument1=value1 argument2=value2",
            vec![("argument1", Some("value1")), ("argument2", Some("value2"))],
        ),
        (
            "command a1 a2 a3 a4 a5 a6 a7",
            vec![
                ("a1", None),
                ("a2", None),
                ("a3", None),
                ("a4", None),
                ("a5", None),
                ("a6", None),
                ("a7", None),
            ],
        ),
    ];

    for (input, expected_args) in inputs {
        let result = parse(&RawCommand::serial(input));
        let parsed = result.expect(&format!("Parsing `{}` failed", input));
        let actual_args = &parsed.args;

        assert_eq!(
            actual_args.len(),
            expected_args.len(),
            "Expected {} args, got {} for `{}`",
            expected_args.len(),
            actual_args.len(),
            input
        );

        for (i, (expected_name, expected_value)) in expected_args.iter().enumerate() {
            let actual = actual_args.get(i);
            assert_eq!(&actual.name, expected_name, "Arg name mismatch in `{}`", input);
            assert_eq!(&actual.value, expected_value, "Arg value mismatch in `{}`", input);
        }
    }
}

#[test]
fn parse_error_kinds() {
    let err = |s: &str| parse(&RawCommand::serial(s)).err();
    assert_eq!(err("   \t "), Some(ParsingError::Empty));
    assert_eq!(err("9go"), Some(ParsingError::InvalidCommandFormat));
    assert_eq!(err("go a=b=c"), Some(ParsingError::InvalidArgumentFormat));
    assert_eq!(err("go a1 a2 a3 a4 a5 a6 a7 a8 a9"), Some(ParsingError::TooManyArguments));
    // an invalid ninth argument is reported as malformed, not as one too many
    assert_eq!(err("go a1 a2 a3 a4 a5 a6 a7 a8 _"), Some(ParsingError::InvalidArgumentFormat));
    assert_eq!(err("go a1 a2 a3 a4 a5 a6 a7 a8"), None);
}

#[test]
fn parse_whitespace_and_edge_cases() {
    let parsed = parse(&RawCommand::serial("  \t set_pid\u{a0}speed   kp=5 \r\n")).unwrap();
    assert_eq!(parsed.name, "set_pid");
    assert_eq!(parsed.args.len(), 2);
    assert_eq!(parsed.args.get(1).name, "kp");
    assert_eq!(parsed.args.get(1).value, Some("5"));
    // an empty value and an empty name are accepted
    let parsed = parse(&RawCommand::serial("x a= =b")).unwrap();
    assert_eq!(parsed.args.get(0).value, Some(""));
    assert_eq!(parsed.args.get(1).name, "");
    assert_eq!(parsed.args.get(1).value, Some("b"));
    assert!(parsed.args.len() > 0);
}

#[test]
fn name_and_value_rules() {
    assert!(is_name_expression_valid("a_1"));
    assert!(!is_name_expression_valid("1a"));
    assert!(is_name_expression_valid(""));
    assert!(is_value_expression_valid("1a_"));
    assert!(!is_value_expression_valid("_1"));
    assert!(!is_value_expression_valid("-1"));
}
