use vstd::prelude::*;
use fixed::types::I32F32;
use crate::command::{spec_default_pid_value, Command, Pid, PidValue};
use crate::serial::errors::DecodingError;
use crate::serial::parser::{Arg, ArgList, ArgView, CommandEnvelope};
use crate::state::ControlCommand;

verus! {

/// What `<I32F32 as FromStr>::from_str` gives for a text, as bits; `None`
/// where it fails.
pub uninterp spec fn i32f32_from_str(s: Seq<char>) -> Option<i64>;

/// `<I32F32 as FromStr>::from_str`: parses a decimal number, rounding to the
/// nearest `I32F32` (ties to even), and fails on malformed text or a value out
/// of range. The result is a function of the text alone; what it is on a
/// given text is left to the `fixed` crate.
#[verifier::external_body]
fn parse_i32f32(text: &str) -> (r: Option<i64>)
    ensures
        r == i32f32_from_str(text@),
{
    match text.parse::<I32F32>() {
        Ok(v) => Some(v.to_bits()),
        Err(_) => None,
    }
}

/// Whether two texts are equal.
pub fn str_equals(a: &str, b: &str) -> (r: bool)
    ensures
        r == (a@ == b@),
{
    let n = a.unicode_len();
    let m = b.unicode_len();
    if n != m {
        return false;
    }
    let mut i: usize = 0;
    while i < n
        invariant
            n == a@.len(),
            m == b@.len(),
            n == m,
            i <= n,
            forall|j: int| 0 <= j < i ==> a@[j] == b@[j],
        decreases n - i,
    {
        if a.get_char(i) != b.get_char(i) {
            return false;
        }
        i = i + 1;
    }
    proof {
        assert(a@ =~= b@);
    }
    true
}

pub open spec fn is_digit(c: char) -> bool {
    '0' <= c && c <= '9'
}

pub open spec fn all_digits(s: Seq<char>) -> bool {
    forall|j: int| 0 <= j < s.len() ==> is_digit(#[trigger] s[j])
}

/// The number written by a sequence of decimal digits.
pub open spec fn digits_value(s: Seq<char>) -> int
    decreases s.len(),
{
    if s.len() == 0 {
        0
    } else {
        digits_value(s.drop_last()) * 10 + (s.last() as int - '0' as int)
    }
}

/// A decimal integer as `i32::from_str` reads it: an optional `+` or `-`,
/// then at least one digit, with a value in the `i32` range.
pub open spec fn spec_parse_i32(s: Seq<char>) -> Option<i32> {
    let negative = s.len() > 0 && s[0] == '-';
    let signed = s.len() > 0 && (s[0] == '-' || s[0] == '+');
    let digits = if signed { s.drop_first() } else { s };
    let magnitude = digits_value(digits);
    let value = if negative { -magnitude } else { magnitude };
    if digits.len() > 0 && all_digits(digits) && i32::MIN <= value <= i32::MAX {
        Some(value as i32)
    } else {
        None
    }
}

proof fn lemma_digits_value_nonneg(s: Seq<char>)
    requires
        all_digits(s),
    ensures
        digits_value(s) >= 0,
    decreases s.len(),
{
    if s.len() > 0 {
        assert(all_digits(s.drop_last())) by {
            assert forall|j: int| 0 <= j < s.drop_last().len() implies is_digit(
                #[trigger] s.drop_last()[j],
            ) by {
                assert(s.drop_last()[j] == s[j]);
            }
        }
        lemma_digits_value_nonneg(s.drop_last());
        assert(is_digit(s[s.len() - 1]));
    }
}

/// A digit string's value never drops as digits are appended.
proof fn lemma_digits_value_grows(s: Seq<char>, k: int)
    requires
        all_digits(s),
        0 <= k <= s.len(),
    ensures
        digits_value(s.subrange(0, k)) <= digits_value(s),
    decreases s.len() - k,
{
    if k < s.len() {
        lemma_digits_value_grows(s, k + 1);
        let t = s.subrange(0, k + 1);
        assert(t.drop_last() =~= s.subrange(0, k));
        assert(all_digits(s.subrange(0, k))) by {
            assert forall|j: int| 0 <= j < s.subrange(0, k).len() implies is_digit(
                #[trigger] s.subrange(0, k)[j],
            ) by {
                assert(s.subrange(0, k)[j] == s[j]);
            }
        }
        lemma_digits_value_nonneg(s.subrange(0, k));
        assert(is_digit(t.last()));
    } else {
        assert(s.subrange(0, k) =~= s);
    }
}

/// Reads a decimal `i32` the way `i32::from_str` does.
pub fn parse_decimal_i32(text: &str) -> (r: Option<i32>)
    ensures
        r == spec_parse_i32(text@),
{
    let n = text.unicode_len();
    if n == 0 {
        return None;
    }
    let first = text.get_char(0);
    let negative = first == '-';
    let start: usize = if first == '-' || first == '+' { 1 } else { 0 };
    let ghost digits = if start == 1 { text@.drop_first() } else { text@ };
    proof {
        assert(digits =~= text@.subrange(start as int, n as int));
    }
    if start == n {
        return None;
    }
    let mut acc: i64 = 0;
    let mut i: usize = start;
    while i < n
        invariant
            n == text@.len(),
            start <= i <= n,
            start < n,
            digits == text@.subrange(start as int, n as int),
            digits == (if start == 1 { text@.drop_first() } else { text@ }),
            (start == 1) == (text@[0] == '-' || text@[0] == '+'),
            negative == (text@[0] == '-'),
            all_digits(text@.subrange(start as int, i as int)),
            acc == digits_value(text@.subrange(start as int, i as int)),
            0 <= acc <= 2147483648,
        decreases n - i,
    {
        let c = text.get_char(i);
        let ghost prefix = text@.subrange(start as int, i as int);
        let ghost next = text@.subrange(start as int, i + 1);
        proof {
            assert(next.drop_last() =~= prefix);
            assert(next.last() == c);
        }
        if !('0' <= c && c <= '9') {
            proof {
                assert(digits[i - start] == c);
            }
            return None;
        }
        let d = (c as u32 - '0' as u32) as i64;
        acc = acc * 10 + d;
        proof {
            assert(all_digits(next)) by {
                assert forall|j: int| 0 <= j < next.len() implies is_digit(#[trigger] next[j]) by {
                    if j < prefix.len() {
                        assert(next[j] == prefix[j]);
                    }
                }
            }
        }
        if acc > 2147483648 {
            proof {
                assert(next =~= digits.subrange(0, (i + 1 - start) as int));
                if all_digits(digits) {
                    lemma_digits_value_grows(digits, (i + 1 - start) as int);
                }
            }
            return None;
        }
        i = i + 1;
    }
    proof {
        assert(text@.subrange(start as int, n as int) == digits);
    }
    let value: i64 = if negative { -acc } else { acc };
    if value < -2147483648 || value > 2147483647 {
        return None;
    }
    Some(value as i32)
}

/// The value of an optional argument as a fixed-point number.
pub open spec fn spec_try_parse_fixed(value: Option<Seq<char>>) -> Result<i64, DecodingError> {
    match value {
        None => Err(DecodingError::InvalidArgumentValue),
        Some(v) => match i32f32_from_str(v) {
            None => Err(DecodingError::InvalidArgumentValue),
            Some(x) => Ok(x),
        },
    }
}

fn try_parse_fixed(value: Option<&str>) -> (r: Result<i64, DecodingError>)
    ensures
        r == spec_try_parse_fixed(
            match value {
                Some(v) => Some(v@),
                None => None,
            },
        ),
{
    match value {
        None => Err(DecodingError::InvalidArgumentValue),
        Some(v) => match parse_i32f32(v) {
            None => Err(DecodingError::InvalidArgumentValue),
            Some(x) => Ok(x),
        },
    }
}

/// The value of an optional argument as a decimal integer.
pub open spec fn spec_try_parse_int(value: Option<Seq<char>>) -> Result<i32, DecodingError> {
    match value {
        None => Err(DecodingError::InvalidArgumentValue),
        Some(v) => match spec_parse_i32(v) {
            None => Err(DecodingError::InvalidArgumentValue),
            Some(x) => Ok(x),
        },
    }
}

fn try_parse_int(value: Option<&str>) -> (r: Result<i32, DecodingError>)
    ensures
        r == spec_try_parse_int(
            match value {
                Some(v) => Some(v@),
                None => None,
            },
        ),
{
    match value {
        None => Err(DecodingError::InvalidArgumentValue),
        Some(v) => match parse_decimal_i32(v) {
            None => Err(DecodingError::InvalidArgumentValue),
            Some(x) => Ok(x),
        },
    }
}


/// `get state` and `get shaft`.
pub open spec fn spec_decode_get(args: Seq<ArgView>) -> Result<Command, DecodingError> {
    if args.len() == 0 {
        Err(DecodingError::NotEnoughArguments)
    } else if args.len() == 1 {
        if args[0].0 == "state"@ {
            Ok(Command::GetState)
        } else if args[0].0 == "shaft"@ {
            Ok(Command::GetShaft)
        } else {
            Err(DecodingError::InvalidArgumentValue)
        }
    } else {
        Err(DecodingError::TooManyArguments)
    }
}

/// `calibrate shaft`.
pub open spec fn spec_decode_calibrate(args: Seq<ArgView>) -> Result<Command, DecodingError> {
    if args.len() == 0 {
        Err(DecodingError::NotEnoughArguments)
    } else if args.len() == 1 {
        if args[0].0 == "shaft"@ {
            Ok(Command::SetControlCommand(ControlCommand::CalibrateShaft))
        } else {
            Err(DecodingError::InvalidArgumentValue)
        }
    } else {
        Err(DecodingError::TooManyArguments)
    }
}

pub open spec fn wrap_target(
    r: Result<i32, DecodingError>,
    make: spec_fn(i32) -> ControlCommand,
) -> Result<Command, DecodingError> {
    match r {
        Ok(x) => Ok(Command::SetControlCommand(make(x))),
        Err(e) => Err(e),
    }
}

/// `set_target zero`, `set_target voltage=<mV>`, `set_target torque=<mA>`,
/// `set_target Velocity=<v>` and `set_target angle=<raw>`.
pub open spec fn spec_decode_set_target(args: Seq<ArgView>) -> Result<Command, DecodingError> {
    if args.len() == 0 {
        Err(DecodingError::NotEnoughArguments)
    } else if args.len() == 1 {
        let name = args[0].0;
        let value = spec_try_parse_int(args[0].1);
        if name == "zero"@ {
            Ok(Command::SetControlCommand(ControlCommand::SetTargetZero))
        } else if name == "voltage"@ {
            wrap_target(value, |x: i32| ControlCommand::SetTargetVoltage(x))
        } else if name == "torque"@ {
            wrap_target(value, |x: i32| ControlCommand::SetTargetTorque(x))
        } else if name == "Velocity"@ {
            wrap_target(value, |x: i32| ControlCommand::SetTargetVelocity(x))
        } else if name == "angle"@ {
            wrap_target(value, |x: i32| ControlCommand::SetTargetPosition(x))
        } else {
            Err(DecodingError::InvalidArgumentValue)
        }
    } else {
        Err(DecodingError::TooManyArguments)
    }
}

pub open spec fn is_gain_name(name: Seq<char>) -> bool {
    name == "kp"@ || name == "p"@ || name == "ki"@ || name == "i"@ || name == "kd"@ || name == "d"@
        || name == "kp_limit"@ || name == "p_limit"@ || name == "ki_limit"@ || name == "i_limit"@
        || name == "kd_limit"@ || name == "d_limit"@
}

/// A `set_pid` argument named `name` whose value was read as `value` (the
/// bits of a fixed-point number, or the error of reading it), applied to the
/// values so far: a gain or a limit is set; an unknown name is an invalid
/// value, and so is a known name whose value could not be read.
pub open spec fn spec_apply_pid_value(
    v: PidValue,
    name: Seq<char>,
    value: Result<i64, DecodingError>,
) -> Result<PidValue, DecodingError> {
    if !is_gain_name(name) {
        Err(DecodingError::InvalidArgumentValue)
    } else {
        match value {
            Err(e) => Err(e),
            Ok(x) => if name == "kp"@ || name == "p"@ {
                Ok(PidValue { kp: x, ..v })
            } else if name == "ki"@ || name == "i"@ {
                Ok(PidValue { ki: x, ..v })
            } else if name == "kd"@ || name == "d"@ {
                Ok(PidValue { kd: x, ..v })
            } else if name == "kp_limit"@ || name == "p_limit"@ {
                Ok(PidValue { kp_limit: Some(x), ..v })
            } else if name == "ki_limit"@ || name == "i_limit"@ {
                Ok(PidValue { ki_limit: Some(x), ..v })
            } else {
                Ok(PidValue { kd_limit: Some(x), ..v })
            },
        }
    }
}

/// What a `set_pid` argument does to the gains, for every name and value:
/// `kp`/`p`, `ki`/`i` and `kd`/`d` set that gain to the value read, and
/// `kp_limit`/`p_limit`, `ki_limit`/`i_limit` and `kd_limit`/`d_limit` set
/// that limit to it, every other field keeping its value; a value that could
/// not be read is that error; any other name is an invalid value.
pub proof fn lemma_pid_argument_sets_its_field(
    v: PidValue,
    name: Seq<char>,
    x: i64,
    e: DecodingError,
)
    ensures
        (name == "kp"@ || name == "p"@) ==> spec_apply_pid_value(v, name, Ok(x)) == Ok::<PidValue, DecodingError>(
            PidValue { kp: x, ki: v.ki, kd: v.kd, kp_limit: v.kp_limit, ki_limit: v.ki_limit, kd_limit: v.kd_limit },
        ),
        (name == "ki"@ || name == "i"@) ==> spec_apply_pid_value(v, name, Ok(x)) == Ok::<PidValue, DecodingError>(
            PidValue { kp: v.kp, ki: x, kd: v.kd, kp_limit: v.kp_limit, ki_limit: v.ki_limit, kd_limit: v.kd_limit },
        ),
        (name == "kd"@ || name == "d"@) ==> spec_apply_pid_value(v, name, Ok(x)) == Ok::<PidValue, DecodingError>(
            PidValue { kp: v.kp, ki: v.ki, kd: x, kp_limit: v.kp_limit, ki_limit: v.ki_limit, kd_limit: v.kd_limit },
        ),
        (name == "kp_limit"@ || name == "p_limit"@) ==> spec_apply_pid_value(v, name, Ok(x)) == Ok::<PidValue, DecodingError>(
            PidValue { kp: v.kp, ki: v.ki, kd: v.kd, kp_limit: Some(x), ki_limit: v.ki_limit, kd_limit: v.kd_limit },
        ),
        (name == "ki_limit"@ || name == "i_limit"@) ==> spec_apply_pid_value(v, name, Ok(x)) == Ok::<PidValue, DecodingError>(
            PidValue { kp: v.kp, ki: v.ki, kd: v.kd, kp_limit: v.kp_limit, ki_limit: Some(x), kd_limit: v.kd_limit },
        ),
        (name == "kd_limit"@ || name == "d_limit"@) ==> spec_apply_pid_value(v, name, Ok(x)) == Ok::<PidValue, DecodingError>(
            PidValue { kp: v.kp, ki: v.ki, kd: v.kd, kp_limit: v.kp_limit, ki_limit: v.ki_limit, kd_limit: Some(x) },
        ),
        is_gain_name(name) ==> spec_apply_pid_value(v, name, Err(e)) == Err::<PidValue, DecodingError>(e),
        !is_gain_name(name) ==> spec_apply_pid_value(v, name, Ok(x)) == Err::<PidValue, DecodingError>(
            DecodingError::InvalidArgumentValue,
        ),
        !is_gain_name(name) ==> spec_apply_pid_value(v, name, Err(e)) == Err::<PidValue, DecodingError>(
            DecodingError::InvalidArgumentValue,
        ),
{
    reveal_strlit("kp");
    assert("kp"@.len() == 2);
    assert("kp"@[0] == 'k');
    assert("kp"@[1] == 'p');
    reveal_strlit("p");
    assert("p"@.len() == 1);
    assert("p"@[0] == 'p');
    reveal_strlit("ki");
    assert("ki"@.len() == 2);
    assert("ki"@[0] == 'k');
    assert("ki"@[1] == 'i');
    reveal_strlit("i");
    assert("i"@.len() == 1);
    assert("i"@[0] == 'i');
    reveal_strlit("kd");
    assert("kd"@.len() == 2);
    assert("kd"@[0] == 'k');
    assert("kd"@[1] == 'd');
    reveal_strlit("d");
    assert("d"@.len() == 1);
    assert("d"@[0] == 'd');
    reveal_strlit("kp_limit");
    assert("kp_limit"@.len() == 8);
    assert("kp_limit"@[0] == 'k');
    assert("kp_limit"@[1] == 'p');
    assert("kp_limit"@[2] == '_');
    assert("kp_limit"@[3] == 'l');
    assert("kp_limit"@[4] == 'i');
    assert("kp_limit"@[5] == 'm');
    assert("kp_limit"@[6] == 'i');
    assert("kp_limit"@[7] == 't');
    reveal_strlit("p_limit");
    assert("p_limit"@.len() == 7);
    assert("p_limit"@[0] == 'p');
    assert("p_limit"@[1] == '_');
    assert("p_limit"@[2] == 'l');
    assert("p_limit"@[3] == 'i');
    assert("p_limit"@[4] == 'm');
    assert("p_limit"@[5] == 'i');
    assert("p_limit"@[6] == 't');
    reveal_strlit("ki_limit");
    assert("ki_limit"@.len() == 8);
    assert("ki_limit"@[0] == 'k');
    assert("ki_limit"@[1] == 'i');
    assert("ki_limit"@[2] == '_');
    assert("ki_limit"@[3] == 'l');
    assert("ki_limit"@[4] == 'i');
    assert("ki_limit"@[5] == 'm');
    assert("ki_limit"@[6] == 'i');
    assert("ki_limit"@[7] == 't');
    reveal_strlit("i_limit");
    assert("i_limit"@.len() == 7);
    assert("i_limit"@[0] == 'i');
    assert("i_limit"@[1] == '_');
    assert("i_limit"@[2] == 'l');
    assert("i_limit"@[3] == 'i');
    assert("i_limit"@[4] == 'm');
    assert("i_limit"@[5] == 'i');
    assert("i_limit"@[6] == 't');
    reveal_strlit("kd_limit");
    assert("kd_limit"@.len() == 8);
    assert("kd_limit"@[0] == 'k');
    assert("kd_limit"@[1] == 'd');
    assert("kd_limit"@[2] == '_');
    assert("kd_limit"@[3] == 'l');
    assert("kd_limit"@[4] == 'i');
    assert("kd_limit"@[5] == 'm');
    assert("kd_limit"@[6] == 'i');
    assert("kd_limit"@[7] == 't');
    reveal_strlit("d_limit");
    assert("d_limit"@.len() == 7);
    assert("d_limit"@[0] == 'd');
    assert("d_limit"@[1] == '_');
    assert("d_limit"@[2] == 'l');
    assert("d_limit"@[3] == 'i');
    assert("d_limit"@[4] == 'm');
    assert("d_limit"@[5] == 'i');
    assert("d_limit"@[6] == 't');
}

/// One gain or limit argument of `set_pid` applied to the values so far.
pub open spec fn spec_apply_pid_arg(v: PidValue, arg: ArgView) -> Result<PidValue, DecodingError> {
    spec_apply_pid_value(v, arg.0, spec_try_parse_fixed(arg.1))
}

/// The values of the first `n` gain arguments of `set_pid`, applied in order
/// to the default values; the first bad argument decides the error.
pub open spec fn spec_pid_values(gains: Seq<ArgView>, n: nat) -> Result<PidValue, DecodingError>
    decreases n,
{
    if n == 0 {
        Ok(spec_default_pid_value())
    } else {
        match spec_pid_values(gains, (n - 1) as nat) {
            Err(e) => Err(e),
            Ok(v) => spec_apply_pid_arg(v, gains[n - 1]),
        }
    }
}

/// `set_pid speed|Current [gain=value ...]`.
pub open spec fn spec_decode_set_pid(args: Seq<ArgView>) -> Result<Command, DecodingError> {
    if args.len() == 0 {
        Err(DecodingError::NotEnoughArguments)
    } else {
        let pid = if args[0].0 == "speed"@ {
            Some(Pid::Velocity)
        } else if args[0].0 == "Current"@ {
            Some(Pid::Current)
        } else {
            None
        };
        match pid {
            None => Err(DecodingError::InvalidArgumentValue),
            Some(p) => match spec_pid_values(args.drop_first(), (args.len() - 1) as nat) {
                Ok(v) => Ok(Command::SetPid(p, v)),
                Err(e) => Err(e),
            },
        }
    }
}

/// A parsed command line as a command.
pub open spec fn spec_decode(name: Seq<char>, args: Seq<ArgView>) -> Result<Command, DecodingError> {
    if name == "echo"@ {
        Ok(Command::Echo)
    } else if name == "get"@ {
        spec_decode_get(args)
    } else if name == "set_pid"@ {
        spec_decode_set_pid(args)
    } else if name == "calibrate"@ {
        spec_decode_calibrate(args)
    } else if name == "set_target"@ {
        spec_decode_set_target(args)
    } else {
        Err(DecodingError::UnknownCommand)
    }
}

/// What each command line decodes to, for every name and argument list:
/// `echo` is echo whatever its arguments; `get state` and `get shaft` are
/// the state and the shaft queries; `calibrate shaft` starts the shaft
/// calibration; `set_target zero` and `set_target <target>=<integer>` set
/// that target to that integer; `set_pid speed ...` updates the velocity
/// controller and `set_pid Current ...` the current controllers, with the
/// default gains when no gain follows; the one-argument commands refuse a
/// missing argument and a second one; any other name is unknown.
pub proof fn lemma_decode_commands(name: Seq<char>, args: Seq<ArgView>, text: Seq<char>, x: i32)
    ensures
        name == "echo"@ ==> spec_decode(name, args) == Ok::<Command, DecodingError>(Command::Echo),
        name == "get"@ && args.len() == 1 && args[0].0 == "state"@ ==> spec_decode(name, args)
            == Ok::<Command, DecodingError>(Command::GetState),
        name == "get"@ && args.len() == 1 && args[0].0 == "shaft"@ ==> spec_decode(name, args)
            == Ok::<Command, DecodingError>(Command::GetShaft),
        name == "calibrate"@ && args.len() == 1 && args[0].0 == "shaft"@ ==> spec_decode(name, args)
            == Ok::<Command, DecodingError>(Command::SetControlCommand(ControlCommand::CalibrateShaft)),
        name == "set_target"@ && args.len() == 1 && args[0].0 == "zero"@ ==> spec_decode(name, args)
            == Ok::<Command, DecodingError>(Command::SetControlCommand(ControlCommand::SetTargetZero)),
        name == "set_target"@ && args.len() == 1 && args[0].0 == "voltage"@ && args[0].1 == Some(text)
            && spec_parse_i32(text) == Some(x) ==> spec_decode(name, args) == Ok::<Command, DecodingError>(
            Command::SetControlCommand(ControlCommand::SetTargetVoltage(x)),
        ),
        name == "set_target"@ && args.len() == 1 && args[0].0 == "torque"@ && args[0].1 == Some(text)
            && spec_parse_i32(text) == Some(x) ==> spec_decode(name, args) == Ok::<Command, DecodingError>(
            Command::SetControlCommand(ControlCommand::SetTargetTorque(x)),
        ),
        name == "set_target"@ && args.len() == 1 && args[0].0 == "Velocity"@ && args[0].1 == Some(text)
            && spec_parse_i32(text) == Some(x) ==> spec_decode(name, args) == Ok::<Command, DecodingError>(
            Command::SetControlCommand(ControlCommand::SetTargetVelocity(x)),
        ),
        name == "set_target"@ && args.len() == 1 && args[0].0 == "angle"@ && args[0].1 == Some(text)
            && spec_parse_i32(text) == Some(x) ==> spec_decode(name, args) == Ok::<Command, DecodingError>(
            Command::SetControlCommand(ControlCommand::SetTargetPosition(x)),
        ),
        (name == "get"@ || name == "calibrate"@ || name == "set_target"@ || name == "set_pid"@)
            && args.len() == 0 ==> spec_decode(name, args) == Err::<Command, DecodingError>(
            DecodingError::NotEnoughArguments,
        ),
        (name == "get"@ || name == "calibrate"@ || name == "set_target"@) && args.len() > 1
            ==> spec_decode(name, args) == Err::<Command, DecodingError>(DecodingError::TooManyArguments),
        name == "set_pid"@ && args.len() == 1 && args[0].0 == "speed"@ ==> spec_decode(name, args)
            == Ok::<Command, DecodingError>(Command::SetPid(Pid::Velocity, spec_default_pid_value())),
        name == "set_pid"@ && args.len() == 1 && args[0].0 == "Current"@ ==> spec_decode(name, args)
            == Ok::<Command, DecodingError>(Command::SetPid(Pid::Current, spec_default_pid_value())),
        name == "set_pid"@ && args.len() >= 1 && args[0].0 == "speed"@ ==> (spec_decode(name, args) matches Ok(c) ==> c matches Command::SetPid(Pid::Velocity, _)),
        name == "set_pid"@ && args.len() >= 1 && args[0].0 == "Current"@ ==> (spec_decode(name, args) matches Ok(c) ==> c matches Command::SetPid(Pid::Current, _)),
        !(name == "echo"@ || name == "get"@ || name == "set_pid"@ || name == "calibrate"@ || name
            == "set_target"@) ==> spec_decode(name, args) == Err::<Command, DecodingError>(
            DecodingError::UnknownCommand,
        ),
{
    reveal_strlit("echo");
    assert("echo"@.len() == 4);
    assert("echo"@[0] == 'e');
    assert("echo"@[1] == 'c');
    assert("echo"@[2] == 'h');
    assert("echo"@[3] == 'o');
    reveal_strlit("get");
    assert("get"@.len() == 3);
    assert("get"@[0] == 'g');
    assert("get"@[1] == 'e');
    assert("get"@[2] == 't');
    reveal_strlit("set_pid");
    assert("set_pid"@.len() == 7);
    assert("set_pid"@[0] == 's');
    assert("set_pid"@[1] == 'e');
    assert("set_pid"@[2] == 't');
    assert("set_pid"@[3] == '_');
    assert("set_pid"@[4] == 'p');
    assert("set_pid"@[5] == 'i');
    assert("set_pid"@[6] == 'd');
    reveal_strlit("calibrate");
    assert("calibrate"@.len() == 9);
    assert("calibrate"@[0] == 'c');
    assert("calibrate"@[1] == 'a');
    assert("calibrate"@[2] == 'l');
    assert("calibrate"@[3] == 'i');
    assert("calibrate"@[4] == 'b');
    assert("calibrate"@[5] == 'r');
    assert("calibrate"@[6] == 'a');
    assert("calibrate"@[7] == 't');
    assert("calibrate"@[8] == 'e');
    reveal_strlit("set_target");
    assert("set_target"@.len() == 10);
    assert("set_target"@[0] == 's');
    assert("set_target"@[1] == 'e');
    assert("set_target"@[2] == 't');
    assert("set_target"@[3] == '_');
    assert("set_target"@[4] == 't');
    assert("set_target"@[5] == 'a');
    assert("set_target"@[6] == 'r');
    assert("set_target"@[7] == 'g');
    assert("set_target"@[8] == 'e');
    assert("set_target"@[9] == 't');
    reveal_strlit("state");
    assert("state"@.len() == 5);
    assert("state"@[0] == 's');
    assert("state"@[1] == 't');
    assert("state"@[2] == 'a');
    assert("state"@[3] == 't');
    assert("state"@[4] == 'e');
    reveal_strlit("shaft");
    assert("shaft"@.len() == 5);
    assert("shaft"@[0] == 's');
    assert("shaft"@[1] == 'h');
    assert("shaft"@[2] == 'a');
    assert("shaft"@[3] == 'f');
    assert("shaft"@[4] == 't');
    reveal_strlit("speed");
    assert("speed"@.len() == 5);
    assert("speed"@[0] == 's');
    assert("speed"@[1] == 'p');
    assert("speed"@[2] == 'e');
    assert("speed"@[3] == 'e');
    assert("speed"@[4] == 'd');
    reveal_strlit("Current");
    assert("Current"@.len() == 7);
    assert("Current"@[0] == 'C');
    assert("Current"@[1] == 'u');
    assert("Current"@[2] == 'r');
    assert("Current"@[3] == 'r');
    assert("Current"@[4] == 'e');
    assert("Current"@[5] == 'n');
    assert("Current"@[6] == 't');
    reveal_strlit("zero");
    assert("zero"@.len() == 4);
    assert("zero"@[0] == 'z');
    assert("zero"@[1] == 'e');
    assert("zero"@[2] == 'r');
    assert("zero"@[3] == 'o');
    reveal_strlit("voltage");
    assert("voltage"@.len() == 7);
    assert("voltage"@[0] == 'v');
    assert("voltage"@[1] == 'o');
    assert("voltage"@[2] == 'l');
    assert("voltage"@[3] == 't');
    assert("voltage"@[4] == 'a');
    assert("voltage"@[5] == 'g');
    assert("voltage"@[6] == 'e');
    reveal_strlit("torque");
    assert("torque"@.len() == 6);
    assert("torque"@[0] == 't');
    assert("torque"@[1] == 'o');
    assert("torque"@[2] == 'r');
    assert("torque"@[3] == 'q');
    assert("torque"@[4] == 'u');
    assert("torque"@[5] == 'e');
    reveal_strlit("Velocity");
    assert("Velocity"@.len() == 8);
    assert("Velocity"@[0] == 'V');
    assert("Velocity"@[1] == 'e');
    assert("Velocity"@[2] == 'l');
    assert("Velocity"@[3] == 'o');
    assert("Velocity"@[4] == 'c');
    assert("Velocity"@[5] == 'i');
    assert("Velocity"@[6] == 't');
    assert("Velocity"@[7] == 'y');
    reveal_strlit("angle");
    assert("angle"@.len() == 5);
    assert("angle"@[0] == 'a');
    assert("angle"@[1] == 'n');
    assert("angle"@[2] == 'g');
    assert("angle"@[3] == 'l');
    assert("angle"@[4] == 'e');
    if name == "set_pid"@ && args.len() == 1 {
        assert(args.drop_first().len() == 0);
    }
}

fn decode_get_command(args: &ArgList) -> (r: Result<Command, DecodingError>)
    ensures
        r == spec_decode_get(args.view()),
{
    let n = args.len();
    if n == 0 {
        Err(DecodingError::NotEnoughArguments)
    } else if n == 1 {
        let argument = args.get(0);
        if str_equals(argument.name, "state") {
            Ok(Command::GetState)
        } else if str_equals(argument.name, "shaft") {
            Ok(Command::GetShaft)
        } else {
            Err(DecodingError::InvalidArgumentValue)
        }
    } else {
        Err(DecodingError::TooManyArguments)
    }
}

fn decode_calibrate_command(args: &ArgList) -> (r: Result<Command, DecodingError>)
    ensures
        r == spec_decode_calibrate(args.view()),
{
    let n = args.len();
    if n == 0 {
        Err(DecodingError::NotEnoughArguments)
    } else if n == 1 {
        let argument = args.get(0);
        if str_equals(argument.name, "shaft") {
            Ok(Command::SetControlCommand(ControlCommand::CalibrateShaft))
        } else {
            Err(DecodingError::InvalidArgumentValue)
        }
    } else {
        Err(DecodingError::TooManyArguments)
    }
}

fn decode_set_control_command(args: &ArgList) -> (r: Result<Command, DecodingError>)
    ensures
        r == spec_decode_set_target(args.view()),
{
    let n = args.len();
    if n == 0 {
        Err(DecodingError::NotEnoughArguments)
    } else if n == 1 {
        let argument = args.get(0);
        let value = argument.value;
        let parameter = if str_equals(argument.name, "zero") {
            ControlCommand::SetTargetZero
        } else if str_equals(argument.name, "voltage") {
            ControlCommand::SetTargetVoltage(try_parse_int(value)?)
        } else if str_equals(argument.name, "torque") {
            ControlCommand::SetTargetTorque(try_parse_int(value)?)
        } else if str_equals(argument.name, "Velocity") {
            ControlCommand::SetTargetVelocity(try_parse_int(value)?)
        } else if str_equals(argument.name, "angle") {
            ControlCommand::SetTargetPosition(try_parse_int(value)?)
        } else {
            return Err(DecodingError::InvalidArgumentValue);
        };
        Ok(Command::SetControlCommand(parameter))
    } else {
        Err(DecodingError::TooManyArguments)
    }
}

fn is_one_of(name: &str, a: &str, b: &str) -> (r: bool)
    ensures
        r == (name@ == a@ || name@ == b@),
{
    str_equals(name, a) || str_equals(name, b)
}

/// Applies a `set_pid` argument whose value has been read already (see
/// `spec_apply_pid_value`).
pub fn apply_pid_value(values: PidValue, name: &str, value: Result<i64, DecodingError>) -> (r: Result<
    PidValue,
    DecodingError,
>)
    ensures
        r == spec_apply_pid_value(values, name@, value),
{
    if is_one_of(name, "kp", "p") {
        Ok(PidValue { kp: value?, ..values })
    } else if is_one_of(name, "ki", "i") {
        Ok(PidValue { ki: value?, ..values })
    } else if is_one_of(name, "kd", "d") {
        Ok(PidValue { kd: value?, ..values })
    } else if is_one_of(name, "kp_limit", "p_limit") {
        Ok(PidValue { kp_limit: Some(value?), ..values })
    } else if is_one_of(name, "ki_limit", "i_limit") {
        Ok(PidValue { ki_limit: Some(value?), ..values })
    } else if is_one_of(name, "kd_limit", "d_limit") {
        Ok(PidValue { kd_limit: Some(value?), ..values })
    } else {
        Err(DecodingError::InvalidArgumentValue)
    }
}

fn apply_pid_arg(values: PidValue, arg: &Arg) -> (r: Result<PidValue, DecodingError>)
    ensures
        r == spec_apply_pid_arg(values, arg.view()),
{
    let name = arg.name;
    if is_one_of(name, "kp", "p") || is_one_of(name, "ki", "i") || is_one_of(name, "kd", "d")
        || is_one_of(name, "kp_limit", "p_limit") || is_one_of(name, "ki_limit", "i_limit")
        || is_one_of(name, "kd_limit", "d_limit") {
        apply_pid_value(values, name, try_parse_fixed(arg.value))
    } else {
        Err(DecodingError::InvalidArgumentValue)
    }
}

proof fn lemma_pid_error_sticks(gains: Seq<ArgView>, n: nat, m: nat)
    requires
        n <= m,
        spec_pid_values(gains, n) is Err,
    ensures
        spec_pid_values(gains, m) == spec_pid_values(gains, n),
    decreases m - n,
{
    if n < m {
        lemma_pid_error_sticks(gains, n, (m - 1) as nat);
    }
}

fn decode_set_pid(args: &ArgList) -> (r: Result<Command, DecodingError>)
    ensures
        r == spec_decode_set_pid(args.view()),
{
    let n = args.len();
    if n == 0 {
        return Err(DecodingError::NotEnoughArguments);
    }
    let first = args.get(0);
    let pid = if str_equals(first.name, "speed") {
        Pid::Velocity
    } else if str_equals(first.name, "Current") {
        Pid::Current
    } else {
        return Err(DecodingError::InvalidArgumentValue);
    };
    let ghost gains = args.view().drop_first();
    let mut values = PidValue::default();
    let mut k: usize = 1;
    while k < n
        invariant
            n == args.view().len(),
            1 <= k <= n,
            gains == args.view().drop_first(),
            spec_pid_values(gains, (k - 1) as nat) == Ok::<PidValue, DecodingError>(values),
        decreases n - k,
    {
        let arg = args.get(k);
        proof {
            assert(arg.view() == gains[k - 1]);
            assert(((k + 1) - 1) as nat == ((k - 1) + 1) as nat);
        }
        match apply_pid_arg(values, arg) {
            Ok(v) => {
                values = v;
            },
            Err(e) => {
                proof {
                    lemma_pid_error_sticks(gains, k as nat, (n - 1) as nat);
                }
                return Err(e);
            },
        }
        k = k + 1;
    }
    Ok(Command::SetPid(pid, values))
}

/// Decodes a parsed command line into a command.
pub fn decode_command(command_envelope: &CommandEnvelope) -> (r: Result<Command, DecodingError>)
    ensures
        r == spec_decode(command_envelope.name@, command_envelope.args.view()),
{
    let name = command_envelope.name;
    if str_equals(name, "echo") {
        Ok(Command::Echo)
    } else if str_equals(name, "get") {
        decode_get_command(&command_envelope.args)
    } else if str_equals(name, "set_pid") {
        decode_set_pid(&command_envelope.args)
    } else if str_equals(name, "calibrate") {
        decode_calibrate_command(&command_envelope.args)
    } else if str_equals(name, "set_target") {
        decode_set_control_command(&command_envelope.args)
    } else {
        Err(DecodingError::UnknownCommand)
    }
}

} // verus!
