use vstd::prelude::*;
use crate::command::Command;
use crate::serial::decoder::{decode_command, spec_decode};
use crate::serial::errors::{spec_from_decoding, spec_from_parsing, CommandChainError};
use crate::serial::parser::{parse, spec_parse, RawCommand};

verus! {

/// A received line as a command: parsed, then decoded.
pub open spec fn spec_decode_line(text: Seq<char>) -> Result<Command, CommandChainError> {
    match spec_parse(text) {
        Err(e) => Err(spec_from_parsing(e)),
        Ok((name, args)) => match spec_decode(name, args) {
            Ok(c) => Ok(c),
            Err(e) => Err(spec_from_decoding(e)),
        },
    }
}

/// Parses and decodes a line received over the serial port; a parsing error
/// comes before any decoding error.
pub fn decode_line(text: &str) -> (r: Result<Command, CommandChainError>)
    ensures
        r == spec_decode_line(text@),
{
    let raw_command = RawCommand::serial(text);
    let parsed = match parse(&raw_command) {
        Ok(p) => p,
        Err(e) => {
            return Err(CommandChainError::from(e));
        },
    };
    match decode_command(&parsed) {
        Ok(c) => Ok(c),
        Err(e) => Err(CommandChainError::from(e)),
    }
}

/// The text that `core::str::from_utf8` decodes a byte sequence into, or
/// `None` where the bytes are not valid UTF-8.
pub uninterp spec fn utf8_text(bytes: Seq<u8>) -> Option<Seq<char>>;

/// `core::str::from_utf8`: the bytes as text when they are valid UTF-8. The
/// result depends on the bytes alone; what it is on given bytes is left to
/// the standard library.
#[verifier::external_body]
fn str_from_utf8<'a>(bytes: &'a [u8]) -> (r: Option<&'a str>)
    ensures
        match r {
            Some(text) => utf8_text(bytes@) == Some(text@),
            None => utf8_text(bytes@) is None,
        },
{
    core::str::from_utf8(bytes).ok()
}

/// A line received as bytes: `None` when it is not valid UTF-8 (the line is
/// then dropped), otherwise the line parsed and decoded as text.
pub fn decode_line_bytes(line: &[u8]) -> (r: Option<Result<Command, CommandChainError>>)
    ensures
        match utf8_text(line@) {
            None => r is None,
            Some(text) => r == Some(spec_decode_line(text)),
        },
{
    match str_from_utf8(line) {
        None => None,
        Some(text) => Some(decode_line(text)),
    }
}

} // verus!
