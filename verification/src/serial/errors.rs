use vstd::prelude::*;

verus! {

/// Why a line could not be split into a command name and arguments.
#[derive(Debug, Clone, Copy, PartialEq, Eq, Structural)]
pub enum ParsingError {
    Empty,
    InvalidCommandFormat,
    InvalidArgumentFormat,
    TooManyArguments,
}

/// Why a parsed line is not a known command.
#[derive(Debug, Clone, Copy, PartialEq, Eq, Structural)]
pub enum DecodingError {
    UnknownCommand,
    NotEnoughArguments,
    TooManyArguments,
    InvalidArgumentName,
    InvalidArgumentValue,
}

/// Any error of the parse-then-decode chain.
#[derive(Debug, Clone, Copy, PartialEq, Eq, Structural)]
pub enum CommandChainError {
    Empty,
    InvalidCommandFormat,
    InvalidArgumentFormat,
    TooManyArguments,
    UnknownCommand,
    NotEnoughArguments,
    InvalidArgumentName,
    InvalidArgumentValue,
}

pub open spec fn spec_from_parsing(e: ParsingError) -> CommandChainError {
    match e {
        ParsingError::Empty => CommandChainError::Empty,
        ParsingError::InvalidCommandFormat => CommandChainError::InvalidCommandFormat,
        ParsingError::InvalidArgumentFormat => CommandChainError::InvalidArgumentFormat,
        ParsingError::TooManyArguments => CommandChainError::TooManyArguments,
    }
}

pub open spec fn spec_from_decoding(e: DecodingError) -> CommandChainError {
    match e {
        DecodingError::UnknownCommand => CommandChainError::UnknownCommand,
        DecodingError::NotEnoughArguments => CommandChainError::NotEnoughArguments,
        DecodingError::TooManyArguments => CommandChainError::TooManyArguments,
        DecodingError::InvalidArgumentName => CommandChainError::InvalidArgumentName,
        DecodingError::InvalidArgumentValue => CommandChainError::InvalidArgumentValue,
    }
}

impl From<ParsingError> for CommandChainError {
    fn from(e: ParsingError) -> (r: Self) {
        match e {
            ParsingError::Empty => CommandChainError::Empty,
            ParsingError::InvalidCommandFormat => CommandChainError::InvalidCommandFormat,
            ParsingError::InvalidArgumentFormat => CommandChainError::InvalidArgumentFormat,
            ParsingError::TooManyArguments => CommandChainError::TooManyArguments,
        }
    }
}

impl vstd::std_specs::convert::FromSpecImpl<ParsingError> for CommandChainError {
    open spec fn obeys_from_spec() -> bool {
        true
    }

    open spec fn from_spec(e: ParsingError) -> CommandChainError {
        spec_from_parsing(e)
    }
}

impl From<DecodingError> for CommandChainError {
    fn from(e: DecodingError) -> (r: Self) {
        match e {
            DecodingError::UnknownCommand => CommandChainError::UnknownCommand,
            DecodingError::NotEnoughArguments => CommandChainError::NotEnoughArguments,
            DecodingError::TooManyArguments => CommandChainError::TooManyArguments,
            DecodingError::InvalidArgumentName => CommandChainError::InvalidArgumentName,
            DecodingError::InvalidArgumentValue => CommandChainError::InvalidArgumentValue,
        }
    }
}

impl vstd::std_specs::convert::FromSpecImpl<DecodingError> for CommandChainError {
    open spec fn obeys_from_spec() -> bool {
        true
    }

    open spec fn from_spec(e: DecodingError) -> CommandChainError {
        spec_from_decoding(e)
    }
}

} // verus!
