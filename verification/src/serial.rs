//! The serial command interface: a line is parsed into a command name and
//! arguments, then decoded into a command.

pub mod errors;
pub mod parser;
pub mod decoder;
pub mod line_reader;
pub mod command_chain;
