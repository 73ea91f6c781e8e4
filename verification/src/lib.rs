//! A small greeter: an optional name in, a fixed-format greeting out.
//!
//! The core operation is [`cli::Cli::run`], a total, pure function: given
//! `Some(name)` it returns `"Hello, <name>!"` with the name reproduced
//! verbatim; given `None` it returns `"Hello, world!"`.

pub mod cli;
