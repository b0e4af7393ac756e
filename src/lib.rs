//! A Unicode-native state machine for terminal control streams.
//!
//! The machine consumes Unicode scalar values, one at a time, and classifies
//! them into low-level events: printable characters, control characters,
//! control sequences, escape sequences, device control strings and operating
//! system commands. It assigns no meaning to those events; a terminal
//! emulator built on top of it decides what each command does. For example,
//! given `"\x1b[10;10H"` the machine reports a control sequence with the
//! final byte `H` and the parameters `[10, 10]`.
//!
//! The automaton follows Paul Flo Williams's parser for DEC ANSI-compatible
//! video terminals, extended to accept C1 controls directly and to work on
//! whole scalars rather than bytes. Legacy character sets are not supported.
//!
//! [`VtMachine`] is the entry point. [`VtMachine::write_char`] returns the
//! events that one scalar causes as a [`VtEvents`]; alternatively
//! [`VtMachine::write_char_to`] delivers them to a [`VtHandler`]. A byte
//! stream can be decoded into scalars with `u8char::stream::U8CharStream`
//! and fed through [`VtMachine::write_u8char`].
//!
//! What the machine does is stated by the spec function
//! [`machine::step`], and [`laws`] proves properties of whole streams.
use vstd::prelude::*;

pub mod event;
pub mod handler;
pub mod intermediates;
pub mod laws;
pub mod machine;
pub mod params;
pub mod scalar;
pub mod transition;

pub use event::{VtEvent, VtEvents};
pub use handler::VtHandler;
pub use intermediates::VtIntermediates;
pub use machine::VtMachine;
pub use params::VtParams;
pub use transition::{Action, State, Transition};
