//! The core of an embeddable interactive line shell: a live input line fed by
//! key events, a registry of named commands, the dispatch of completed lines,
//! and the drawing instructions that keep the prompt intact under log output.
//!
//! Everything here is a function from plain values to plain values. The host
//! owns the terminal device, the event source and the locks; it feeds events
//! in and carries drawing instructions out.

pub mod command;
pub mod command_dispatcher;
pub mod draw;
pub mod event;
pub mod log;
pub mod string;
pub mod terminal;
pub mod text;
