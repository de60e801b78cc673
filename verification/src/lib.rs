//! Bridge from a MIDI input to a serial device: note-on and note-off messages
//! become short text commands, one per line.
//!
//! The crate holds the decisions of the bridge: what a raw MIDI message means,
//! which command it becomes, what goes onto the serial line, which input port a
//! name selects, and when the connection is closed. Opening devices, prompting
//! and sleeping are left to the program around it.

pub mod command;
pub mod connection;
pub mod event;
pub mod lifecycle;
pub mod pipeline;
pub mod sink;
