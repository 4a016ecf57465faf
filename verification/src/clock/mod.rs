//! The standalone MIDI clock: its output interface, pulse timing, transport state machine
//! and request handling.

pub mod console;
pub mod engine;
pub mod ipc;
pub mod laws;
pub mod output;
pub mod scheduler;
