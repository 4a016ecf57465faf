//! Core logic of the propeller live-coding loop engine: the project model and its
//! validation rules, the project store with its bar-boundary commit, the loop player
//! state machine, the MIDI clock sync receiver, the standalone clock engine, MIDI wire
//! encodings and the request handling of the runtime JSON interface.

pub mod client;
pub mod clock;
pub mod console;
pub mod domain;
pub mod ipc;
pub mod log_path;
pub mod loop_engine;
pub mod midi;
pub mod midi_clock;
pub mod socket_path;
pub mod startup_guard;
pub mod text;
