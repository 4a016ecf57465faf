use vstd::prelude::*;

use crate::domain::project::Project;
use crate::domain::validation::ValidationError;
use crate::midi_clock::receiver::SyncClockState;
use crate::text::str_equal;

verus! {

/// How the engine keeps time.
#[derive(Debug, Clone, Copy, PartialEq, Eq, Structural)]
pub enum EngineMode {
    /// The internal tempo drives the loop.
    Standalone,
    /// The loop runs on the internal tempo and sends MIDI clock.
    Clock,
    /// An external MIDI clock drives the loop.
    Sync,
}

/// The mode a name stands for: "standalone", "clock" or "sync".
pub open spec fn mode_named(s: Seq<char>) -> Option<EngineMode> {
    if s == "standalone"@ {
        Some(EngineMode::Standalone)
    } else if s == "clock"@ {
        Some(EngineMode::Clock)
    } else if s == "sync"@ {
        Some(EngineMode::Sync)
    } else {
        None
    }
}

/// The name of a mode.
pub open spec fn mode_name(m: EngineMode) -> Seq<char> {
    match m {
        EngineMode::Standalone => "standalone"@,
        EngineMode::Clock => "clock"@,
        EngineMode::Sync => "sync"@,
    }
}

impl EngineMode {
    /// The mode named `s`, if it names one.
    pub fn from_str(s: &str) -> (r: Option<EngineMode>)
        ensures
            r == mode_named(s@),
    {
        if str_equal(s, "standalone") {
            Some(EngineMode::Standalone)
        } else if str_equal(s, "clock") {
            Some(EngineMode::Clock)
        } else if str_equal(s, "sync") {
            Some(EngineMode::Sync)
        } else {
            None
        }
    }

    /// The name of the mode.
    pub fn as_str(&self) -> (r: &'static str)
        ensures
            r@ == mode_name(*self),
    {
        match self {
            EngineMode::Standalone => "standalone",
            EngineMode::Clock => "clock",
            EngineMode::Sync => "sync",
        }
    }
}

/// Naming a mode and reading the name back gives the mode.
pub proof fn law_mode_name_round_trip(m: EngineMode)
    ensures
        mode_named(mode_name(m)) == Some(m),
{
    reveal_strlit("standalone");
    reveal_strlit("clock");
    reveal_strlit("sync");
    assert("clock"@.len() == 5 && "standalone"@.len() == 10 && "sync"@.len() == 4);
    assert("clock"@ != "standalone"@);
    assert("sync"@ != "standalone"@);
    assert("sync"@ != "clock"@);
}

/// Daemon-wide settings that requests read and change.
pub struct EngineSettings {
    pub mode: EngineMode,
    pub bpm: u32,
    /// The configured MIDI output port; None when the fallback virtual port is used.
    pub midi_port_name: Option<String>,
    /// The MIDI input port followed in sync mode, when the sync receiver runs.
    pub sync_port_name: Option<String>,
}

impl EngineSettings {
    /// Standalone mode at 120 BPM, with no named ports.
    pub fn new() -> (s: EngineSettings)
        ensures
            s.mode == EngineMode::Standalone,
            s.bpm == 120,
            s.midi_port_name is None,
            s.sync_port_name is None,
    {
        EngineSettings { mode: EngineMode::Standalone, bpm: 120, midi_port_name: None, sync_port_name: None }
    }
}

/// The header of a project as it arrives over the socket.
#[derive(Debug, Clone, Copy, PartialEq, Eq, Structural)]
pub struct WireHeader {
    pub bpm: u32,
    pub loop_duration: u32,
}

/// A track as it arrives over the socket: notes are `[start_tick, duration, pitch, velocity]`
/// and pitch bends `[tick, value]`.
pub struct WireTrack {
    pub name: String,
    pub channel: u8,
    pub instrument: u8,
    pub notes: Vec<[u32; 4]>,
    pub pitch_bends: Vec<[u32; 2]>,
}

/// The tempo argument of set-bpm as sent: a whole number, or one with a fractional part.
#[derive(Debug, Clone, Copy, PartialEq, Eq, Structural)]
pub enum BpmArg {
    /// A whole number, saturated into `u32` (negative numbers become 0).
    Whole(u32),
    /// A number with a fractional part (or not a number at all).
    Fractional,
}

/// A request of the runtime JSON interface.
pub enum Command {
    CreateProject { header: WireHeader, tracks: Vec<WireTrack> },
    ModifyProject { header: WireHeader, tracks: Vec<WireTrack> },
    SetBpm { bpm: BpmArg },
    SetMode { mode: String },
    LoopStart,
    LoopStop,
    ClockStart,
    ClockPause,
    ClockResume,
    ClockStop,
    ListMidiPorts,
    Status,
    Project,
    Stop,
    GetPosition,
}

/// What a status request reports.
pub struct StatusReport {
    pub mode: EngineMode,
    /// The active project's tempo, or the settings' tempo without a project.
    pub bpm: u32,
    /// "started" while the loop runs, waits or is paused; "stopped" otherwise.
    pub clock_state: &'static str,
    pub project_present: bool,
    /// The active project's loop length; absent without a project.
    pub loop_duration: Option<u32>,
    /// The external clock's state; only in sync mode with a running receiver.
    pub sync_clock_state: Option<SyncClockState>,
}

/// The answer to a request.
pub enum Response {
    /// `{"status": "ok"}`
    Success,
    /// `{"status": "error", "code": .., "message": ..}`
    Error { code: &'static str, message: &'static str },
    /// A project was rejected; the message is `validation_message` of the error.
    Invalid(ValidationError),
    /// The engine status.
    Status(StatusReport),
    /// The active and the staged project; each absent when there is none.
    ProjectState { current: Option<Project>, pending: Option<Project> },
    /// The loop position and the number of completed passes; the loop length is absent
    /// without a project.
    Position { tick: u64, loop_duration: Option<u64>, loop_count: u64 },
    /// The list of MIDI output ports, which the caller reads from the system.
    MidiPorts,
}

/// A message of the daemon's internal control protocol.
#[derive(Debug, Clone, Copy, PartialEq, Eq, Structural)]
pub enum IpcMessage {
    Stop,
    Position { tick: u64, loop_duration: Option<u64>, loop_count: u64 },
}

} // verus!
