use vstd::prelude::*;

use crate::ipc::handler::RequestProblem;
use super::engine::{ClockCommand, ClockState};

verus! {

/// A request to the clock daemon.
#[derive(Debug, Clone, Copy, PartialEq, Eq, Structural)]
pub enum Command {
    Start,
    Pause,
    Resume,
    Stop,
    Status,
    Bpm { bpm: u32 },
    /// Sets the song position pointer (0..=16383 MIDI beats) while stopped.
    Seek { position: u16 },
}

/// What the clock daemon was started with.
pub struct ClockSettings {
    /// Name of the MIDI port in use: the created virtual port, or the external port named at
    /// startup.
    pub port_name: String,
}

/// What the clock reported, read just before a request is handled.
#[derive(Debug, Clone, Copy, PartialEq, Eq, Structural)]
pub struct ClockSnapshot {
    pub state: ClockState,
    pub bpm: u32,
    pub pulse_count: u64,
    pub position: u16,
}

/// The answer to a clock request.
pub enum ClockResponse {
    /// `{"status": "ok"}`
    Success,
    /// `{"status": "error", "code": .., "message": ..}`
    Error { code: &'static str, message: &'static str },
    /// The clock status; `state` is reported by `state_str`.
    Status { state: ClockState, bpm: u32, port: String, tick: u64, position: u16 },
}

/// The name a status reports for a state.
pub open spec fn state_name(state: ClockState) -> Seq<char> {
    match state {
        ClockState::Stopped => "stopped"@,
        ClockState::Running => "running"@,
        ClockState::Paused => "paused"@,
    }
}

/// The name of a state: "stopped", "running" or "paused".
pub fn state_str(state: ClockState) -> (r: &'static str)
    ensures
        r@ == state_name(state),
{
    match state {
        ClockState::Stopped => "stopped",
        ClockState::Running => "running",
        ClockState::Paused => "paused",
    }
}

/// The highest song position a Song Position Pointer carries (14 bits).
pub const MAX_SONG_POSITION: u16 = 16383;

/// Why a clock request is refused, if it is: pause needs a running clock, resume a paused
/// one, seek a stopped one and a position of 14 bits; a tempo must lie in 20..=300.
pub open spec fn clock_refusal(cmd: Command, snap: ClockSnapshot) -> Option<ClockResponse> {
    match cmd {
        Command::Pause => if snap.state != ClockState::Running {
            Some(ClockResponse::Error { code: "invalid_state", message: "pause requires the clock to be running" })
        } else {
            None
        },
        Command::Resume => if snap.state != ClockState::Paused {
            Some(ClockResponse::Error { code: "invalid_state", message: "resume requires the clock to be paused" })
        } else {
            None
        },
        Command::Bpm { bpm } => if bpm < 20 || bpm > 300 {
            Some(ClockResponse::Error { code: "bpm_out_of_range", message: "BPM must be between 20 and 300" })
        } else {
            None
        },
        Command::Seek { position } => if position > MAX_SONG_POSITION {
            Some(ClockResponse::Error { code: "position_out_of_range", message: "position must be between 0 and 16383" })
        } else if snap.state != ClockState::Stopped {
            Some(ClockResponse::Error { code: "invalid_state", message: "seek requires the clock to be stopped" })
        } else {
            None
        },
        _ => None,
    }
}

/// The command an accepted request hands to the clock; a status request hands none.
pub open spec fn requested_command(cmd: Command) -> Option<ClockCommand> {
    match cmd {
        Command::Start => Some(ClockCommand::Start),
        Command::Pause => Some(ClockCommand::Pause),
        Command::Resume => Some(ClockCommand::Resume),
        Command::Stop => Some(ClockCommand::Stop),
        Command::Bpm { bpm } => Some(ClockCommand::SetBpm(bpm)),
        Command::Seek { position } => Some(ClockCommand::Seek(position)),
        Command::Status => None,
    }
}

/// Pause and resume requests are accepted exactly in the state they leave: a pause when the
/// clock is running, a resume when it is paused; an accepted one hands the matching command to
/// the clock.
pub proof fn law_pause_resume_accepted_in_their_state(snap: ClockSnapshot)
    ensures
        clock_refusal(Command::Pause, snap) is None <==> snap.state == ClockState::Running,
        clock_refusal(Command::Resume, snap) is None <==> snap.state == ClockState::Paused,
        requested_command(Command::Pause) == Some(ClockCommand::Pause),
        requested_command(Command::Resume) == Some(ClockCommand::Resume),
{
}

/// Handles one clock request: a refused request is answered with its error and commands
/// nothing; a status request is answered with the snapshot and the port name; any other
/// request is answered with success and hands its command to the clock.
pub fn dispatch(cmd: Command, snap: ClockSnapshot, settings: &ClockSettings) -> (r: (ClockResponse, Option<ClockCommand>))
    ensures
        match clock_refusal(cmd, snap) {
            Some(e) => r.0 == e && r.1 is None,
            None => if cmd is Status {
                &&& r.0 matches ClockResponse::Status { state, bpm, port, tick, position }
                &&& state == snap.state
                &&& bpm == snap.bpm
                &&& port@ == settings.port_name@
                &&& tick == snap.pulse_count
                &&& position == snap.position
                &&& r.1 is None
            } else {
                r.0 == ClockResponse::Success && r.1 == requested_command(cmd)
            },
        },
{
    match cmd {
        Command::Start => (ClockResponse::Success, Some(ClockCommand::Start)),
        Command::Pause => if snap.state != ClockState::Running {
            (ClockResponse::Error { code: "invalid_state", message: "pause requires the clock to be running" }, None)
        } else {
            (ClockResponse::Success, Some(ClockCommand::Pause))
        },
        Command::Resume => if snap.state != ClockState::Paused {
            (ClockResponse::Error { code: "invalid_state", message: "resume requires the clock to be paused" }, None)
        } else {
            (ClockResponse::Success, Some(ClockCommand::Resume))
        },
        Command::Stop => (ClockResponse::Success, Some(ClockCommand::Stop)),
        Command::Bpm { bpm } => if bpm < 20 || bpm > 300 {
            (ClockResponse::Error { code: "bpm_out_of_range", message: "BPM must be between 20 and 300" }, None)
        } else {
            (ClockResponse::Success, Some(ClockCommand::SetBpm(bpm)))
        },
        Command::Seek { position } => if position > MAX_SONG_POSITION {
            (ClockResponse::Error { code: "position_out_of_range", message: "position must be between 0 and 16383" }, None)
        } else if snap.state != ClockState::Stopped {
            (ClockResponse::Error { code: "invalid_state", message: "seek requires the clock to be stopped" }, None)
        } else {
            (ClockResponse::Success, Some(ClockCommand::Seek(position)))
        },
        Command::Status => (
            ClockResponse::Status {
                state: snap.state,
                bpm: snap.bpm,
                port: settings.port_name.clone(),
                tick: snap.pulse_count,
                position: snap.position,
            },
            None,
        ),
    }
}

/// The error answer to a clock request that could not be read.
pub fn problem_response(p: RequestProblem) -> (r: ClockResponse)
    ensures
        r == (match p {
            RequestProblem::Malformed => ClockResponse::Error { code: "parse_error", message: "malformed JSON" },
            RequestProblem::MissingCommand => ClockResponse::Error {
                code: "missing_command",
                message: "request must include a \"command\" field",
            },
            RequestProblem::UnknownCommand => ClockResponse::Error { code: "unknown_command", message: "unrecognised command value" },
        }),
{
    match p {
        RequestProblem::Malformed => ClockResponse::Error { code: "parse_error", message: "malformed JSON" },
        RequestProblem::MissingCommand => ClockResponse::Error {
            code: "missing_command",
            message: "request must include a \"command\" field",
        },
        RequestProblem::UnknownCommand => ClockResponse::Error { code: "unknown_command", message: "unrecognised command value" },
    }
}

} // verus!
