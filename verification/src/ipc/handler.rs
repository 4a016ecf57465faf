use vstd::prelude::*;

use crate::domain::project::{
    Header, Note, PitchBend, Project, ProjectView, Track, TrackView, tracks_view,
};
use crate::domain::store::{ProjectStore, StoreView};
use crate::domain::validation::{lemma_validate_accepts_exactly_valid_projects, validation_result, valid_project, track_ok};
use crate::loop_engine::model::{EngineState, LoopCommand};
use crate::midi_clock::receiver::SyncClockState;
use super::types::{
    mode_named, BpmArg, Command, EngineMode, EngineSettings, Response, StatusReport, WireHeader,
    WireTrack,
};

verus! {

/// A note as sent, `[start_tick, duration, pitch, velocity]`, every value kept whole.
pub open spec fn note_from_wire(a: [u32; 4]) -> Note {
    Note { start_tick: a[0], duration: a[1], pitch: a[2], velocity: a[3] }
}

/// A pitch-bend event as sent, `[tick, value]`.
pub open spec fn bend_from_wire(a: [u32; 2]) -> PitchBend {
    PitchBend { tick: a[0], value: a[1] }
}

/// The data of a track as sent.
pub open spec fn track_from_wire(t: WireTrack) -> TrackView {
    TrackView {
        name: t.name@,
        channel: t.channel,
        instrument: t.instrument,
        notes: t.notes@.map_values(|a: [u32; 4]| note_from_wire(a)),
        pitch_bends: t.pitch_bends@.map_values(|a: [u32; 2]| bend_from_wire(a)),
    }
}

/// The data of a project as sent.
pub open spec fn project_from_wire(h: WireHeader, tracks: Seq<WireTrack>) -> ProjectView {
    ProjectView {
        header: Header { bpm: h.bpm, loop_duration: h.loop_duration },
        tracks: tracks.map_values(|t: WireTrack| track_from_wire(t)),
    }
}

fn track_from_wire_ref(t: &WireTrack) -> (r: Track)
    ensures
        r@ == track_from_wire(*t),
{
    let mut notes: Vec<Note> = Vec::new();
    let mut i: usize = 0;
    while i < t.notes.len()
        invariant
            i <= t.notes.len(),
            notes@ == t.notes@.take(i as int).map_values(|a: [u32; 4]| note_from_wire(a)),
        decreases t.notes.len() - i,
    {
        let a = t.notes[i];
        notes.push(Note { start_tick: a[0], duration: a[1], pitch: a[2], velocity: a[3] });
        i = i + 1;
        assert(notes@ =~= t.notes@.take(i as int).map_values(|a: [u32; 4]| note_from_wire(a)));
    }
    let mut bends: Vec<PitchBend> = Vec::new();
    let mut j: usize = 0;
    while j < t.pitch_bends.len()
        invariant
            j <= t.pitch_bends.len(),
            bends@ == t.pitch_bends@.take(j as int).map_values(|a: [u32; 2]| bend_from_wire(a)),
        decreases t.pitch_bends.len() - j,
    {
        let a = t.pitch_bends[j];
        bends.push(PitchBend { tick: a[0], value: a[1] });
        j = j + 1;
        assert(bends@ =~= t.pitch_bends@.take(j as int).map_values(|a: [u32; 2]| bend_from_wire(a)));
    }
    assert(t.notes@.take(t.notes.len() as int) =~= t.notes@);
    assert(t.pitch_bends@.take(t.pitch_bends.len() as int) =~= t.pitch_bends@);
    Track { name: t.name.clone(), channel: t.channel, instrument: t.instrument, notes, pitch_bends: bends }
}

/// Turns a track as sent into a domain track.
pub fn wire_track_to_domain(t: WireTrack) -> (r: Track)
    ensures
        r@ == track_from_wire(t),
{
    track_from_wire_ref(&t)
}

/// Turns a project as sent into a domain project.
pub fn build_domain_project(header: WireHeader, tracks: Vec<WireTrack>) -> (r: Project)
    ensures
        r@ == project_from_wire(header, tracks@),
{
    let mut out: Vec<Track> = Vec::new();
    let mut i: usize = 0;
    while i < tracks.len()
        invariant
            i <= tracks.len(),
            out@.len() == i,
            forall|k: int| 0 <= k < i ==> #[trigger] out@[k]@ == track_from_wire(tracks@[k]),
        decreases tracks.len() - i,
    {
        out.push(track_from_wire_ref(&tracks[i]));
        i = i + 1;
    }
    let p = Project { header: Header { bpm: header.bpm, loop_duration: header.loop_duration }, tracks: out };
    assert(tracks_view(out@) =~= tracks@.map_values(|t: WireTrack| track_from_wire(t)));
    p
}

/// What the engine player reports, read just before a request is handled.
#[derive(Debug, Clone, Copy, PartialEq, Eq, Structural)]
pub struct EngineSnapshot {
    pub state: EngineState,
    pub current_tick: u64,
    pub loop_duration_ticks: u64,
    /// Completed loop passes since the player started.
    pub loop_count: u64,
}

/// The answer to a request and the commands to hand to the loop player, in order.
pub struct Handled {
    pub response: Response,
    pub commands: Vec<LoopCommand>,
}

/// The data of an optional project.
pub open spec fn opt_view(p: Option<Project>) -> Option<ProjectView> {
    match p {
        Some(q) => Some(q@),
        None => None,
    }
}

/// A project with another tempo and everything else kept.
pub open spec fn with_bpm(p: ProjectView, bpm: u32) -> ProjectView {
    ProjectView { header: Header { bpm, loop_duration: p.header.loop_duration }, tracks: p.tracks }
}

/// The status a request reports.
pub open spec fn status_of(store: StoreView, settings_mode: EngineMode, settings_bpm: u32, engine: EngineSnapshot, sync_state: Option<SyncClockState>) -> StatusReport {
    StatusReport {
        mode: settings_mode,
        bpm: match store.active {
            Some(p) => p.header.bpm,
            None => settings_bpm,
        },
        clock_state: if engine.state == EngineState::Stopped { "stopped" } else { "started" },
        project_present: store.active is Some,
        loop_duration: match store.active {
            Some(p) => Some(p.header.loop_duration),
            None => None,
        },
        sync_clock_state: if settings_mode == EngineMode::Sync { sync_state } else { None },
    }
}

/// The answer a request gets when the line is not JSON, has no "command" field, or names no
/// known command.
pub enum RequestProblem {
    Malformed,
    MissingCommand,
    UnknownCommand,
}

/// The error response for a request that could not be read.
pub fn request_problem_response(p: RequestProblem) -> (r: Response)
    ensures
        r == (match p {
            RequestProblem::Malformed => Response::Error { code: "parse_error", message: "malformed JSON" },
            RequestProblem::MissingCommand => Response::Error {
                code: "missing_command",
                message: "request must include a \"command\" field",
            },
            RequestProblem::UnknownCommand => Response::Error { code: "unknown_command", message: "unrecognised command value" },
        }),
{
    match p {
        RequestProblem::Malformed => Response::Error { code: "parse_error", message: "malformed JSON" },
        RequestProblem::MissingCommand => Response::Error {
            code: "missing_command",
            message: "request must include a \"command\" field",
        },
        RequestProblem::UnknownCommand => Response::Error { code: "unknown_command", message: "unrecognised command value" },
    }
}

fn no_commands() -> (r: Vec<LoopCommand>)
    ensures
        r@ == Seq::<LoopCommand>::empty(),
{
    Vec::new()
}

fn one_command(c: LoopCommand) -> (r: Vec<LoopCommand>)
    ensures
        r@ == seq![c],
{
    let mut v = Vec::new();
    v.push(c);
    assert(v@ =~= seq![c]);
    v
}

/// create-project: a valid project is staged and committed at once; an invalid one is
/// rejected with the first broken rule and changes nothing.
pub fn handle_create_project(header: WireHeader, tracks: Vec<WireTrack>, store: &mut ProjectStore) -> (r: Response)
    ensures
        ({
            let p = project_from_wire(header, tracks@);
            match validation_result(p) {
                Ok(()) => r == Response::Success && final(store)@ == old(store)@.set_pending(p).commit(),
                Err(e) => r == Response::Invalid(e) && final(store)@ == old(store)@,
            }
        }),
{
    let project = build_domain_project(header, tracks);
    match store.set_pending(project) {
        Ok(()) => {
            store.commit_pending();
            Response::Success
        },
        Err(e) => Response::Invalid(e),
    }
}

/// modify-project: a valid project is staged for the next bar boundary; an invalid one is
/// rejected with the first broken rule and changes nothing.
pub fn handle_project(header: WireHeader, tracks: Vec<WireTrack>, store: &mut ProjectStore) -> (r: Response)
    ensures
        ({
            let p = project_from_wire(header, tracks@);
            &&& final(store)@ == old(store)@.set_pending(p)
            &&& match validation_result(p) {
                Ok(()) => r == Response::Success,
                Err(e) => r == Response::Invalid(e),
            }
        }),
{
    let project = build_domain_project(header, tracks);
    match store.set_pending(project) {
        Ok(()) => Response::Success,
        Err(e) => Response::Invalid(e),
    }
}

/// Why a set-bpm request is refused, if it is: in sync mode, for a non-whole number, and
/// outside 20..=300.
pub open spec fn bpm_refusal(mode: EngineMode, bpm: BpmArg) -> Option<Response> {
    if mode == EngineMode::Sync {
        Some(Response::Error {
            code: "sync_mode_active",
            message: "set-bpm is not allowed in sync mode; tempo is controlled by the external clock",
        })
    } else {
        match bpm {
            BpmArg::Fractional => Some(Response::Error { code: "bpm_non_integer", message: "BPM must be a whole number" }),
            BpmArg::Whole(b) => if b < 20 || b > 300 {
                Some(Response::Error { code: "bpm_out_of_range", message: "BPM must be between 20 and 300" })
            } else {
                None
            },
        }
    }
}

/// The store after an accepted set-bpm: a copy of the active project at the new tempo is
/// staged; without an active project nothing changes.
pub open spec fn store_after_bpm(s: StoreView, bpm: u32) -> StoreView {
    match s.active {
        Some(p) => s.set_pending(with_bpm(p, bpm)),
        None => s,
    }
}

/// set-bpm: a refused request changes nothing; otherwise the settings take the tempo and,
/// when a project is active, a copy of it at the new tempo is staged for the next bar boundary.
pub fn handle_set_bpm(bpm: BpmArg, store: &mut ProjectStore, settings: &mut EngineSettings) -> (r: Response)
    ensures
        match bpm_refusal(old(settings).mode, bpm) {
            Some(e) => r == e && *final(settings) == *old(settings) && final(store)@ == old(store)@,
            None => {
                &&& bpm matches BpmArg::Whole(b)
                &&& r == Response::Success
                &&& final(settings).bpm == b
                &&& final(settings).mode == old(settings).mode
                &&& final(settings).midi_port_name == old(settings).midi_port_name
                &&& final(settings).sync_port_name == old(settings).sync_port_name
                &&& final(store)@ == store_after_bpm(old(store)@, b)
            },
        },
{
    if settings.mode == EngineMode::Sync {
        return Response::Error {
            code: "sync_mode_active",
            message: "set-bpm is not allowed in sync mode; tempo is controlled by the external clock",
        };
    }
    let b = match bpm {
        BpmArg::Fractional => {
            return Response::Error { code: "bpm_non_integer", message: "BPM must be a whole number" };
        },
        BpmArg::Whole(b) => b,
    };
    if b < 20 || b > 300 {
        return Response::Error { code: "bpm_out_of_range", message: "BPM must be between 20 and 300" };
    }
    settings.bpm = b;
    let rebuilt = match store.active() {
        Some(p) => Some(Project {
            header: Header { bpm: b, loop_duration: p.header.loop_duration },
            tracks: crate::domain::project::copy_tracks(&p.tracks),
        }),
        None => None,
    };
    match rebuilt {
        Some(p) => {
            let _ = store.set_pending(p);
        },
        None => {},
    }
    Response::Success
}

/// set-bpm is accepted exactly when the engine is not in sync mode and the tempo is a whole
/// number in 20..=300: in standalone and clock mode alike. In sync mode it is refused as such,
/// whatever the tempo.
pub proof fn law_set_bpm_accepted_outside_sync(mode: EngineMode, bpm: BpmArg)
    ensures
        bpm_refusal(mode, bpm) is None <==> (mode != EngineMode::Sync && bpm is Whole && 20 <= bpm->Whole_0
            <= 300),
        mode == EngineMode::Sync ==> (bpm_refusal(mode, bpm) is Some && bpm_refusal(mode, bpm)->0 is Error
            && bpm_refusal(mode, bpm)->0->Error_code@ == "sync_mode_active"@),
{
}

/// An accepted set-bpm while a project is active always stages that project at the new
/// tempo, with its loop length and tracks unchanged, and leaves the active project playing.
pub proof fn law_set_bpm_stages_active_project(s: StoreView, bpm: u32)
    requires
        s.well_formed(),
        s.active is Some,
        20 <= bpm <= 300,
    ensures
        store_after_bpm(s, bpm).active == s.active,
        store_after_bpm(s, bpm).pending == Some(with_bpm(s.active->0, bpm)),
        store_after_bpm(s, bpm).well_formed(),
{
    let p = s.active->0;
    let q = with_bpm(p, bpm);
    assert(valid_project(q)) by {
        assert forall|i: int| 0 <= i < q.tracks.len() implies #[trigger] track_ok(q.tracks[i], q.header.loop_duration) by {
            assert(track_ok(p.tracks[i], p.header.loop_duration));
        }
    }
    lemma_validate_accepts_exactly_valid_projects(q);
}

/// Why a set-mode request is refused, if it is: an unknown mode, or sync without a running
/// sync receiver.
pub open spec fn mode_refusal(mode: Seq<char>, sync_state: Option<SyncClockState>) -> Option<Response> {
    match mode_named(mode) {
        None => Some(Response::Error {
            code: "invalid_mode",
            message: "unrecognised mode; use standalone, clock, or sync",
        }),
        Some(m) => if m == EngineMode::Sync && sync_state is None {
            Some(Response::Error { code: "sync_requires_port", message: "sync mode requires --sync at startup" })
        } else {
            None
        },
    }
}

/// The player commands of a mode change: leaving clock mode while the loop runs or is paused
/// stops the clock.
pub open spec fn mode_change_commands(from: EngineMode, to: EngineMode, state: EngineState) -> Seq<LoopCommand> {
    if from == EngineMode::Clock && to != EngineMode::Clock && (state == EngineState::Running || state
        == EngineState::Paused) {
        seq![LoopCommand::ClockStop]
    } else {
        Seq::empty()
    }
}

/// set-mode: a refused request changes nothing; otherwise the mode changes, with the player
/// commands of `mode_change_commands`.
pub fn handle_set_mode(mode: &str, settings: &mut EngineSettings, engine: EngineSnapshot, sync_state: Option<SyncClockState>) -> (h: Handled)
    ensures
        match mode_refusal(mode@, sync_state) {
            Some(e) => h.response == e && h.commands@.len() == 0 && *final(settings) == *old(settings),
            None => {
                &&& mode_named(mode@) matches Some(m)
                &&& h.response == Response::Success
                &&& final(settings).mode == m
                &&& final(settings).bpm == old(settings).bpm
                &&& final(settings).midi_port_name == old(settings).midi_port_name
                &&& final(settings).sync_port_name == old(settings).sync_port_name
                &&& h.commands@ == mode_change_commands(old(settings).mode, m, engine.state)
            },
        },
{
    match EngineMode::from_str(mode) {
        Some(new_mode) => {
            if new_mode == EngineMode::Sync && sync_state.is_none() {
                return Handled {
                    response: Response::Error { code: "sync_requires_port", message: "sync mode requires --sync at startup" },
                    commands: no_commands(),
                };
            }
            let commands = if settings.mode == EngineMode::Clock && new_mode != EngineMode::Clock
                && (engine.state == EngineState::Running || engine.state == EngineState::Paused) {
                one_command(LoopCommand::ClockStop)
            } else {
                no_commands()
            };
            settings.mode = new_mode;
            Handled { response: Response::Success, commands }
        },
        None => Handled {
            response: Response::Error {
                code: "invalid_mode",
                message: "unrecognised mode; use standalone, clock, or sync",
            },
            commands: no_commands(),
        },
    }
}

/// status: the engine status; see `status_of`.
pub fn handle_status(store: &ProjectStore, settings: &EngineSettings, engine: EngineSnapshot, sync_state: Option<SyncClockState>) -> (r: Response)
    ensures
        r == Response::Status(status_of(store@, settings.mode, settings.bpm, engine, sync_state)),
{
    let active = store.active();
    let clock_state: &'static str = if engine.state == EngineState::Stopped { "stopped" } else { "started" };
    let bpm = match active {
        Some(p) => p.header.bpm,
        None => settings.bpm,
    };
    let loop_duration = match active {
        Some(p) => Some(p.header.loop_duration),
        None => None,
    };
    let sync_clock_state = if settings.mode == EngineMode::Sync { sync_state } else { None };
    Response::Status(StatusReport {
        mode: settings.mode,
        bpm,
        clock_state,
        project_present: active.is_some(),
        loop_duration,
        sync_clock_state,
    })
}

/// project: copies of the active and the staged project, each absent when there is none.
pub fn handle_get_project(store: &ProjectStore) -> (r: Response)
    ensures
        (r matches Response::ProjectState { current, pending }
            && opt_view(current) == store@.active && opt_view(pending) == store@.pending),
{
    let current = match store.active() {
        Some(p) => Some(p.copy()),
        None => None,
    };
    let pending = match store.pending() {
        Some(p) => Some(p.copy()),
        None => None,
    };
    Response::ProjectState { current, pending }
}

/// The answer to get-position: the current tick and the loop length, absent while it is 0.
pub open spec fn position_of(engine: EngineSnapshot) -> Response {
    Response::Position {
        tick: engine.current_tick,
        loop_duration: if engine.loop_duration_ticks == 0 { None } else { Some(engine.loop_duration_ticks) },
        loop_count: engine.loop_count,
    }
}

/// get-position: see `position_of`.
pub fn handle_get_position(engine: EngineSnapshot) -> (r: Response)
    ensures
        r == position_of(engine),
{
    let loop_duration = if engine.loop_duration_ticks == 0 { None } else { Some(engine.loop_duration_ticks) };
    Response::Position { tick: engine.current_tick, loop_duration, loop_count: engine.loop_count }
}

/// What a transport request does in each mode: loop-start and loop-stop follow the mode
/// (clock mode starts and stops the clock; sync mode refuses, since the external clock rules);
/// clock-start needs an active project; the other clock requests pass straight to the player.
pub open spec fn transport_outcome(cmd: Command, mode: EngineMode, has_active: bool) -> (Response, Seq<LoopCommand>) {
    let no_project = Response::Error { code: "no_project", message: "clock-start requires an active project" };
    match cmd {
        Command::LoopStart => match mode {
            EngineMode::Clock => if has_active {
                (Response::Success, seq![LoopCommand::ClockStart])
            } else {
                (no_project, Seq::empty())
            },
            EngineMode::Sync => (Response::Error {
                code: "sync_mode_active",
                message: "in sync mode playback is controlled by the external clock; send MIDI Start (0xFA) from your device",
            }, Seq::empty()),
            EngineMode::Standalone => (Response::Success, seq![LoopCommand::Start]),
        },
        Command::LoopStop => match mode {
            EngineMode::Clock => (Response::Success, seq![LoopCommand::ClockStop]),
            EngineMode::Sync => (Response::Error {
                code: "sync_mode_active",
                message: "in sync mode playback is controlled by the external clock; send MIDI Stop (0xFC) from your device",
            }, Seq::empty()),
            EngineMode::Standalone => (Response::Success, seq![LoopCommand::Stop]),
        },
        Command::ClockStart => if has_active {
            (Response::Success, seq![LoopCommand::ClockStart])
        } else {
            (no_project, Seq::empty())
        },
        Command::ClockPause => (Response::Success, seq![LoopCommand::ClockPause]),
        Command::ClockResume => (Response::Success, seq![LoopCommand::ClockResume]),
        Command::ClockStop => (Response::Success, seq![LoopCommand::ClockStop]),
        _ => (Response::Success, Seq::empty()),
    }
}

fn transport(cmd: &Command, mode: EngineMode, has_active: bool) -> (h: Handled)
    requires
        cmd is LoopStart || cmd is LoopStop || cmd is ClockStart || cmd is ClockPause
            || cmd is ClockResume || cmd is ClockStop,
    ensures
        (h.response, h.commands@) == transport_outcome(*cmd, mode, has_active),
{
    let no_project = Response::Error { code: "no_project", message: "clock-start requires an active project" };
    match cmd {
        Command::LoopStart => match mode {
            EngineMode::Clock => if has_active {
                Handled { response: Response::Success, commands: one_command(LoopCommand::ClockStart) }
            } else {
                Handled { response: no_project, commands: no_commands() }
            },
            EngineMode::Sync => Handled {
                response: Response::Error {
                    code: "sync_mode_active",
                    message: "in sync mode playback is controlled by the external clock; send MIDI Start (0xFA) from your device",
                },
                commands: no_commands(),
            },
            EngineMode::Standalone => Handled { response: Response::Success, commands: one_command(LoopCommand::Start) },
        },
        Command::LoopStop => match mode {
            EngineMode::Clock => Handled { response: Response::Success, commands: one_command(LoopCommand::ClockStop) },
            EngineMode::Sync => Handled {
                response: Response::Error {
                    code: "sync_mode_active",
                    message: "in sync mode playback is controlled by the external clock; send MIDI Stop (0xFC) from your device",
                },
                commands: no_commands(),
            },
            EngineMode::Standalone => Handled { response: Response::Success, commands: one_command(LoopCommand::Stop) },
        },
        Command::ClockStart => if has_active {
            Handled { response: Response::Success, commands: one_command(LoopCommand::ClockStart) }
        } else {
            Handled { response: no_project, commands: no_commands() }
        },
        Command::ClockPause => Handled { response: Response::Success, commands: one_command(LoopCommand::ClockPause) },
        Command::ClockResume => Handled { response: Response::Success, commands: one_command(LoopCommand::ClockResume) },
        _ => Handled { response: Response::Success, commands: one_command(LoopCommand::ClockStop) },
    }
}

/// Handles one request: the answer, the changes to the store and the settings, and the
/// commands for the loop player, which the caller hands on in order. `engine` is what the
/// player reported and `sync_state` the state of the sync receiver, when one runs.
pub fn dispatch(cmd: Command, store: &mut ProjectStore, settings: &mut EngineSettings, engine: EngineSnapshot, sync_state: Option<SyncClockState>) -> (h: Handled)
    ensures
        match cmd {
            Command::CreateProject { header, tracks } => {
                let p = project_from_wire(header, tracks@);
                &&& h.commands@.len() == 0
                &&& *final(settings) == *old(settings)
                &&& match validation_result(p) {
                    Ok(()) => h.response == Response::Success && final(store)@ == old(store)@.set_pending(p).commit(),
                    Err(e) => h.response == Response::Invalid(e) && final(store)@ == old(store)@,
                }
            },
            Command::ModifyProject { header, tracks } => {
                let p = project_from_wire(header, tracks@);
                &&& h.commands@.len() == 0
                &&& *final(settings) == *old(settings)
                &&& final(store)@ == old(store)@.set_pending(p)
                &&& match validation_result(p) {
                    Ok(()) => h.response == Response::Success,
                    Err(e) => h.response == Response::Invalid(e),
                }
            },
            Command::SetBpm { bpm } => {
                &&& h.commands@.len() == 0
                &&& match bpm_refusal(old(settings).mode, bpm) {
                    Some(e) => h.response == e && *final(settings) == *old(settings) && final(store)@ == old(store)@,
                    None => {
                        &&& bpm matches BpmArg::Whole(b)
                        &&& h.response == Response::Success
                        &&& final(settings).bpm == b
                        &&& final(settings).mode == old(settings).mode
                        &&& final(settings).midi_port_name == old(settings).midi_port_name
                        &&& final(settings).sync_port_name == old(settings).sync_port_name
                        &&& final(store)@ == store_after_bpm(old(store)@, b)
                    },
                }
            },
            Command::SetMode { mode } => {
                &&& final(store)@ == old(store)@
                &&& match mode_refusal(mode@, sync_state) {
                    Some(e) => h.response == e && h.commands@.len() == 0 && *final(settings) == *old(settings),
                    None => {
                        &&& mode_named(mode@) matches Some(m)
                        &&& h.response == Response::Success
                        &&& final(settings).mode == m
                        &&& final(settings).bpm == old(settings).bpm
                        &&& final(settings).midi_port_name == old(settings).midi_port_name
                        &&& final(settings).sync_port_name == old(settings).sync_port_name
                        &&& h.commands@ == mode_change_commands(old(settings).mode, m, engine.state)
                    },
                }
            },
            Command::ListMidiPorts => h.response == Response::MidiPorts && h.commands@.len() == 0
                && *final(settings) == *old(settings) && final(store)@ == old(store)@,
            Command::Status => h.response == Response::Status(status_of(old(store)@, old(settings).mode, old(settings).bpm, engine, sync_state))
                && h.commands@.len() == 0 && *final(settings) == *old(settings) && final(store)@ == old(store)@,
            Command::Project => {
                &&& h.response matches Response::ProjectState { current, pending }
                &&& opt_view(current) == old(store)@.active
                &&& opt_view(pending) == old(store)@.pending
                &&& h.commands@.len() == 0
                &&& *final(settings) == *old(settings)
                &&& final(store)@ == old(store)@
            },
            Command::Stop => h.response == Response::Success && h.commands@.len() == 0
                && *final(settings) == *old(settings) && final(store)@ == old(store)@,
            Command::GetPosition => h.response == position_of(engine) && h.commands@.len() == 0
                && *final(settings) == *old(settings) && final(store)@ == old(store)@,
            _ => {
                &&& (h.response, h.commands@) == transport_outcome(cmd, old(settings).mode, old(store)@.active is Some)
                &&& *final(settings) == *old(settings)
                &&& final(store)@ == old(store)@
            },
        },
{
    match cmd {
        Command::CreateProject { header, tracks } => Handled {
            response: handle_create_project(header, tracks, store),
            commands: no_commands(),
        },
        Command::ModifyProject { header, tracks } => Handled {
            response: handle_project(header, tracks, store),
            commands: no_commands(),
        },
        Command::SetBpm { bpm } => Handled { response: handle_set_bpm(bpm, store, settings), commands: no_commands() },
        Command::SetMode { mode } => handle_set_mode(mode.as_str(), settings, engine, sync_state),
        Command::ListMidiPorts => Handled { response: Response::MidiPorts, commands: no_commands() },
        Command::Status => Handled {
            response: handle_status(store, settings, engine, sync_state),
            commands: no_commands(),
        },
        Command::Project => Handled { response: handle_get_project(store), commands: no_commands() },
        Command::Stop => Handled { response: Response::Success, commands: no_commands() },
        Command::GetPosition => Handled { response: handle_get_position(engine), commands: no_commands() },
        _ => {
            let has_active = store.active().is_some();
            transport(&cmd, settings.mode, has_active)
        },
    }
}

} // verus!
