use propeller::client::{check_reply, format_position_output, ClientError};
use propeller::domain::store::ProjectStore;
use propeller::domain::validation::ValidationError;
use propeller::ipc::handler::{
    build_domain_project, dispatch, request_problem_response, wire_track_to_domain, EngineSnapshot, RequestProblem,
};
use propeller::ipc::messages::{validation_error_code, validation_message};
use propeller::ipc::types::{BpmArg, Command, EngineMode, EngineSettings, Response, WireHeader, WireTrack};
use propeller::loop_engine::model::{EngineState, LoopCommand};
use propeller::midi_clock::receiver::SyncClockState;

fn stopped() -> EngineSnapshot {
    EngineSnapshot { state: EngineState::Stopped, current_tick: 0, loop_duration_ticks: 0, loop_count: 0 }
}

fn piano(notes: Vec<[u32; 4]>) -> WireTrack {
    WireTrack { name: "piano".to_string(), channel: 1, instrument: 0, notes, pitch_bends: vec![] }
}

fn create(store: &mut ProjectStore, settings: &mut EngineSettings, bpm: u32, loop_duration: u32) -> Response {
    let cmd = Command::CreateProject { header: WireHeader { bpm, loop_duration }, tracks: vec![piano(vec![[0, 480, 60, 80]])] };
    dispatch(cmd, store, settings, stopped(), None).response
}

fn is_error(r: &Response, code: &str) -> bool {
    matches!(r, Response::Error { code: c, .. } if *c == code)
}

#[test]
fn engine_settings_new_default_mode_is_standalone() {
    let settings = EngineSettings::new();
    assert_eq!(settings.mode, EngineMode::Standalone);
}

#[test]
fn engine_mode_sync_as_str() {
    assert_eq!(EngineMode::Sync.as_str(), "sync");
}

#[test]
fn engine_mode_sync_from_str() {
    assert_eq!(EngineMode::from_str("sync"), Some(EngineMode::Sync));
}

#[test]
fn engine_mode_names_round_trip() {
    for m in [EngineMode::Standalone, EngineMode::Clock, EngineMode::Sync] {
        assert_eq!(EngineMode::from_str(m.as_str()), Some(m));
    }
    assert_eq!(EngineMode::from_str("Clock"), None);
}

#[test]
fn wire_track_to_domain_maps_pitch_bends() {
    let wire = WireTrack {
        name: "piano".to_string(),
        channel: 1,
        instrument: 0,
        notes: vec![],
        pitch_bends: vec![[0, 8192], [240, 0]],
    };
    let track = wire_track_to_domain(wire);
    assert_eq!(track.pitch_bends.len(), 2);
    assert_eq!(track.pitch_bends[0].tick, 0);
    assert_eq!(track.pitch_bends[0].value, 8192);
    assert_eq!(track.pitch_bends[1].tick, 240);
    assert_eq!(track.pitch_bends[1].value, 0);
}

#[test]
fn wire_notes_keep_pitch_and_velocity_whole() {
    let p = build_domain_project(WireHeader { bpm: 120, loop_duration: 1920 }, vec![piano(vec![[5, 10, 300, 80]])]);
    assert_eq!(p.tracks[0].notes[0].start_tick, 5);
    assert_eq!(p.tracks[0].notes[0].duration, 10);
    assert_eq!(p.tracks[0].notes[0].pitch, 300);
    assert_eq!(p.tracks[0].notes[0].velocity, 80);
}

#[test]
fn create_project_with_wire_pitch_300_is_rejected() {
    let mut store = ProjectStore::new();
    let mut settings = EngineSettings::new();
    let cmd = Command::CreateProject {
        header: WireHeader { bpm: 120, loop_duration: 1920 },
        tracks: vec![piano(vec![[0, 480, 300, 80]])],
    };
    let h = dispatch(cmd, &mut store, &mut settings, stopped(), None);
    assert!(matches!(h.response, Response::Invalid(ValidationError::InvalidPitch { track: 0, note: 0, actual: 300 })));
    assert!(store.active().is_none());
}

#[test]
fn create_project_with_wire_velocity_999_is_rejected() {
    let mut store = ProjectStore::new();
    let mut settings = EngineSettings::new();
    let cmd = Command::CreateProject {
        header: WireHeader { bpm: 120, loop_duration: 1920 },
        tracks: vec![piano(vec![[0, 480, 60, 999]])],
    };
    let h = dispatch(cmd, &mut store, &mut settings, stopped(), None);
    assert!(matches!(h.response, Response::Invalid(ValidationError::InvalidVelocity { track: 0, note: 0, actual: 999 })));
}

#[test]
fn validation_message_pitch_and_velocity() {
    let e = ValidationError::InvalidPitch { track: 1, note: 2, actual: 300 };
    assert_eq!(validation_message(&e), "track 1 note 2: pitch 300 is out of range (0–127)");
    let e = ValidationError::InvalidVelocity { track: 0, note: 4, actual: 128 };
    assert_eq!(validation_message(&e), "track 0 note 4: velocity 128 is out of range (0–127)");
}

#[test]
fn create_project_activates_at_once() {
    let mut store = ProjectStore::new();
    let mut settings = EngineSettings::new();
    assert!(matches!(create(&mut store, &mut settings, 120, 1920), Response::Success));
    assert_eq!(store.active().unwrap().header.loop_duration, 1920);
    assert!(store.pending().is_none());
}

#[test]
fn create_invalid_project_is_rejected() {
    let mut store = ProjectStore::new();
    let mut settings = EngineSettings::new();
    let r = create(&mut store, &mut settings, 10, 1920);
    assert!(matches!(r, Response::Invalid(ValidationError::BpmOutOfRange { actual: 10 })));
    assert!(store.active().is_none());
}

#[test]
fn modify_project_stages_for_boundary() {
    let mut store = ProjectStore::new();
    let mut settings = EngineSettings::new();
    create(&mut store, &mut settings, 120, 1920);
    let cmd = Command::ModifyProject { header: WireHeader { bpm: 140, loop_duration: 960 }, tracks: vec![] };
    let h = dispatch(cmd, &mut store, &mut settings, stopped(), None);
    assert!(matches!(h.response, Response::Success));
    assert!(h.commands.is_empty());
    assert_eq!(store.active().unwrap().header.bpm, 120);
    assert_eq!(store.pending().unwrap().header.bpm, 140);
}

#[test]
fn set_bpm_refusals() {
    let mut store = ProjectStore::new();
    let mut settings = EngineSettings::new();
    let h = dispatch(Command::SetBpm { bpm: BpmArg::Fractional }, &mut store, &mut settings, stopped(), None);
    assert!(is_error(&h.response, "bpm_non_integer"));
    let h = dispatch(Command::SetBpm { bpm: BpmArg::Whole(19) }, &mut store, &mut settings, stopped(), None);
    assert!(is_error(&h.response, "bpm_out_of_range"));
    let h = dispatch(Command::SetBpm { bpm: BpmArg::Whole(301) }, &mut store, &mut settings, stopped(), None);
    assert!(is_error(&h.response, "bpm_out_of_range"));
    assert_eq!(settings.bpm, 120);
    settings.mode = EngineMode::Sync;
    let h = dispatch(Command::SetBpm { bpm: BpmArg::Whole(100) }, &mut store, &mut settings, stopped(), None);
    assert!(is_error(&h.response, "sync_mode_active"));
    assert_eq!(settings.bpm, 120);
}

#[test]
fn set_bpm_stages_active_project_at_new_tempo() {
    let mut store = ProjectStore::new();
    let mut settings = EngineSettings::new();
    create(&mut store, &mut settings, 120, 1920);
    let h = dispatch(Command::SetBpm { bpm: BpmArg::Whole(90) }, &mut store, &mut settings, stopped(), None);
    assert!(matches!(h.response, Response::Success));
    assert_eq!(settings.bpm, 90);
    assert_eq!(store.active().unwrap().header.bpm, 120);
    let staged = store.pending().unwrap();
    assert_eq!(staged.header.bpm, 90);
    assert_eq!(staged.header.loop_duration, 1920);
    assert_eq!(staged.tracks[0].notes.len(), 1);
}

#[test]
fn set_bpm_without_project_only_changes_settings() {
    let mut store = ProjectStore::new();
    let mut settings = EngineSettings::new();
    let h = dispatch(Command::SetBpm { bpm: BpmArg::Whole(300) }, &mut store, &mut settings, stopped(), None);
    assert!(matches!(h.response, Response::Success));
    assert_eq!(settings.bpm, 300);
    assert!(store.pending().is_none());
}

#[test]
fn set_mode_rules() {
    let mut store = ProjectStore::new();
    let mut settings = EngineSettings::new();
    let h = dispatch(Command::SetMode { mode: "jazz".to_string() }, &mut store, &mut settings, stopped(), None);
    assert!(is_error(&h.response, "invalid_mode"));
    let h = dispatch(Command::SetMode { mode: "sync".to_string() }, &mut store, &mut settings, stopped(), None);
    assert!(is_error(&h.response, "sync_requires_port"));
    assert_eq!(settings.mode, EngineMode::Standalone);
    let h = dispatch(
        Command::SetMode { mode: "sync".to_string() },
        &mut store,
        &mut settings,
        stopped(),
        Some(SyncClockState::Waiting),
    );
    assert!(matches!(h.response, Response::Success));
    assert_eq!(settings.mode, EngineMode::Sync);
}

#[test]
fn leaving_clock_mode_while_running_stops_the_clock() {
    let mut store = ProjectStore::new();
    let mut settings = EngineSettings::new();
    settings.mode = EngineMode::Clock;
    let running = EngineSnapshot { state: EngineState::Running, current_tick: 5, loop_duration_ticks: 960, loop_count: 0 };
    let h = dispatch(Command::SetMode { mode: "standalone".to_string() }, &mut store, &mut settings, running, None);
    assert!(matches!(h.response, Response::Success));
    assert_eq!(h.commands, vec![LoopCommand::ClockStop]);
    settings.mode = EngineMode::Clock;
    let h = dispatch(Command::SetMode { mode: "standalone".to_string() }, &mut store, &mut settings, stopped(), None);
    assert!(h.commands.is_empty());
}

#[test]
fn loop_start_follows_mode() {
    let mut store = ProjectStore::new();
    let mut settings = EngineSettings::new();
    let h = dispatch(Command::LoopStart, &mut store, &mut settings, stopped(), None);
    assert!(matches!(h.response, Response::Success));
    assert_eq!(h.commands, vec![LoopCommand::Start]);

    settings.mode = EngineMode::Clock;
    let h = dispatch(Command::LoopStart, &mut store, &mut settings, stopped(), None);
    assert!(is_error(&h.response, "no_project"));
    assert!(h.commands.is_empty());
    create(&mut store, &mut settings, 120, 1920);
    let h = dispatch(Command::LoopStart, &mut store, &mut settings, stopped(), None);
    assert_eq!(h.commands, vec![LoopCommand::ClockStart]);

    settings.mode = EngineMode::Sync;
    let h = dispatch(Command::LoopStart, &mut store, &mut settings, stopped(), None);
    assert!(matches!(h.response, Response::Error { code: "sync_mode_active", message } if message.contains("0xFA")));
    let h = dispatch(Command::LoopStop, &mut store, &mut settings, stopped(), None);
    assert!(matches!(h.response, Response::Error { code: "sync_mode_active", message } if message.contains("0xFC")));
}

#[test]
fn loop_stop_follows_mode() {
    let mut store = ProjectStore::new();
    let mut settings = EngineSettings::new();
    assert_eq!(dispatch(Command::LoopStop, &mut store, &mut settings, stopped(), None).commands, vec![LoopCommand::Stop]);
    settings.mode = EngineMode::Clock;
    assert_eq!(dispatch(Command::LoopStop, &mut store, &mut settings, stopped(), None).commands, vec![LoopCommand::ClockStop]);
}

#[test]
fn clock_requests_pass_to_player() {
    let mut store = ProjectStore::new();
    let mut settings = EngineSettings::new();
    let h = dispatch(Command::ClockStart, &mut store, &mut settings, stopped(), None);
    assert!(is_error(&h.response, "no_project"));
    create(&mut store, &mut settings, 120, 1920);
    assert_eq!(dispatch(Command::ClockStart, &mut store, &mut settings, stopped(), None).commands, vec![LoopCommand::ClockStart]);
    assert_eq!(dispatch(Command::ClockPause, &mut store, &mut settings, stopped(), None).commands, vec![LoopCommand::ClockPause]);
    assert_eq!(dispatch(Command::ClockResume, &mut store, &mut settings, stopped(), None).commands, vec![LoopCommand::ClockResume]);
    assert_eq!(dispatch(Command::ClockStop, &mut store, &mut settings, stopped(), None).commands, vec![LoopCommand::ClockStop]);
}

#[test]
fn status_reports_project_and_mode() {
    let mut store = ProjectStore::new();
    let mut settings = EngineSettings::new();
    let h = dispatch(Command::Status, &mut store, &mut settings, stopped(), Some(SyncClockState::Tracking));
    match h.response {
        Response::Status(s) => {
            assert_eq!(s.mode, EngineMode::Standalone);
            assert_eq!(s.bpm, 120);
            assert_eq!(s.clock_state, "stopped");
            assert!(!s.project_present);
            assert_eq!(s.loop_duration, None);
            assert_eq!(s.sync_clock_state, None);
        },
        _ => panic!("expected a status"),
    }
    create(&mut store, &mut settings, 140, 1920);
    settings.mode = EngineMode::Sync;
    let waiting = EngineSnapshot { state: EngineState::Waiting, current_tick: 0, loop_duration_ticks: 0, loop_count: 0 };
    let h = dispatch(Command::Status, &mut store, &mut settings, waiting, Some(SyncClockState::Tracking));
    match h.response {
        Response::Status(s) => {
            assert_eq!(s.bpm, 140);
            assert_eq!(s.clock_state, "started");
            assert!(s.project_present);
            assert_eq!(s.loop_duration, Some(1920));
            assert_eq!(s.sync_clock_state, Some(SyncClockState::Tracking));
        },
        _ => panic!("expected a status"),
    }
}

#[test]
fn project_request_returns_both_projects() {
    let mut store = ProjectStore::new();
    let mut settings = EngineSettings::new();
    match dispatch(Command::Project, &mut store, &mut settings, stopped(), None).response {
        Response::ProjectState { current, pending } => {
            assert!(current.is_none());
            assert!(pending.is_none());
        },
        _ => panic!("expected project state"),
    }
    create(&mut store, &mut settings, 120, 1920);
    match dispatch(Command::Project, &mut store, &mut settings, stopped(), None).response {
        Response::ProjectState { current, pending } => {
            assert_eq!(current.unwrap().tracks[0].notes[0].pitch, 60);
            assert!(pending.is_none());
        },
        _ => panic!("expected project state"),
    }
}

#[test]
fn get_position_reports_tick_and_length() {
    let mut store = ProjectStore::new();
    let mut settings = EngineSettings::new();
    match dispatch(Command::GetPosition, &mut store, &mut settings, stopped(), None).response {
        Response::Position { tick, loop_duration, loop_count } => {
            assert_eq!(tick, 0);
            assert_eq!(loop_duration, None);
            assert_eq!(loop_count, 0);
        },
        _ => panic!("expected a position"),
    }
    let playing = EngineSnapshot { state: EngineState::Running, current_tick: 1234, loop_duration_ticks: 4800, loop_count: 3 };
    match dispatch(Command::GetPosition, &mut store, &mut settings, playing, None).response {
        Response::Position { tick, loop_duration, loop_count } => {
            assert_eq!(tick, 1234);
            assert_eq!(loop_duration, Some(4800));
            assert_eq!(loop_count, 3);
        },
        _ => panic!("expected a position"),
    }
}

#[test]
fn stop_and_list_ports_answer_without_commands() {
    let mut store = ProjectStore::new();
    let mut settings = EngineSettings::new();
    let h = dispatch(Command::Stop, &mut store, &mut settings, stopped(), None);
    assert!(matches!(h.response, Response::Success));
    assert!(h.commands.is_empty());
    let h = dispatch(Command::ListMidiPorts, &mut store, &mut settings, stopped(), None);
    assert!(matches!(h.response, Response::MidiPorts));
}

#[test]
fn unreadable_requests_get_their_error() {
    assert!(is_error(&request_problem_response(RequestProblem::Malformed), "parse_error"));
    assert!(is_error(&request_problem_response(RequestProblem::MissingCommand), "missing_command"));
    assert!(is_error(&request_problem_response(RequestProblem::UnknownCommand), "unknown_command"));
}

#[test]
fn validation_messages() {
    assert_eq!(validation_error_code(), "validation_error");
    assert_eq!(validation_message(&ValidationError::LoopDurationZero), "loop_duration must be greater than 0");
    assert_eq!(validation_message(&ValidationError::BpmOutOfRange { actual: 301 }), "BPM 301 is out of range (20–300)");
    assert_eq!(
        validation_message(&ValidationError::NoteStartTickOutOfRange { track: 0, note: 0, start_tick: 100, loop_duration: 50 }),
        "track 0 note 0: start_tick 100 is out of range (must be < loop_duration 50)"
    );
    assert_eq!(
        validation_message(&ValidationError::NoteDurationExceedsLimit { track: 2, note: 11, duration: 3841, limit: 3840 }),
        "track 2 note 11: duration 3841 exceeds limit 3840 (2 * loop_duration)"
    );
    assert_eq!(
        validation_message(&ValidationError::PitchBendValueOutOfRange { track: 1, event: 0, actual: 16384 }),
        "track 1 pitch-bend 0: value 16384 is out of range (0–16383)"
    );
}

#[test]
fn format_position_output_with_loop_duration() {
    assert_eq!(format_position_output(1234, Some(4800)), "1234/4800");
}

#[test]
fn format_position_output_no_project() {
    assert_eq!(format_position_output(0, None), "0/-");
}

#[test]
fn check_reply_reads_daemon_errors() {
    assert!(check_reply(Some("ok"), None).is_ok());
    assert!(check_reply(None, Some("x")).is_ok());
    match check_reply(Some("error"), Some("BPM must be between 20 and 300")) {
        Err(ClientError::Daemon { message }) => assert_eq!(message, "BPM must be between 20 and 300"),
        _ => panic!("expected a daemon error"),
    }
    match check_reply(Some("error"), None) {
        Err(ClientError::Daemon { message }) => assert_eq!(message, "unknown error"),
        _ => panic!("expected a daemon error"),
    }
}

#[test]
fn validation_message_names_every_number_of_the_error() {
    let e = ValidationError::NoteDurationExceedsLimit { track: 7, note: 12, duration: 4001, limit: 3840 };
    let m = validation_message(&e);
    for n in ["7", "12", "4001", "3840"] {
        assert!(m.contains(n), "{m} lacks {n}");
    }
    let e = ValidationError::PitchBendTickOutOfRange { track: 3, event: 9, tick: 2000, loop_duration: 1920 };
    let m = validation_message(&e);
    for n in ["3", "9", "2000", "1920"] {
        assert!(m.contains(n), "{m} lacks {n}");
    }
}
