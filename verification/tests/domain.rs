use propeller::domain::project::{Header, Note, PitchBend, Project, Track, PITCH_BEND_CENTER, PPQN};
use propeller::domain::store::ProjectStore;
use propeller::domain::validation::{validate, ValidationError};

fn note(start_tick: u32, duration: u32, pitch: u32, velocity: u32) -> Note {
    Note { start_tick, duration, pitch, velocity }
}

fn track(name: &str, channel: u8, instrument: u8, notes: Vec<Note>) -> Track {
    Track { name: name.to_string(), channel, instrument, notes, pitch_bends: vec![] }
}

fn make_valid_project() -> Project {
    Project {
        header: Header { bpm: 120, loop_duration: 1920 },
        tracks: vec![track("piano", 1, 0, vec![note(0, 480, 60, 80)])],
    }
}

#[test]
fn test_header_fields() {
    let h = Header { bpm: 120, loop_duration: 1920 };
    assert_eq!(h.bpm, 120);
    assert_eq!(h.loop_duration, 1920);
}

#[test]
fn test_header_zero_loop_duration() {
    let h = Header { bpm: 120, loop_duration: 0 };
    assert_eq!(h.loop_duration, 0);
}

#[test]
fn test_note_fields() {
    let n = Note { start_tick: 0, duration: 480, pitch: 60, velocity: 80 };
    assert_eq!(n.start_tick, 0);
    assert_eq!(n.duration, 480);
    assert_eq!(n.pitch, 60);
    assert_eq!(n.velocity, 80);
}

#[test]
fn test_track_with_notes() {
    let t = track("piano", 1, 0, vec![note(0, 480, 60, 80), note(480, 480, 62, 80)]);
    assert_eq!(t.notes.len(), 2);
    assert_eq!(t.notes[0].pitch, 60);
    assert_eq!(t.notes[1].pitch, 62);
}

#[test]
fn test_track_empty_notes() {
    let t = track("empty", 1, 0, vec![]);
    assert_eq!(t.notes.len(), 0);
}

#[test]
fn test_ppqn_value() {
    assert_eq!(PPQN, 480u32);
}

#[test]
fn test_new_store_has_no_active() {
    let store = ProjectStore::new();
    assert!(store.active().is_none());
}

#[test]
fn test_set_pending_valid() {
    let mut store = ProjectStore::new();
    assert!(store.set_pending(make_valid_project()).is_ok());
    assert!(store.active().is_none());
}

#[test]
fn test_set_pending_invalid() {
    let mut store = ProjectStore::new();
    let invalid = Project { header: Header { bpm: 0, loop_duration: 1920 }, tracks: vec![] };
    assert!(store.set_pending(invalid).is_err());
    assert!(store.active().is_none());
}

#[test]
fn test_commit_pending_swap() {
    let mut store = ProjectStore::new();
    store.set_pending(make_valid_project()).unwrap();
    assert!(store.commit_pending());
    assert!(store.active().is_some());
}

#[test]
fn test_commit_pending_no_pending() {
    let mut store = ProjectStore::new();
    assert!(!store.commit_pending());
    assert!(store.active().is_none());
}

#[test]
fn test_set_pending_twice_retains_last() {
    let mut store = ProjectStore::new();
    let first = make_valid_project();
    let mut second = make_valid_project();
    second.header.bpm = 140;

    store.set_pending(first).unwrap();
    store.set_pending(second).unwrap();
    store.commit_pending();

    assert_eq!(store.active().unwrap().header.bpm, 140);
}

#[test]
fn test_validate_ok() {
    assert_eq!(validate(&make_valid_project()), Ok(()));
}

#[test]
fn test_validate_bpm_out_of_range() {
    let mut p = make_valid_project();
    p.header.bpm = 19;
    assert!(matches!(validate(&p), Err(ValidationError::BpmOutOfRange { actual: 19 })));
    p.header.bpm = 301;
    assert!(matches!(validate(&p), Err(ValidationError::BpmOutOfRange { actual: 301 })));
}

#[test]
fn test_validate_invalid_channel() {
    let mut p = make_valid_project();
    p.tracks[0].channel = 0;
    assert!(matches!(validate(&p), Err(ValidationError::InvalidMidiChannel { actual: 0, .. })));
    p.tracks[0].channel = 17;
    assert!(matches!(validate(&p), Err(ValidationError::InvalidMidiChannel { actual: 17, .. })));
}

#[test]
fn test_validate_invalid_instrument() {
    let mut p = make_valid_project();
    p.tracks[0].instrument = 128;
    assert!(matches!(validate(&p), Err(ValidationError::InvalidMidiInstrument { actual: 128, .. })));
}

#[test]
fn test_validate_note_duration_zero() {
    let mut p = make_valid_project();
    p.tracks[0].notes[0].duration = 0;
    assert!(matches!(validate(&p), Err(ValidationError::NoteDurationZero { track: 0, note: 0 })));
}

#[test]
fn test_validate_zero_tracks() {
    let p = Project { header: Header { bpm: 120, loop_duration: 1920 }, tracks: vec![] };
    assert_eq!(validate(&p), Ok(()));
}

#[test]
fn test_validate_loop_duration_zero() {
    let p = Project { header: Header { bpm: 120, loop_duration: 0 }, tracks: vec![] };
    assert_eq!(validate(&p), Err(ValidationError::LoopDurationZero));
}

#[test]
fn test_validate_loop_duration_zero_before_channel() {
    let p = Project {
        header: Header { bpm: 120, loop_duration: 0 },
        tracks: vec![track("t", 0, 0, vec![])],
    };
    assert_eq!(validate(&p), Err(ValidationError::LoopDurationZero));
}

#[test]
fn test_validate_note_start_tick_at_boundary() {
    let mut p = make_valid_project();
    p.tracks[0].notes[0].start_tick = 1920;
    assert_eq!(
        validate(&p),
        Err(ValidationError::NoteStartTickOutOfRange { track: 0, note: 0, start_tick: 1920, loop_duration: 1920 })
    );
}

#[test]
fn test_validate_note_start_tick_exceeds() {
    let mut p = make_valid_project();
    p.tracks[0].notes[0].start_tick = 2000;
    assert_eq!(
        validate(&p),
        Err(ValidationError::NoteStartTickOutOfRange { track: 0, note: 0, start_tick: 2000, loop_duration: 1920 })
    );
}

#[test]
fn test_validate_note_duration_exceeds_limit() {
    let mut p = make_valid_project();
    p.tracks[0].notes[0].start_tick = 0;
    p.tracks[0].notes[0].duration = 3841;
    assert_eq!(
        validate(&p),
        Err(ValidationError::NoteDurationExceedsLimit { track: 0, note: 0, duration: 3841, limit: 3840 })
    );
}

#[test]
fn test_validate_note_boundary_ok() {
    let mut p = make_valid_project();
    p.tracks[0].notes[0].start_tick = 0;
    p.tracks[0].notes[0].duration = 3840;
    assert_eq!(validate(&p), Ok(()));
}

#[test]
fn test_validate_overlapping_notes_ok() {
    let p = Project {
        header: Header { bpm: 120, loop_duration: 1920 },
        tracks: vec![track("t", 1, 0, vec![note(0, 480, 60, 80), note(0, 480, 64, 80)])],
    };
    assert_eq!(validate(&p), Ok(()));
}

#[test]
fn test_validate_empty_notes_ok() {
    let p = Project {
        header: Header { bpm: 120, loop_duration: 1920 },
        tracks: vec![track("t", 1, 0, vec![])],
    };
    assert_eq!(validate(&p), Ok(()));
}

#[test]
fn test_validate_priority_duration_zero_wins() {
    let p = Project {
        header: Header { bpm: 120, loop_duration: 1920 },
        tracks: vec![track("t", 1, 0, vec![note(2000, 0, 60, 80)])],
    };
    assert_eq!(validate(&p), Err(ValidationError::NoteDurationZero { track: 0, note: 0 }));
}

#[test]
fn test_validate_note_start_tick_out_of_range_fields() {
    let p = Project {
        header: Header { bpm: 120, loop_duration: 100 },
        tracks: vec![track("t", 1, 0, vec![note(150, 10, 60, 80)])],
    };
    assert_eq!(
        validate(&p),
        Err(ValidationError::NoteStartTickOutOfRange { track: 0, note: 0, start_tick: 150, loop_duration: 100 })
    );
}

// Pitch-bend rules: values are 14-bit and ticks lie inside the loop.
#[test]
fn validate_pitch_bend_value_out_of_range() {
    let mut p = make_valid_project();
    p.tracks[0].pitch_bends = vec![PitchBend { tick: 0, value: PITCH_BEND_CENTER }, PitchBend { tick: 10, value: 16384 }];
    assert_eq!(
        validate(&p),
        Err(ValidationError::PitchBendValueOutOfRange { track: 0, event: 1, actual: 16384 })
    );
}

#[test]
fn validate_pitch_bend_tick_out_of_range() {
    let mut p = make_valid_project();
    p.tracks[0].pitch_bends = vec![PitchBend { tick: 1920, value: 16383 }];
    assert_eq!(
        validate(&p),
        Err(ValidationError::PitchBendTickOutOfRange { track: 0, event: 0, tick: 1920, loop_duration: 1920 })
    );
}

#[test]
fn validate_pitch_bend_extremes_ok() {
    let mut p = make_valid_project();
    p.tracks[0].pitch_bends = vec![PitchBend { tick: 0, value: 0 }, PitchBend { tick: 1919, value: 16383 }];
    assert_eq!(validate(&p), Ok(()));
}

#[test]
fn validate_second_track_reports_its_position() {
    let mut p = make_valid_project();
    p.tracks.push(track("bass", 2, 33, vec![note(0, 480, 40, 90), note(100, 0, 41, 90)]));
    assert_eq!(validate(&p), Err(ValidationError::NoteDurationZero { track: 1, note: 1 }));
}

// A rejected project leaves the store as it was; a staged one replaces the earlier staging
// and the active project only changes at commit.
#[test]
fn store_rejected_project_changes_nothing() {
    let mut store = ProjectStore::new();
    store.set_pending(make_valid_project()).unwrap();
    store.commit_pending();
    let mut bad = make_valid_project();
    bad.header.loop_duration = 0;
    assert_eq!(store.set_pending(bad), Err(ValidationError::LoopDurationZero));
    assert!(store.pending().is_none());
    assert_eq!(store.active().unwrap().header.bpm, 120);
}

#[test]
fn store_staging_keeps_active_until_commit() {
    let mut store = ProjectStore::new();
    store.set_pending(make_valid_project()).unwrap();
    store.commit_pending();
    let mut next = make_valid_project();
    next.header.bpm = 90;
    store.set_pending(next).unwrap();
    assert_eq!(store.active().unwrap().header.bpm, 120);
    assert_eq!(store.pending().unwrap().header.bpm, 90);
    assert!(store.commit_pending());
    assert_eq!(store.active().unwrap().header.bpm, 90);
    assert!(store.pending().is_none());
    assert!(!store.commit_pending());
    assert_eq!(store.active().unwrap().header.bpm, 90);
}

#[test]
fn store_clear_empties_both() {
    let mut store = ProjectStore::new();
    store.set_pending(make_valid_project()).unwrap();
    store.commit_pending();
    store.set_pending(make_valid_project()).unwrap();
    store.clear();
    assert!(store.active().is_none());
    assert!(store.pending().is_none());
}

#[test]
fn project_copy_is_equal() {
    let mut p = make_valid_project();
    p.tracks[0].pitch_bends = vec![PitchBend { tick: 5, value: 100 }];
    let c = p.copy();
    assert_eq!(c.header, p.header);
    assert_eq!(c.tracks[0].name, "piano");
    assert_eq!(c.tracks[0].notes, p.tracks[0].notes);
    assert_eq!(c.tracks[0].pitch_bends, p.tracks[0].pitch_bends);
}

#[test]
fn validate_rejects_pitch_above_127() {
    let mut p = make_valid_project();
    p.tracks[0].notes.push(note(480, 480, 200, 80));
    assert_eq!(validate(&p), Err(ValidationError::InvalidPitch { track: 0, note: 1, actual: 200 }));
}

#[test]
fn validate_rejects_velocity_above_127() {
    let mut p = make_valid_project();
    p.tracks[0].notes[0].velocity = 128;
    assert_eq!(validate(&p), Err(ValidationError::InvalidVelocity { track: 0, note: 0, actual: 128 }));
}

#[test]
fn validate_accepts_pitch_and_velocity_127() {
    let mut p = make_valid_project();
    p.tracks[0].notes[0].pitch = 127;
    p.tracks[0].notes[0].velocity = 127;
    assert_eq!(validate(&p), Ok(()));
}

#[test]
fn validate_reports_timing_before_pitch() {
    let mut p = make_valid_project();
    p.tracks[0].notes[0].pitch = 200;
    p.tracks[0].notes[0].duration = 0;
    assert_eq!(validate(&p), Err(ValidationError::NoteDurationZero { track: 0, note: 0 }));
}
