use propeller::domain::project::{Header, Note, Project, Track};
use propeller::domain::store::ProjectStore;
use propeller::loop_engine::events::LoopEvent;
use propeller::loop_engine::model::{AnchorUpdate, EngineState, LoopCommand};
use propeller::loop_engine::player::LoopEngine;
use propeller::loop_engine::scheduler::Scheduler;
use propeller::midi::MidiEvent;
use propeller::midi_clock::receiver::{MidiClockReceiver, SyncClockState};
use propeller::midi::ClockMessage;
use propeller::midi_clock::tracker::PulseTracker;

fn store_with(notes: Vec<Note>, loop_duration: u32, bpm: u32) -> ProjectStore {
    let mut store = ProjectStore::new();
    store
        .set_pending(Project {
            header: Header { bpm, loop_duration },
            tracks: vec![Track { name: "piano".to_string(), channel: 1, instrument: 0, notes, pitch_bends: vec![] }],
        })
        .unwrap();
    store.commit_pending();
    store
}

#[test]
fn new_engine_state_is_stopped() {
    let engine = LoopEngine::new();
    assert_eq!(engine.state(), EngineState::Stopped);
}

#[test]
fn new_engine_current_tick_is_zero() {
    let engine = LoopEngine::new();
    assert_eq!(engine.current_tick(), 0);
}

#[test]
fn new_engine_loop_duration_ticks_is_zero() {
    let engine = LoopEngine::new();
    assert_eq!(engine.loop_duration_ticks(), 0);
}

#[test]
fn engine_state_paused_exists() {
    let state = EngineState::Paused;
    assert_eq!(state, EngineState::Paused);
}

#[test]
fn test_loop_event_priority() {
    assert_eq!(LoopEvent::NoteOff { channel: 1, pitch: 60 }.priority(), 0);
    assert_eq!(LoopEvent::NoteOn { channel: 1, pitch: 60, velocity: 80 }.priority(), 1);
    assert_eq!(LoopEvent::ClockPulse.priority(), 2);
}

#[test]
fn scheduler_micros_per_tick_bpm_120() {
    // 60_000_000 / (120 * 480) = 1041.66..
    assert_eq!(Scheduler::new(120).micros_per_tick(), 1041);
}

#[test]
fn scheduler_micros_per_tick_bpm_125() {
    assert_eq!(Scheduler::new(125).micros_per_tick(), 1000);
}

#[test]
fn scheduler_tick_offset() {
    let s = Scheduler::new(125);
    assert_eq!(s.tick_offset_micros(0), 0);
    assert_eq!(s.tick_offset_micros(480), 480_000);
}

#[test]
fn start_without_project_waits() {
    let mut engine = LoopEngine::new();
    let mut store = ProjectStore::new();
    let step = engine.start(&store);
    assert_eq!(engine.state(), EngineState::Waiting);
    assert!(step.midi.is_empty());
    // Nothing staged: still waiting.
    let step = engine.poll_waiting(&mut store);
    assert_eq!(engine.state(), EngineState::Waiting);
    assert_eq!(step.anchor, AnchorUpdate::Keep);
    // A staged project is committed and playing starts.
    store
        .set_pending(Project {
            header: Header { bpm: 125, loop_duration: 960 },
            tracks: vec![],
        })
        .unwrap();
    let step = engine.poll_waiting(&mut store);
    assert_eq!(engine.state(), EngineState::Running);
    assert_eq!(step.anchor, AnchorUpdate::StartAfterLatency);
    assert!(store.active().is_some());
    assert_eq!(engine.bpm(), 125);
}

#[test]
fn pass_plays_notes_in_order_and_resets_at_boundary() {
    let mut store = store_with(vec![Note { start_tick: 0, duration: 480, pitch: 60, velocity: 80 }], 1920, 125);
    let mut engine = LoopEngine::new();
    let step = engine.start(&store);
    assert_eq!(step.anchor, AnchorUpdate::StartAfterLatency);
    assert_eq!(engine.state(), EngineState::Running);

    let (step, ready) = engine.begin_pass(&store);
    assert!(ready);
    assert_eq!(step.midi, vec![MidiEvent::ProgramChange { channel: 1, program: 0 }]);

    assert_eq!(engine.next_event_offset_micros(), Some(0));
    assert_eq!(engine.fire_next_event(), MidiEvent::NoteOn { channel: 1, pitch: 60, velocity: 80 });
    assert_eq!(engine.current_tick(), 0);
    assert_eq!(engine.next_event_offset_micros(), Some(480_000));
    assert_eq!(engine.fire_next_event(), MidiEvent::NoteOff { channel: 1, pitch: 60 });
    assert_eq!(engine.current_tick(), 480);
    assert_eq!(engine.next_event_offset_micros(), None);

    let step = engine.finish_pass(&mut store);
    assert_eq!(step.anchor, AnchorUpdate::AdvanceBy(1920 * 1000));
    assert_eq!(engine.current_tick(), 0);
    assert_eq!(engine.loop_duration_ticks(), 1920);

    // The next pass sends no program change: the channel already has its instrument.
    let (step, ready) = engine.begin_pass(&store);
    assert!(ready);
    assert!(step.midi.is_empty());
}

#[test]
fn stop_releases_sounding_notes() {
    let store = store_with(vec![Note { start_tick: 0, duration: 480, pitch: 60, velocity: 80 }], 1920, 120);
    let mut engine = LoopEngine::new();
    engine.start(&store);
    engine.begin_pass(&store);
    engine.fire_next_event();
    let step = engine.stop(&store);
    assert_eq!(engine.state(), EngineState::Stopped);
    assert_eq!(engine.current_tick(), 0);
    assert_eq!(step.midi, vec![MidiEvent::NoteOff { channel: 1, pitch: 60 }]);
}

#[test]
fn clock_start_sends_start_and_pulses() {
    let store = store_with(vec![], 96, 120);
    let mut engine = LoopEngine::new();
    let step = engine.clock_start(&store);
    assert_eq!(step.midi, vec![MidiEvent::ClockStart]);
    assert!(engine.is_clock_mode());
    let (_, ready) = engine.begin_pass(&store);
    assert!(ready);
    // 96 ticks at 20 ticks per pulse: pulses at 0, 20, 40, 60, 80.
    let mut pulses = 0;
    while engine.next_event_offset_micros().is_some() {
        assert_eq!(engine.fire_next_event(), MidiEvent::ClockTick);
        pulses += 1;
    }
    assert_eq!(pulses, 5);
}

#[test]
fn clock_pause_freezes_position_and_resume_plays_the_rest() {
    let store = store_with(
        vec![Note { start_tick: 0, duration: 10, pitch: 60, velocity: 80 }, Note { start_tick: 900, duration: 10, pitch: 62, velocity: 80 }],
        960,
        125,
    );
    let mut engine = LoopEngine::new();
    engine.clock_start(&store);
    engine.begin_pass(&store);
    // Tick 0: note-on, then the first pulse; tick 10: the note-off.
    assert_eq!(engine.fire_next_event(), MidiEvent::NoteOn { channel: 1, pitch: 60, velocity: 80 });
    assert_eq!(engine.fire_next_event(), MidiEvent::ClockTick);
    assert_eq!(engine.fire_next_event(), MidiEvent::NoteOff { channel: 1, pitch: 60 });
    let tick = engine.current_tick();
    assert_eq!(tick, 10);
    let step = engine.clock_pause(&store);
    assert_eq!(engine.state(), EngineState::Paused);
    assert_eq!(engine.current_tick(), tick);
    assert!(step.midi.is_empty());

    let step = engine.clock_resume(&store);
    assert_eq!(engine.state(), EngineState::Running);
    assert_eq!(step.midi, vec![MidiEvent::ClockContinue]);
    let (step, ready) = engine.begin_pass(&store);
    assert!(ready);
    assert_eq!(step.anchor, AnchorUpdate::ResumeBack(20_000));
    assert_eq!(engine.current_tick(), tick);
}

#[test]
fn clock_stop_sends_stop_and_resets() {
    let store = store_with(vec![], 960, 120);
    let mut engine = LoopEngine::new();
    engine.clock_start(&store);
    let step = engine.clock_stop(&store);
    assert_eq!(engine.state(), EngineState::Stopped);
    assert_eq!(step.midi, vec![MidiEvent::ClockStop]);
    assert!(!engine.is_clock_mode());
}

#[test]
fn start_while_running_changes_nothing() {
    let store = store_with(vec![], 960, 120);
    let mut engine = LoopEngine::new();
    engine.start(&store);
    let step = engine.handle_command(LoopCommand::Start, &store);
    assert_eq!(engine.state(), EngineState::Running);
    assert!(step.midi.is_empty());
    assert_eq!(step.anchor, AnchorUpdate::Keep);
}

#[test]
fn sync_tempo_applies_at_next_boundary() {
    let mut store = store_with(vec![Note { start_tick: 0, duration: 10, pitch: 60, velocity: 80 }], 480, 120);
    let mut engine = LoopEngine::new();
    engine.sync_start(&store);
    assert_eq!(engine.state(), EngineState::Running);
    engine.begin_pass(&store);
    engine.sync_bpm_update(100, &store);
    assert_eq!(engine.bpm(), 120);
    while engine.next_event_offset_micros().is_some() {
        engine.fire_next_event();
    }
    let step = engine.finish_pass(&mut store);
    assert_eq!(engine.bpm(), 100);
    assert_eq!(step.anchor, AnchorUpdate::Now);
}

#[test]
fn timeout_duration_none_with_no_pulses() {
    assert_eq!(PulseTracker::new().timeout_duration(), None);
}

#[test]
fn timeout_duration_none_with_one_pulse() {
    let mut tracker = PulseTracker::new();
    tracker.update(1_000);
    assert_eq!(tracker.timeout_duration(), None);
}

#[test]
fn timeout_duration_at_120_bpm() {
    let mut tracker = PulseTracker::new();
    let base: u64 = 5_000_000;
    let interval: u64 = 20_833;
    tracker.update(base);
    tracker.update(base + interval);
    let timeout = tracker.timeout_duration().expect("should have timeout after 2 pulses");
    let expected: u64 = 72_916;
    assert!(timeout.abs_diff(expected) < 2_000, "expected ~72.9 ms, got {timeout:?}");
    assert_eq!(timeout, 72_915);
}

#[test]
fn tracker_keeps_last_25_pulses() {
    let mut tracker = PulseTracker::new();
    for i in 0..30u64 {
        tracker.update(i * 1000);
    }
    assert_eq!(tracker.history().len(), 25);
    assert_eq!(tracker.history()[0], 5000);
    assert_eq!(tracker.interval_total(), Some((24_000, 24)));
    // 1 ms per pulse: 2_500 BPM.
    assert_eq!(tracker.bpm(), Some(2_500));
    tracker.reset();
    assert!(tracker.history().is_empty());
    assert_eq!(tracker.interval_total(), None);
}

#[test]
fn receiver_tracks_start_pulse_stop() {
    let mut r = MidiClockReceiver::new();
    assert_eq!(r.sync_clock_state(), SyncClockState::Waiting);
    assert_eq!(r.receive_timeout_micros(), 1_000_000);
    assert_eq!(r.on_message(ClockMessage::Start, 0), Some(LoopCommand::SyncStart));
    assert_eq!(r.sync_clock_state(), SyncClockState::Tracking);
    assert_eq!(r.on_message(ClockMessage::Pulse, 10_000), None);
    // 20 ms per pulse: 2_500_000 / 20_000 = 125 BPM.
    assert_eq!(r.on_message(ClockMessage::Pulse, 30_000), Some(LoopCommand::SyncBpmUpdate(125)));
    assert_eq!(r.tempo_estimate(), Some(125));
    assert_eq!(r.on_message(ClockMessage::Pulse, 50_000), None);
    assert_eq!(r.receive_timeout_micros(), 70_000);
    assert_eq!(r.pulse_interval_total(), Some((40_000, 2)));
    assert_eq!(r.on_message(ClockMessage::Continue, 40_000), Some(LoopCommand::SyncContinue));
    assert_eq!(r.on_message(ClockMessage::Stop, 50_000), Some(LoopCommand::SyncPause));
    assert_eq!(r.sync_clock_state(), SyncClockState::Waiting);
}

#[test]
fn receiver_continue_without_clock_is_ignored() {
    let mut r = MidiClockReceiver::new();
    assert_eq!(r.on_message(ClockMessage::Continue, 0), None);
}

#[test]
fn receiver_timeout_marks_clock_lost() {
    let mut r = MidiClockReceiver::new();
    r.on_message(ClockMessage::Start, 0);
    r.on_message(ClockMessage::Pulse, 10_000);
    let (cmd, _) = r.on_timeout(true);
    assert_eq!(r.sync_clock_state(), SyncClockState::Lost);
    assert_eq!(cmd, Some(LoopCommand::SyncPause));
}

#[test]
fn receiver_reports_tempo_changes_once() {
    let mut r = MidiClockReceiver::new();
    assert_eq!(r.on_tempo_estimate(Some(120)), Some(LoopCommand::SyncBpmUpdate(120)));
    assert_eq!(r.on_tempo_estimate(Some(120)), None);
    assert_eq!(r.on_tempo_estimate(None), None);
    assert_eq!(r.on_tempo_estimate(Some(121)), Some(LoopCommand::SyncBpmUpdate(121)));
}

#[test]
fn pitch_bends_play_in_pass_and_reset_on_stop() {
    let mut store = ProjectStore::new();
    store
        .set_pending(Project {
            header: Header { bpm: 120, loop_duration: 480 },
            tracks: vec![Track {
                name: "lead".to_string(),
                channel: 3,
                instrument: 0,
                notes: vec![Note { start_tick: 0, duration: 480, pitch: 60, velocity: 80 }],
                pitch_bends: vec![
                    propeller::domain::project::PitchBend { tick: 0, value: 10192 },
                    propeller::domain::project::PitchBend { tick: 240, value: 8192 },
                ],
            }],
        })
        .unwrap();
    store.commit_pending();
    let mut engine = LoopEngine::new();
    engine.start(&store);
    engine.begin_pass(&store);
    // At tick 0 the bend comes before the note-on of its track.
    assert_eq!(engine.fire_next_event(), MidiEvent::PitchBend { channel: 3, value: 10192 });
    assert_eq!(engine.fire_next_event(), MidiEvent::NoteOn { channel: 3, pitch: 60, velocity: 80 });
    assert_eq!(engine.fire_next_event(), MidiEvent::PitchBend { channel: 3, value: 8192 });
    assert_eq!(engine.current_tick(), 240);
    let step = engine.stop(&store);
    assert_eq!(
        step.midi,
        vec![MidiEvent::NoteOff { channel: 3, pitch: 60 }, MidiEvent::PitchBend { channel: 3, value: 8192 }]
    );
}

#[test]
fn pause_resets_bends_and_clock_stop_follows() {
    let mut store = ProjectStore::new();
    store
        .set_pending(Project {
            header: Header { bpm: 120, loop_duration: 480 },
            tracks: vec![Track {
                name: "lead".to_string(),
                channel: 2,
                instrument: 0,
                notes: vec![],
                pitch_bends: vec![propeller::domain::project::PitchBend { tick: 0, value: 0 }],
            }],
        })
        .unwrap();
    store.commit_pending();
    let mut engine = LoopEngine::new();
    engine.clock_start(&store);
    engine.begin_pass(&store);
    assert_eq!(engine.fire_next_event(), MidiEvent::PitchBend { channel: 2, value: 0 });
    let step = engine.clock_pause(&store);
    assert_eq!(step.midi, vec![MidiEvent::PitchBend { channel: 2, value: 8192 }]);
    let step = engine.clock_stop(&store);
    assert_eq!(step.midi, vec![MidiEvent::ClockStop]);
}

#[test]
fn tracker_tempo_at_120_bpm_rounds_to_nearest() {
    let mut tracker = PulseTracker::new();
    assert_eq!(tracker.bpm(), None);
    tracker.update(0);
    tracker.update(20_833);
    // 2_500_000 / 20_833 = 120.0019...
    assert_eq!(tracker.bpm(), Some(120));
    tracker.update(20_833);
    // Two intervals of 20_833 and 0 µs: 2_500_000 * 2 / 20_833 = 240.004
    assert_eq!(tracker.bpm(), Some(240));
}

// Plays the rest of the pass, returning each message with the tick it fell on.
fn play_rest(engine: &mut LoopEngine) -> Vec<(u64, MidiEvent)> {
    let mut out = Vec::new();
    while engine.next_event_offset_micros().is_some() {
        let e = engine.fire_next_event();
        out.push((engine.current_tick(), e));
    }
    out
}

#[test]
fn two_notes_on_same_tick_both_play() {
    let store = store_with(
        vec![
            Note { start_tick: 0, duration: 480, pitch: 60, velocity: 80 },
            Note { start_tick: 0, duration: 480, pitch: 64, velocity: 80 },
        ],
        1920,
        120,
    );
    let mut engine = LoopEngine::new();
    engine.start(&store);
    engine.begin_pass(&store);
    let played = play_rest(&mut engine);
    let ons = played.iter().filter(|(t, e)| *t == 0 && matches!(e, MidiEvent::NoteOn { .. })).count();
    let offs = played.iter().filter(|(t, e)| *t == 480 && matches!(e, MidiEvent::NoteOff { .. })).count();
    assert_eq!(ons, 2);
    assert_eq!(offs, 2);
}

#[test]
fn note_off_past_loop_end_carries_into_next_pass() {
    let mut store = store_with(vec![Note { start_tick: 0, duration: 1921, pitch: 60, velocity: 80 }], 1920, 120);
    let mut engine = LoopEngine::new();
    engine.start(&store);
    engine.begin_pass(&store);
    let played = play_rest(&mut engine);
    assert_eq!(played, vec![(0, MidiEvent::NoteOn { channel: 1, pitch: 60, velocity: 80 })]);
    engine.finish_pass(&mut store);
    engine.begin_pass(&store);
    let played = play_rest(&mut engine);
    assert_eq!(
        played,
        vec![
            (0, MidiEvent::NoteOn { channel: 1, pitch: 60, velocity: 80 }),
            (1, MidiEvent::NoteOff { channel: 1, pitch: 60 }),
        ]
    );
}

#[test]
fn clock_pulses_span_loop_duration() {
    let store = store_with(vec![], 1920, 120);
    let mut engine = LoopEngine::new();
    engine.clock_start(&store);
    engine.begin_pass(&store);
    let pulses: Vec<u64> = play_rest(&mut engine)
        .into_iter()
        .filter(|(_, e)| *e == MidiEvent::ClockTick)
        .map(|(t, _)| t)
        .collect();
    assert_eq!(pulses.len(), 96);
    assert_eq!(pulses[0], 0);
    assert_eq!(pulses[95], 1900);
    for w in pulses.windows(2) {
        assert_eq!(w[1] - w[0], 20);
    }
}

#[test]
fn boundary_commits_pending_project() {
    let mut store = store_with(vec![], 960, 120);
    store
        .set_pending(Project { header: Header { bpm: 140, loop_duration: 960 }, tracks: vec![] })
        .unwrap();
    let mut engine = LoopEngine::new();
    engine.start(&store);
    engine.begin_pass(&store);
    play_rest(&mut engine);
    assert_eq!(store.active().unwrap().header.bpm, 120);
    let step = engine.finish_pass(&mut store);
    assert_eq!(store.active().unwrap().header.bpm, 140);
    assert_eq!(engine.bpm(), 140);
    assert_eq!(step.anchor, AnchorUpdate::Now);
}

#[test]
fn sync_continue_resumes_mid_loop() {
    let store = store_with(
        vec![
            Note { start_tick: 0, duration: 480, pitch: 60, velocity: 80 },
            Note { start_tick: 480, duration: 480, pitch: 62, velocity: 80 },
            Note { start_tick: 960, duration: 480, pitch: 64, velocity: 80 },
            Note { start_tick: 1440, duration: 480, pitch: 65, velocity: 80 },
        ],
        1920,
        120,
    );
    let mut engine = LoopEngine::new();
    engine.sync_start(&store);
    engine.begin_pass(&store);
    // Play the note-on at 0 and the note-off at 480.
    engine.fire_next_event();
    engine.fire_next_event();
    assert_eq!(engine.current_tick(), 480);
    engine.sync_continue(&store);
    assert_eq!(engine.current_tick(), 480);
    let (step, ready) = engine.begin_pass(&store);
    assert!(ready);
    // Tick 0 of the rebuilt pass is placed 480 ticks in the past: the rest continues now.
    assert_eq!(step.anchor, AnchorUpdate::ResumeBack(480 * 1041));
    let ticks: Vec<u64> = play_rest(&mut engine).into_iter().map(|(t, _)| t).collect();
    assert!(!ticks.contains(&0));
    assert!(ticks.contains(&480));
    assert!(ticks.contains(&960));
    assert!(ticks.contains(&1440));
}

#[test]
fn sync_stop_and_restart_clear_state() {
    let store = store_with(vec![Note { start_tick: 0, duration: 1921, pitch: 60, velocity: 80 }], 1920, 120);
    let mut engine = LoopEngine::new();
    engine.sync_start(&store);
    let (step, _) = engine.begin_pass(&store);
    assert_eq!(step.midi, vec![MidiEvent::ProgramChange { channel: 1, program: 0 }]);
    engine.fire_next_event();
    let step = engine.handle_command(LoopCommand::SyncStart, &store);
    assert_eq!(step.midi, vec![MidiEvent::NoteOff { channel: 1, pitch: 60 }]);
    assert_eq!(step.anchor, AnchorUpdate::StartAfterLatency);
    assert_eq!(engine.current_tick(), 0);
    // Program changes are sent again after a restart.
    let (step, _) = engine.begin_pass(&store);
    assert_eq!(step.midi, vec![MidiEvent::ProgramChange { channel: 1, program: 0 }]);
    let step = engine.sync_stop(&store);
    assert_eq!(engine.state(), EngineState::Stopped);
    assert!(step.midi.is_empty());
}

#[test]
fn stop_message_pauses_engine_and_sets_sync_waiting() {
    let store = store_with(vec![Note { start_tick: 0, duration: 480, pitch: 60, velocity: 80 }], 1920, 120);
    let mut engine = LoopEngine::new();
    let mut r = MidiClockReceiver::new();
    let cmd = r.on_message(ClockMessage::Start, 0).unwrap();
    engine.handle_command(cmd, &store);
    assert_eq!(engine.state(), EngineState::Running);
    engine.begin_pass(&store);
    assert_eq!(engine.fire_next_event(), MidiEvent::NoteOn { channel: 1, pitch: 60, velocity: 80 });
    let cmd = r.on_message(ClockMessage::Stop, 10_000).unwrap();
    assert_eq!(cmd, LoopCommand::SyncPause);
    let step = engine.handle_command(cmd, &store);
    assert_eq!(engine.state(), EngineState::Paused);
    assert_eq!(r.sync_clock_state(), SyncClockState::Waiting);
    // The sounding note is released and no clock Stop is sent.
    assert_eq!(step.midi, vec![MidiEvent::NoteOff { channel: 1, pitch: 60 }]);
    // A following Continue resumes where the loop paused.
    r.on_message(ClockMessage::Pulse, 20_000);
    r.on_message(ClockMessage::Pulse, 40_000);
    let cmd = r.on_message(ClockMessage::Continue, 50_000).unwrap();
    assert_eq!(cmd, LoopCommand::SyncContinue);
    engine.handle_command(cmd, &store);
    assert_eq!(engine.state(), EngineState::Running);
    let (step, ready) = engine.begin_pass(&store);
    assert!(ready);
    assert_eq!(step.anchor, AnchorUpdate::ResumeBack(480 * 1041));
    assert_eq!(engine.fire_next_event(), MidiEvent::NoteOff { channel: 1, pitch: 60 });
    assert_eq!(engine.current_tick(), 480);
}

#[test]
fn timeout_declares_clock_lost_and_pulse_resumes_tracking_without_start() {
    let store = store_with(vec![Note { start_tick: 0, duration: 480, pitch: 60, velocity: 80 }], 1920, 120);
    let mut engine = LoopEngine::new();
    let mut r = MidiClockReceiver::new();
    let cmd = r.on_message(ClockMessage::Start, 0).unwrap();
    engine.handle_command(cmd, &store);
    assert_eq!(engine.state(), EngineState::Running);
    r.on_message(ClockMessage::Pulse, 2_000);
    r.on_message(ClockMessage::Pulse, 4_000);
    let (cmd, send_stop) = r.on_timeout(true);
    assert_eq!(r.sync_clock_state(), SyncClockState::Lost);
    assert!(send_stop);
    engine.handle_command(cmd.unwrap(), &store);
    assert_eq!(engine.state(), EngineState::Paused);
    // Further timeouts while lost do nothing.
    assert_eq!(r.on_timeout(true), (None, false));
    // Pulses bring the clock back without restarting the loop.
    for i in 0..5u64 {
        if let Some(cmd) = r.on_message(ClockMessage::Pulse, 100_000 + i * 2_000) {
            engine.handle_command(cmd, &store);
        }
    }
    assert_eq!(r.sync_clock_state(), SyncClockState::Tracking);
    assert_eq!(engine.state(), EngineState::Paused);
}

#[test]
fn timeout_without_forwarding_sends_no_stop() {
    let mut r = MidiClockReceiver::new();
    r.on_message(ClockMessage::Start, 0);
    let (cmd, send_stop) = r.on_timeout(false);
    assert_eq!(cmd, Some(LoopCommand::SyncPause));
    assert!(!send_stop);
}

#[test]
fn paused_engine_restarts_on_sync_start() {
    let store = store_with(vec![Note { start_tick: 0, duration: 480, pitch: 60, velocity: 80 }], 1920, 120);
    let mut engine = LoopEngine::new();
    engine.sync_start(&store);
    engine.begin_pass(&store);
    engine.fire_next_event();
    engine.fire_next_event();
    assert_eq!(engine.current_tick(), 480);
    engine.handle_command(LoopCommand::SyncPause, &store);
    assert_eq!(engine.state(), EngineState::Paused);
    assert_eq!(engine.current_tick(), 480);
    let step = engine.handle_command(LoopCommand::SyncStart, &store);
    assert_eq!(engine.state(), EngineState::Running);
    assert_eq!(engine.current_tick(), 0);
    assert_eq!(step.anchor, AnchorUpdate::StartAfterLatency);
}

#[test]
fn sync_pause_while_stopped_is_ignored() {
    let store = store_with(vec![], 1920, 120);
    let mut engine = LoopEngine::new();
    let step = engine.handle_command(LoopCommand::SyncPause, &store);
    assert_eq!(engine.state(), EngineState::Stopped);
    assert!(step.midi.is_empty());
}

#[test]
fn stop_resets_channel_whose_bend_has_not_played() {
    let mut store = ProjectStore::new();
    store
        .set_pending(Project {
            header: Header { bpm: 120, loop_duration: 960 },
            tracks: vec![Track {
                name: "lead".to_string(),
                channel: 5,
                instrument: 0,
                notes: vec![Note { start_tick: 0, duration: 480, pitch: 60, velocity: 80 }],
                pitch_bends: vec![propeller::domain::project::PitchBend { tick: 720, value: 12000 }],
            }],
        })
        .unwrap();
    store.commit_pending();
    let mut engine = LoopEngine::new();
    engine.start(&store);
    engine.begin_pass(&store);
    assert_eq!(engine.fire_next_event(), MidiEvent::NoteOn { channel: 5, pitch: 60, velocity: 80 });
    let step = engine.stop(&store);
    assert_eq!(
        step.midi,
        vec![MidiEvent::NoteOff { channel: 5, pitch: 60 }, MidiEvent::PitchBend { channel: 5, value: 8192 }]
    );
}

#[test]
fn loop_count_starts_at_zero_and_counts_finished_passes() {
    let mut store = store_with(vec![Note { start_tick: 0, duration: 480, pitch: 60, velocity: 80 }], 960, 120);
    let mut engine = LoopEngine::new();
    assert_eq!(engine.loop_count(), 0);
    engine.start(&store);
    engine.begin_pass(&store);
    play_rest(&mut engine);
    engine.finish_pass(&mut store);
    assert_eq!(engine.loop_count(), 1);
    engine.begin_pass(&store);
    play_rest(&mut engine);
    engine.finish_pass(&mut store);
    assert_eq!(engine.loop_count(), 2);
}

#[test]
fn test_carry_over_collected() {
    let mut store = store_with(vec![Note { start_tick: 0, duration: 1921, pitch: 60, velocity: 80 }], 1920, 120);
    let mut engine = LoopEngine::new();
    engine.start(&store);
    let (_, ready) = engine.begin_pass(&store);
    assert!(ready, "expected Events");
    let events: Vec<MidiEvent> = play_rest(&mut engine).into_iter().map(|(_, e)| e).collect();
    assert!(
        !events.iter().any(|e| matches!(e, MidiEvent::NoteOff { pitch: 60, .. })),
        "cross-loop NoteOff must not appear in main event list"
    );
    assert!(
        events.iter().any(|e| matches!(e, MidiEvent::NoteOn { pitch: 60, .. })),
        "NoteOn must still appear in main event list"
    );
    engine.finish_pass(&mut store);
    // The held note-off plays in the next pass at 1921 - 1920 = 1, after the note's new start.
    engine.begin_pass(&store);
    assert_eq!(engine.fire_next_event(), MidiEvent::NoteOn { channel: 1, pitch: 60, velocity: 80 });
    assert_eq!(engine.next_event_offset_micros(), Some(1041));
    assert_eq!(engine.fire_next_event(), MidiEvent::NoteOff { channel: 1, pitch: 60 });
    assert_eq!(engine.current_tick(), 1);
}

#[test]
fn current_tick_frozen_while_paused() {
    let store = store_with(vec![Note { start_tick: 300, duration: 500, pitch: 60, velocity: 80 }], 1920, 120);
    let mut engine = LoopEngine::new();
    engine.clock_start(&store);
    engine.begin_pass(&store);
    while engine.current_tick() == 0 {
        engine.fire_next_event();
    }
    engine.clock_pause(&store);
    assert_eq!(engine.state(), EngineState::Paused);
    let first = engine.current_tick();
    engine.handle_command(LoopCommand::SyncBpmUpdate(90), &store);
    let second = engine.current_tick();
    assert_eq!(first, second, "expected current_tick() to stay unchanged while paused");
    // Resuming neither moves the position nor plays anything before it.
    engine.clock_resume(&store);
    engine.begin_pass(&store);
    assert_eq!(engine.current_tick(), first);
    for (tick, _) in play_rest(&mut engine) {
        assert!(tick >= first);
    }
}
