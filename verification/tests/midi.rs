use propeller::midi::{
    classify_clock_message, clock_continue_bytes, clock_start_bytes, clock_stop_bytes, clock_tick_bytes,
    encode_event, find_port_by_name, forward_clock_message, note_off_bytes, note_on_bytes, port_infos,
    pitch_bend_bytes, program_change_bytes, send_events, song_position_bytes, ClockMessage, MidiEvent, MidiOutput,
    MockMidiOutput,
};

#[test]
fn find_port_exact_match_first() {
    let names: Vec<String> = vec!["Surge XT".into(), "Surge".into()];
    assert_eq!(find_port_by_name(&names, "Surge XT"), Some(0));
}

#[test]
fn find_port_exact_match_second() {
    let names: Vec<String> = vec!["Surge".into(), "Surge XT".into()];
    assert_eq!(find_port_by_name(&names, "Surge XT"), Some(1));
}

#[test]
fn find_port_prefix_not_matched() {
    let names: Vec<String> = vec!["Surge XT".into()];
    assert_eq!(find_port_by_name(&names, "Surge"), None);
}

#[test]
fn midi_port_find_port_empty_slice() {
    assert_eq!(find_port_by_name(&[], "anything"), None);
}

#[test]
fn find_port_exact_match() {
    let names: Vec<String> = vec!["Surge XT".into(), "Surge".into()];
    assert_eq!(find_port_by_name(&names, "Surge"), Some(1));
}

#[test]
fn find_port_not_found() {
    let names: Vec<String> = vec!["Surge XT".into()];
    assert_eq!(find_port_by_name(&names, "Nonexistent"), None);
}

#[test]
fn midi_find_port_empty_slice() {
    assert_eq!(find_port_by_name(&[], "anything"), None);
}

#[test]
fn find_port_first_of_duplicates() {
    let names: Vec<String> = vec!["A".into(), "B".into(), "B".into()];
    assert_eq!(find_port_by_name(&names, "B"), Some(1));
}

#[test]
fn note_on_bytes_ch1() {
    assert_eq!(note_on_bytes(1, 60, 80), [0x90, 60, 80]);
}

#[test]
fn note_on_bytes_ch16() {
    assert_eq!(note_on_bytes(16, 60, 80), [0x9F, 60, 80]);
}

#[test]
fn note_off_bytes_ch1() {
    assert_eq!(note_off_bytes(1, 60), [0x80, 60, 0]);
}

#[test]
fn note_off_bytes_ch16() {
    assert_eq!(note_off_bytes(16, 60), [0x8F, 60, 0]);
}

#[test]
fn program_change_bytes_ch1() {
    assert_eq!(program_change_bytes(1, 42), [0xC0, 42]);
}

#[test]
fn program_change_bytes_ch2() {
    assert_eq!(program_change_bytes(2, 0), [0xC1, 0]);
}

#[test]
fn clock_tick_byte() {
    assert_eq!(clock_tick_bytes(), [0xF8]);
}

#[test]
fn clock_start_byte() {
    assert_eq!(clock_start_bytes(), [0xFA]);
}

#[test]
fn clock_continue_byte() {
    assert_eq!(clock_continue_bytes(), [0xFB]);
}

#[test]
fn clock_stop_byte() {
    assert_eq!(clock_stop_bytes(), [0xFC]);
}

#[test]
fn song_position_bytes_zero() {
    assert_eq!(song_position_bytes(0), [0xF2, 0x00, 0x00]);
}

#[test]
fn song_position_bytes_max() {
    assert_eq!(song_position_bytes(16383), [0xF2, 0x7F, 0x7F]);
}

#[test]
fn song_position_bytes_mid_value() {
    assert_eq!(song_position_bytes(120), [0xF2, 0x78, 0x00]);
}

#[test]
fn song_position_bytes_splits_into_seven_bit_halves() {
    // 300 = 2 * 128 + 44
    assert_eq!(song_position_bytes(300), [0xF2, 44, 2]);
}

#[test]
fn encode_event_matches_byte_helpers() {
    assert_eq!(encode_event(MidiEvent::NoteOn { channel: 3, pitch: 64, velocity: 100 }), vec![0x92, 64, 100]);
    assert_eq!(encode_event(MidiEvent::NoteOff { channel: 3, pitch: 64 }), vec![0x82, 64, 0]);
    assert_eq!(encode_event(MidiEvent::ProgramChange { channel: 10, program: 5 }), vec![0xC9, 5]);
    assert_eq!(encode_event(MidiEvent::ClockTick), vec![0xF8]);
}

#[test]
fn mock_records_events_in_order() {
    let mut m = MockMidiOutput::new();
    m.note_on(1, 60, 80).unwrap();
    m.note_off(1, 60).unwrap();
    m.program_change(1, 42).unwrap();
    assert_eq!(
        m.events,
        vec![
            MidiEvent::NoteOn { channel: 1, pitch: 60, velocity: 80 },
            MidiEvent::NoteOff { channel: 1, pitch: 60 },
            MidiEvent::ProgramChange { channel: 1, program: 42 },
        ]
    );
}

#[test]
fn mock_records_clock_events_in_order() {
    let mut m = MockMidiOutput::new();
    m.note_on(1, 60, 80).unwrap();
    m.clock_start().unwrap();
    m.clock_tick().unwrap();
    m.clock_continue().unwrap();
    m.clock_stop().unwrap();
    m.note_off(1, 60).unwrap();
    assert_eq!(
        m.events,
        vec![
            MidiEvent::NoteOn { channel: 1, pitch: 60, velocity: 80 },
            MidiEvent::ClockStart,
            MidiEvent::ClockTick,
            MidiEvent::ClockContinue,
            MidiEvent::ClockStop,
            MidiEvent::NoteOff { channel: 1, pitch: 60 },
        ]
    );
}

#[test]
fn send_events_sends_all_in_order() {
    let mut m = MockMidiOutput::new();
    let events = vec![MidiEvent::ClockStart, MidiEvent::NoteOn { channel: 2, pitch: 1, velocity: 2 }];
    assert_eq!(send_events(&mut m, &events), 0);
    assert_eq!(m.events, events);
}

#[test]
fn forward_clock_message_dispatches_each_recognized_type() {
    let mut m = MockMidiOutput::new();
    assert!(matches!(forward_clock_message(&[0xF8], &mut m), Some(ClockMessage::Pulse)));
    assert!(matches!(forward_clock_message(&[0xFA], &mut m), Some(ClockMessage::Start)));
    assert!(matches!(forward_clock_message(&[0xFB], &mut m), Some(ClockMessage::Continue)));
    assert!(matches!(forward_clock_message(&[0xFC], &mut m), Some(ClockMessage::Stop)));
    assert_eq!(
        m.events,
        vec![MidiEvent::ClockTick, MidiEvent::ClockStart, MidiEvent::ClockContinue, MidiEvent::ClockStop]
    );
}

#[test]
fn forward_clock_message_ignores_unrecognized_bytes() {
    let mut m = MockMidiOutput::new();
    assert!(forward_clock_message(&[0x90, 60, 80], &mut m).is_none());
    assert!(m.events.is_empty());
}

#[test]
fn forward_clock_message_completes_in_well_under_a_millisecond() {
    let mut m = MockMidiOutput::new();
    for bytes in [[0xF8u8].as_slice(), &[0xFA], &[0xFB], &[0xFC]] {
        let start = std::time::Instant::now();
        forward_clock_message(bytes, &mut m);
        let elapsed = start.elapsed();
        assert!(elapsed < std::time::Duration::from_millis(1), "forwarding took {elapsed:?}, expected well under 1ms");
    }
}

#[test]
fn classify_rejects_longer_and_empty_packets() {
    assert!(classify_clock_message(&[]).is_none());
    assert!(classify_clock_message(&[0xF8, 0xF8]).is_none());
    assert!(classify_clock_message(&[0xF9]).is_none());
}

#[test]
fn port_infos_keeps_system_positions() {
    let infos = port_infos(vec![Some("A".to_string()), None, Some("C".to_string())]);
    assert_eq!(infos.len(), 2);
    assert_eq!(infos[0].index, 0);
    assert_eq!(infos[0].name, "A");
    assert_eq!(infos[1].index, 2);
    assert_eq!(infos[1].name, "C");
}

#[test]
fn pitch_bend_bytes_split_value() {
    assert_eq!(pitch_bend_bytes(1, 8192), [0xE0, 0x00, 0x40]);
    assert_eq!(pitch_bend_bytes(16, 16383), [0xEF, 0x7F, 0x7F]);
    assert_eq!(pitch_bend_bytes(2, 0), [0xE1, 0x00, 0x00]);
}

#[test]
fn mock_records_pitch_bend() {
    let mut m = MockMidiOutput::new();
    m.pitch_bend(4, 100).unwrap();
    assert_eq!(m.events, vec![MidiEvent::PitchBend { channel: 4, value: 100 }]);
    assert_eq!(encode_event(MidiEvent::PitchBend { channel: 4, value: 300 }), vec![0xE3, 44, 2]);
}
