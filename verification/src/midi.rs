use vstd::prelude::*;

use crate::text::str_equal;

verus! {

/// A message handed to a MIDI output.
#[derive(Debug, Clone, Copy, PartialEq, Eq, Structural)]
pub enum MidiEvent {
    NoteOn { channel: u8, pitch: u8, velocity: u8 },
    NoteOff { channel: u8, pitch: u8 },
    ProgramChange { channel: u8, program: u8 },
    /// A 14-bit pitch-bend value; 8192 is center.
    PitchBend { channel: u8, value: u16 },
    ClockTick,
    ClockStart,
    ClockContinue,
    ClockStop,
}

/// A failed send on a MIDI output, with the reason.
#[derive(Debug)]
pub struct MidiSendError(pub String);

impl MidiSendError {
    /// An error carrying `msg` as its reason.
    pub fn new(msg: String) -> (e: MidiSendError)
        ensures
            e.0@ == msg@,
    {
        MidiSendError(msg)
    }
}

/// A destination for MIDI messages (a port, a recorder, ...). `sent` is the sequence of
/// messages handed to it so far; every send appends its message, whether or not the
/// destination accepted it.
pub trait MidiOutput {
    spec fn sent(&self) -> Seq<MidiEvent>;

    fn note_on(&mut self, channel: u8, pitch: u8, velocity: u8) -> (r: Result<(), MidiSendError>)
        ensures
            final(self).sent() == old(self).sent().push(MidiEvent::NoteOn { channel, pitch, velocity }),
    ;

    fn note_off(&mut self, channel: u8, pitch: u8) -> (r: Result<(), MidiSendError>)
        ensures
            final(self).sent() == old(self).sent().push(MidiEvent::NoteOff { channel, pitch }),
    ;

    fn program_change(&mut self, channel: u8, program: u8) -> (r: Result<(), MidiSendError>)
        ensures
            final(self).sent() == old(self).sent().push(MidiEvent::ProgramChange { channel, program }),
    ;

    fn pitch_bend(&mut self, channel: u8, value: u16) -> (r: Result<(), MidiSendError>)
        ensures
            final(self).sent() == old(self).sent().push(MidiEvent::PitchBend { channel, value }),
    ;

    fn clock_tick(&mut self) -> (r: Result<(), MidiSendError>)
        ensures
            final(self).sent() == old(self).sent().push(MidiEvent::ClockTick),
    ;

    fn clock_start(&mut self) -> (r: Result<(), MidiSendError>)
        ensures
            final(self).sent() == old(self).sent().push(MidiEvent::ClockStart),
    ;

    fn clock_continue(&mut self) -> (r: Result<(), MidiSendError>)
        ensures
            final(self).sent() == old(self).sent().push(MidiEvent::ClockContinue),
    ;

    fn clock_stop(&mut self) -> (r: Result<(), MidiSendError>)
        ensures
            final(self).sent() == old(self).sent().push(MidiEvent::ClockStop),
    ;
}

/// Hands one event to an output, through the method that sends that kind of message.
pub fn send_event<O: MidiOutput>(output: &mut O, event: MidiEvent) -> (r: Result<(), MidiSendError>)
    ensures
        final(output).sent() == old(output).sent().push(event),
{
    match event {
        MidiEvent::NoteOn { channel, pitch, velocity } => output.note_on(channel, pitch, velocity),
        MidiEvent::NoteOff { channel, pitch } => output.note_off(channel, pitch),
        MidiEvent::ProgramChange { channel, program } => output.program_change(channel, program),
        MidiEvent::PitchBend { channel, value } => output.pitch_bend(channel, value),
        MidiEvent::ClockTick => output.clock_tick(),
        MidiEvent::ClockStart => output.clock_start(),
        MidiEvent::ClockContinue => output.clock_continue(),
        MidiEvent::ClockStop => output.clock_stop(),
    }
}

/// Hands every event to an output, in order, going on after a failed send; returns how
/// many sends failed.
pub fn send_events<O: MidiOutput>(output: &mut O, events: &Vec<MidiEvent>) -> (failures: usize)
    ensures
        final(output).sent() == old(output).sent() + events@,
        failures <= events.len(),
{
    let mut failures: usize = 0;
    let mut i: usize = 0;
    while i < events.len()
        invariant
            i <= events.len(),
            failures <= i,
            output.sent() == old(output).sent() + events@.take(i as int),
        decreases events.len() - i,
    {
        let r = send_event(output, events[i]);
        if r.is_err() {
            failures = failures + 1;
        }
        assert(events@.take(i + 1) =~= events@.take(i as int).push(events@[i as int]));
        i = i + 1;
    }
    assert(events@.take(events.len() as int) =~= events@);
    failures
}

/// An output that records every message in memory.
pub struct MockMidiOutput {
    pub events: Vec<MidiEvent>,
}

impl MockMidiOutput {
    /// A recorder with nothing recorded.
    pub fn new() -> (m: MockMidiOutput)
        ensures
            m.events@ == Seq::<MidiEvent>::empty(),
    {
        MockMidiOutput { events: Vec::new() }
    }
}

impl MidiOutput for MockMidiOutput {
    open spec fn sent(&self) -> Seq<MidiEvent> {
        self.events@
    }

    fn note_on(&mut self, channel: u8, pitch: u8, velocity: u8) -> (r: Result<(), MidiSendError>) {
        self.events.push(MidiEvent::NoteOn { channel, pitch, velocity });
        Ok(())
    }

    fn note_off(&mut self, channel: u8, pitch: u8) -> (r: Result<(), MidiSendError>) {
        self.events.push(MidiEvent::NoteOff { channel, pitch });
        Ok(())
    }

    fn program_change(&mut self, channel: u8, program: u8) -> (r: Result<(), MidiSendError>) {
        self.events.push(MidiEvent::ProgramChange { channel, program });
        Ok(())
    }

    fn pitch_bend(&mut self, channel: u8, value: u16) -> (r: Result<(), MidiSendError>) {
        self.events.push(MidiEvent::PitchBend { channel, value });
        Ok(())
    }

    fn clock_tick(&mut self) -> (r: Result<(), MidiSendError>) {
        self.events.push(MidiEvent::ClockTick);
        Ok(())
    }

    fn clock_start(&mut self) -> (r: Result<(), MidiSendError>) {
        self.events.push(MidiEvent::ClockStart);
        Ok(())
    }

    fn clock_continue(&mut self) -> (r: Result<(), MidiSendError>) {
        self.events.push(MidiEvent::ClockContinue);
        Ok(())
    }

    fn clock_stop(&mut self) -> (r: Result<(), MidiSendError>) {
        self.events.push(MidiEvent::ClockStop);
        Ok(())
    }
}

/// Note On, channel 1..=16 in the low nibble of the status byte.
pub fn note_on_bytes(channel: u8, pitch: u8, velocity: u8) -> (r: [u8; 3])
    requires
        channel >= 1,
    ensures
        r@ == seq![0x90u8 | ((channel - 1) as u8), pitch, velocity],
        channel <= 16 ==> r[0] == 0x90 + channel - 1,
{
    let low: u8 = channel - 1;
    proof {
        if channel <= 16 {
            assert(low < 16 ==> 0x90u8 | low == 0x90 + low) by (bit_vector);
        }
    }
    let r = [0x90u8 | low, pitch, velocity];
    assert(r@ =~= seq![0x90u8 | ((channel - 1) as u8), pitch, velocity]);
    r
}

/// Note Off with release velocity 0.
pub fn note_off_bytes(channel: u8, pitch: u8) -> (r: [u8; 3])
    requires
        channel >= 1,
    ensures
        r@ == seq![0x80u8 | ((channel - 1) as u8), pitch, 0u8],
        channel <= 16 ==> r[0] == 0x80 + channel - 1,
{
    let low: u8 = channel - 1;
    proof {
        if channel <= 16 {
            assert(low < 16 ==> 0x80u8 | low == 0x80 + low) by (bit_vector);
        }
    }
    let r = [0x80u8 | low, pitch, 0u8];
    assert(r@ =~= seq![0x80u8 | ((channel - 1) as u8), pitch, 0u8]);
    r
}

/// Program Change.
pub fn program_change_bytes(channel: u8, program: u8) -> (r: [u8; 2])
    requires
        channel >= 1,
    ensures
        r@ == seq![0xC0u8 | ((channel - 1) as u8), program],
        channel <= 16 ==> r[0] == 0xC0 + channel - 1,
{
    let low: u8 = channel - 1;
    proof {
        if channel <= 16 {
            assert(low < 16 ==> 0xC0u8 | low == 0xC0 + low) by (bit_vector);
        }
    }
    let r = [0xC0u8 | low, program];
    assert(r@ =~= seq![0xC0u8 | ((channel - 1) as u8), program]);
    r
}

/// Pitch Bend: the 14-bit value as two seven-bit data bytes, low bits first.
pub fn pitch_bend_bytes(channel: u8, value: u16) -> (r: [u8; 3])
    requires
        channel >= 1,
    ensures
        r@ == seq![0xE0u8 | ((channel - 1) as u8), (value % 128) as u8, ((value / 128) % 128) as u8],
        channel <= 16 ==> r[0] == 0xE0 + channel - 1,
{
    let low: u8 = channel - 1;
    proof {
        if channel <= 16 {
            assert(low < 16 ==> 0xE0u8 | low == 0xE0 + low) by (bit_vector);
        }
    }
    let lo: u16 = value & 0x7F;
    let hi: u16 = (value >> 7) & 0x7F;
    assert(lo == value % 128) by (bit_vector)
        requires lo == value & 0x7F;
    assert(hi == (value / 128) % 128) by (bit_vector)
        requires hi == (value >> 7) & 0x7F;
    let r = [0xE0u8 | low, lo as u8, hi as u8];
    assert(r@ =~= seq![0xE0u8 | ((channel - 1) as u8), (value % 128) as u8, ((value / 128) % 128) as u8]);
    r
}

/// Timing Clock.
pub fn clock_tick_bytes() -> (r: [u8; 1])
    ensures
        r@ == seq![0xF8u8],
{
    let r = [0xF8u8];
    assert(r@ =~= seq![0xF8u8]);
    r
}

/// Start.
pub fn clock_start_bytes() -> (r: [u8; 1])
    ensures
        r@ == seq![0xFAu8],
{
    let r = [0xFAu8];
    assert(r@ =~= seq![0xFAu8]);
    r
}

/// Continue.
pub fn clock_continue_bytes() -> (r: [u8; 1])
    ensures
        r@ == seq![0xFBu8],
{
    let r = [0xFBu8];
    assert(r@ =~= seq![0xFBu8]);
    r
}

/// Stop.
pub fn clock_stop_bytes() -> (r: [u8; 1])
    ensures
        r@ == seq![0xFCu8],
{
    let r = [0xFCu8];
    assert(r@ =~= seq![0xFCu8]);
    r
}

/// Song Position Pointer: a 14-bit count of MIDI beats, low seven bits first.
pub fn song_position_bytes(position: u16) -> (r: [u8; 3])
    ensures
        r@ == seq![0xF2u8, (position % 128) as u8, ((position / 128) % 128) as u8],
{
    let lo: u16 = position & 0x7F;
    let hi: u16 = (position >> 7) & 0x7F;
    assert(lo == position % 128) by (bit_vector)
        requires lo == position & 0x7F;
    assert(hi == (position / 128) % 128) by (bit_vector)
        requires hi == (position >> 7) & 0x7F;
    let r = [0xF2u8, lo as u8, hi as u8];
    assert(r@ =~= seq![0xF2u8, (position % 128) as u8, ((position / 128) % 128) as u8]);
    r
}

/// The encoded bytes of an output message.
pub open spec fn event_bytes(e: MidiEvent) -> Seq<u8> {
    match e {
        MidiEvent::NoteOn { channel, pitch, velocity } => seq![0x90u8 | ((channel - 1) as u8), pitch, velocity],
        MidiEvent::NoteOff { channel, pitch } => seq![0x80u8 | ((channel - 1) as u8), pitch, 0u8],
        MidiEvent::ProgramChange { channel, program } => seq![0xC0u8 | ((channel - 1) as u8), program],
        MidiEvent::PitchBend { channel, value } =>
            seq![0xE0u8 | ((channel - 1) as u8), (value % 128) as u8, ((value / 128) % 128) as u8],
        MidiEvent::ClockTick => seq![0xF8u8],
        MidiEvent::ClockStart => seq![0xFAu8],
        MidiEvent::ClockContinue => seq![0xFBu8],
        MidiEvent::ClockStop => seq![0xFCu8],
    }
}

/// A channel message names a channel in 1..=16; realtime messages always qualify.
pub open spec fn event_channel_ok(e: MidiEvent) -> bool {
    match e {
        MidiEvent::NoteOn { channel, .. } => 1 <= channel <= 16,
        MidiEvent::NoteOff { channel, .. } => 1 <= channel <= 16,
        MidiEvent::ProgramChange { channel, .. } => 1 <= channel <= 16,
        MidiEvent::PitchBend { channel, .. } => 1 <= channel <= 16,
        _ => true,
    }
}

/// The wire encoding of an output message.
pub fn encode_event(e: MidiEvent) -> (r: Vec<u8>)
    requires
        event_channel_ok(e),
    ensures
        r@ == event_bytes(e),
{
    match e {
        MidiEvent::NoteOn { channel, pitch, velocity } => {
            let b = note_on_bytes(channel, pitch, velocity);
            let v = vec![b[0], b[1], b[2]];
            assert(v@ =~= b@);
            v
        },
        MidiEvent::NoteOff { channel, pitch } => {
            let b = note_off_bytes(channel, pitch);
            let v = vec![b[0], b[1], b[2]];
            assert(v@ =~= b@);
            v
        },
        MidiEvent::ProgramChange { channel, program } => {
            let b = program_change_bytes(channel, program);
            let v = vec![b[0], b[1]];
            assert(v@ =~= b@);
            v
        },
        MidiEvent::PitchBend { channel, value } => {
            let b = pitch_bend_bytes(channel, value);
            let v = vec![b[0], b[1], b[2]];
            assert(v@ =~= b@);
            v
        },
        MidiEvent::ClockTick => {
            let v = vec![0xF8u8];
            assert(v@ =~= seq![0xF8u8]);
            v
        },
        MidiEvent::ClockStart => {
            let v = vec![0xFAu8];
            assert(v@ =~= seq![0xFAu8]);
            v
        },
        MidiEvent::ClockContinue => {
            let v = vec![0xFBu8];
            assert(v@ =~= seq![0xFBu8]);
            v
        },
        MidiEvent::ClockStop => {
            let v = vec![0xFCu8];
            assert(v@ =~= seq![0xFCu8]);
            v
        },
    }
}

/// An incoming MIDI realtime message that drives clock sync.
#[derive(Debug, Clone, Copy, PartialEq, Eq, Structural)]
pub enum ClockMessage {
    Pulse,
    Start,
    Continue,
    Stop,
}

/// The clock message a raw incoming packet stands for: exactly one byte, 0xF8 (pulse),
/// 0xFA (start), 0xFB (continue) or 0xFC (stop); anything else is not one.
pub open spec fn clock_message_of(bytes: Seq<u8>) -> Option<ClockMessage> {
    if bytes.len() != 1 {
        None
    } else if bytes[0] == 0xF8 {
        Some(ClockMessage::Pulse)
    } else if bytes[0] == 0xFA {
        Some(ClockMessage::Start)
    } else if bytes[0] == 0xFB {
        Some(ClockMessage::Continue)
    } else if bytes[0] == 0xFC {
        Some(ClockMessage::Stop)
    } else {
        None
    }
}

/// The output message that relays a clock message downstream.
pub open spec fn relay_event(m: ClockMessage) -> MidiEvent {
    match m {
        ClockMessage::Pulse => MidiEvent::ClockTick,
        ClockMessage::Start => MidiEvent::ClockStart,
        ClockMessage::Continue => MidiEvent::ClockContinue,
        ClockMessage::Stop => MidiEvent::ClockStop,
    }
}

/// Classifies a raw incoming packet without touching any output.
pub fn classify_clock_message(bytes: &[u8]) -> (r: Option<ClockMessage>)
    ensures
        r == clock_message_of(bytes@),
{
    if bytes.len() != 1 {
        return None;
    }
    let b = bytes[0];
    if b == 0xF8 {
        Some(ClockMessage::Pulse)
    } else if b == 0xFA {
        Some(ClockMessage::Start)
    } else if b == 0xFB {
        Some(ClockMessage::Continue)
    } else if b == 0xFC {
        Some(ClockMessage::Stop)
    } else {
        None
    }
}

/// Classifies a raw incoming packet and, when it is a clock message, relays the matching
/// message to `output` before returning it; other packets leave the output untouched.
pub fn forward_clock_message<O: MidiOutput>(bytes: &[u8], output: &mut O) -> (r: Option<ClockMessage>)
    ensures
        r == clock_message_of(bytes@),
        final(output).sent() == match r {
            Some(m) => old(output).sent().push(relay_event(m)),
            None => old(output).sent(),
        },
{
    let message = classify_clock_message(bytes);
    match message {
        Some(m) => {
            let _ = match m {
                ClockMessage::Pulse => output.clock_tick(),
                ClockMessage::Start => output.clock_start(),
                ClockMessage::Continue => output.clock_continue(),
                ClockMessage::Stop => output.clock_stop(),
            };
            Some(m)
        },
        None => None,
    }
}

/// The position of the first port whose name is exactly `target`.
pub open spec fn first_port_named(names: Seq<String>, target: Seq<char>) -> Option<usize>
    decreases names.len(),
{
    if names.len() == 0 {
        None
    } else {
        match first_port_named(names.drop_last(), target) {
            Some(i) => Some(i),
            None => if names.last()@ == target { Some((names.len() - 1) as usize) } else { None },
        }
    }
}

proof fn lemma_first_port_named_prefix(names: Seq<String>, k: int, target: Seq<char>)
    requires
        0 <= k <= names.len(),
        first_port_named(names.take(k), target) is Some,
    ensures
        first_port_named(names, target) == first_port_named(names.take(k), target),
    decreases names.len(),
{
    if k == names.len() {
        assert(names.take(k) =~= names);
    } else {
        assert(names.drop_last().take(k) =~= names.take(k));
        lemma_first_port_named_prefix(names.drop_last(), k, target);
    }
}

/// Finds a port by exact name (no prefix match); the first of equal names wins.
pub fn find_port_by_name(names: &[String], target: &str) -> (r: Option<usize>)
    ensures
        r == first_port_named(names@, target@),
        r matches Some(i) ==> i < names@.len() && names@[i as int]@ == target@,
        r is None ==> forall|i: int| 0 <= i < names@.len() ==> names@[i]@ != target@,
{
    let mut i: usize = 0;
    while i < names.len()
        invariant
            i <= names@.len(),
            first_port_named(names@.take(i as int), target@) is None,
            forall|j: int| 0 <= j < i ==> names@[j]@ != target@,
        decreases names.len() - i,
    {
        assert(names@.take(i + 1).drop_last() =~= names@.take(i as int));
        if str_equal(names[i].as_str(), target) {
            proof {
                assert(first_port_named(names@.take(i + 1), target@) == Some(i));
                lemma_first_port_named_prefix(names@, i + 1, target@);
            }
            return Some(i);
        }
        i = i + 1;
    }
    assert(names@.take(names@.len() as int) =~= names@);
    None
}

/// A MIDI output port as listed to clients: its position in the system's port list and
/// its name.
pub struct MidiPortInfo {
    pub index: usize,
    pub name: String,
}

/// The ports to list, from the system's port names in order (None where a name could not be
/// read): every readable port, with its position in the system's list.
pub fn port_infos(names: Vec<Option<String>>) -> (r: Vec<MidiPortInfo>)
    ensures
        r@.len() == names@.filter(|o: Option<String>| o is Some).len(),
        forall|k: int| 0 <= k < r@.len() ==> {
            &&& #[trigger] r@[k].index < names@.len()
            &&& names@[r@[k].index as int] matches Some(n) && n@ == r@[k].name@
        },
        forall|k: int, l: int| 0 <= k < l < r@.len() ==> r@[k].index < r@[l].index,
        forall|i: int| 0 <= i < names@.len() && #[trigger] names@[i] is Some ==> exists|k: int| 0 <= k < r@.len() && r@[k].index == i,
{
    let mut out: Vec<MidiPortInfo> = Vec::new();
    let mut i: usize = 0;
    while i < names.len()
        invariant
            i <= names@.len(),
            out@.len() == names@.take(i as int).filter(|o: Option<String>| o is Some).len(),
            forall|k: int| 0 <= k < out@.len() ==> {
                &&& #[trigger] out@[k].index < i
                &&& names@[out@[k].index as int] matches Some(n) && n@ == out@[k].name@
            },
            forall|k: int, l: int| 0 <= k < l < out@.len() ==> out@[k].index < out@[l].index,
            forall|j: int| 0 <= j < i && #[trigger] names@[j] is Some ==> exists|k: int| 0 <= k < out@.len() && out@[k].index == j,
        decreases names.len() - i,
    {
        let ghost before = out@;
        proof {
            assert(names@.take(i + 1) =~= names@.take(i as int).push(names@[i as int]));
            names@.take(i as int).lemma_filter_push(names@[i as int], |o: Option<String>| o is Some);
        }
        match &names[i] {
            Some(n) => {
                out.push(MidiPortInfo { index: i, name: n.clone() });
                proof {
                    assert forall|j: int| 0 <= j < i + 1 && #[trigger] names@[j] is Some implies exists|k: int| 0 <= k < out@.len() && out@[k].index == j by {
                        if j < i {
                            let k = choose|k: int| 0 <= k < before.len() && before[k].index == j;
                            assert(out@[k].index == j);
                        } else {
                            assert(out@[before.len() as int].index == j);
                        }
                    }
                }
            },
            None => {},
        }
        i = i + 1;
    }
    assert(names@.take(names@.len() as int) =~= names@);
    out
}

} // verus!
