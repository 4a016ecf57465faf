use vstd::prelude::*;

use crate::domain::project::{tracks_view, Note, PitchBend, Track, TrackView};
use crate::midi::MidiEvent;

verus! {

broadcast use vstd::seq_lib::to_multiset_insert, vstd::seq_lib::to_multiset_build;

/// What the player does at a tick of the loop.
#[derive(Debug, Clone, Copy, PartialEq, Eq, Structural)]
pub enum LoopEvent {
    NoteOn { channel: u8, pitch: u8, velocity: u8 },
    NoteOff { channel: u8, pitch: u8 },
    PitchBend { channel: u8, value: u16 },
    ClockPulse,
}

/// Order of events that fall on the same tick: note-offs first, then note-ons and pitch
/// bends (in the order they were built: a track's bends before its notes), then pulses.
pub open spec fn priority_of(e: LoopEvent) -> u8 {
    match e {
        LoopEvent::NoteOff { .. } => 0,
        LoopEvent::NoteOn { .. } => 1,
        LoopEvent::PitchBend { .. } => 1,
        LoopEvent::ClockPulse => 2,
    }
}

impl LoopEvent {
    /// Rank among events on the same tick: NoteOff 0, NoteOn and PitchBend 1, ClockPulse 2.
    pub fn priority(&self) -> (r: u8)
        ensures
            r == priority_of(*self),
    {
        match self {
            LoopEvent::NoteOff { .. } => 0,
            LoopEvent::NoteOn { .. } => 1,
            LoopEvent::PitchBend { .. } => 1,
            LoopEvent::ClockPulse => 2,
        }
    }
}

/// An event at a tick offset from the start of the current loop pass.
#[derive(Debug, Clone, Copy, PartialEq, Eq, Structural)]
pub struct TimedEvent {
    pub tick: u64,
    pub event: LoopEvent,
}

/// The output message an event stands for.
pub open spec fn midi_of(e: LoopEvent) -> MidiEvent {
    match e {
        LoopEvent::NoteOn { channel, pitch, velocity } => MidiEvent::NoteOn { channel, pitch, velocity },
        LoopEvent::NoteOff { channel, pitch } => MidiEvent::NoteOff { channel, pitch },
        LoopEvent::PitchBend { channel, value } => MidiEvent::PitchBend { channel, value },
        LoopEvent::ClockPulse => MidiEvent::ClockTick,
    }
}

/// The output message an event stands for.
pub fn to_midi(e: LoopEvent) -> (r: MidiEvent)
    ensures
        r == midi_of(e),
{
    match e {
        LoopEvent::NoteOn { channel, pitch, velocity } => MidiEvent::NoteOn { channel, pitch, velocity },
        LoopEvent::NoteOff { channel, pitch } => MidiEvent::NoteOff { channel, pitch },
        LoopEvent::PitchBend { channel, value } => MidiEvent::PitchBend { channel, value },
        LoopEvent::ClockPulse => MidiEvent::ClockTick,
    }
}

/// `a` may come before `b` in a pass: earlier tick, or same tick and no higher priority.
pub open spec fn event_le(a: TimedEvent, b: TimedEvent) -> bool {
    a.tick < b.tick || (a.tick == b.tick && priority_of(a.event) <= priority_of(b.event))
}

/// A sequence of events in pass order.
pub open spec fn events_sorted(s: Seq<TimedEvent>) -> bool {
    forall|i: int, j: int| 0 <= i < j < s.len() ==> event_le(#[trigger] s[i], #[trigger] s[j])
}

/// Where a new event goes when it joins an already ordered sequence: after the last
/// element that may precede it, so that events with equal keys keep their arrival order.
pub open spec fn insert_pos(x: TimedEvent, s: Seq<TimedEvent>) -> int
    decreases s.len(),
{
    if s.len() == 0 {
        0
    } else if event_le(s.last(), x) {
        s.len() as int
    } else {
        insert_pos(x, s.drop_last())
    }
}

/// The stable sort of events by (tick, priority).
pub open spec fn sort_events(s: Seq<TimedEvent>) -> Seq<TimedEvent>
    decreases s.len(),
{
    if s.len() == 0 {
        Seq::empty()
    } else {
        let sorted = sort_events(s.drop_last());
        sorted.insert(insert_pos(s.last(), sorted), s.last())
    }
}

proof fn lemma_insert_pos_bounds(x: TimedEvent, s: Seq<TimedEvent>)
    ensures
        0 <= insert_pos(x, s) <= s.len(),
        forall|i: int| insert_pos(x, s) <= i < s.len() ==> !event_le(#[trigger] s[i], x),
        insert_pos(x, s) > 0 ==> event_le(s[insert_pos(x, s) - 1], x),
    decreases s.len(),
{
    if s.len() > 0 && !event_le(s.last(), x) {
        lemma_insert_pos_bounds(x, s.drop_last());
        assert forall|i: int| insert_pos(x, s) <= i < s.len() implies !event_le(#[trigger] s[i], x) by {
            if i < s.len() - 1 {
                assert(s[i] == s.drop_last()[i]);
            }
        }
    }
}

/// The insertion position lies within the sequence.
pub proof fn lemma_insert_pos_in_range(x: TimedEvent, s: Seq<TimedEvent>)
    ensures
        0 <= insert_pos(x, s) <= s.len(),
{
    lemma_insert_pos_bounds(x, s);
}

proof fn lemma_sort_events(s: Seq<TimedEvent>)
    ensures
        events_sorted(sort_events(s)),
        sort_events(s).len() == s.len(),
        sort_events(s).to_multiset() == s.to_multiset(),
    decreases s.len(),
{
    if s.len() > 0 {
        let init = s.drop_last();
        let x = s.last();
        let sorted = sort_events(init);
        lemma_sort_events(init);
        lemma_insert_pos_bounds(x, sorted);
        let k = insert_pos(x, sorted);
        let r = sorted.insert(k, x);
        sorted.insert_ensures(k, x);
        assert forall|i: int, j: int| 0 <= i < j < r.len() implies event_le(#[trigger] r[i], #[trigger] r[j]) by {
            if j < k {
                assert(r[i] == sorted[i] && r[j] == sorted[j]);
            } else if j == k {
                assert(r[i] == sorted[i]);
                if i < k - 1 {
                    assert(event_le(sorted[i], sorted[k - 1]));
                }
            } else if i == k {
                assert(r[j] == sorted[j - 1]);
                assert(!event_le(sorted[k], x));
                if j - 1 > k {
                    assert(event_le(sorted[k], sorted[j - 1]));
                }
            } else if i < k {
                assert(r[i] == sorted[i] && r[j] == sorted[j - 1]);
            } else {
                assert(r[i] == sorted[i - 1] && r[j] == sorted[j - 1]);
            }
        }
        assert(s =~= init.push(x));
        assert(r.to_multiset() == sorted.to_multiset().insert(x));
        assert(init.push(x).to_multiset() == init.to_multiset().insert(x));
    } else {
        assert(s =~= Seq::<TimedEvent>::empty());
    }
}

/// Sorting puts events in pass order and neither drops nor adds any.
pub proof fn law_sort_orders_and_permutes(s: Seq<TimedEvent>)
    ensures
        events_sorted(sort_events(s)),
        sort_events(s).to_multiset() == s.to_multiset(),
{
    lemma_sort_events(s);
}

fn event_le_exec(a: &TimedEvent, b: &TimedEvent) -> (r: bool)
    ensures
        r == event_le(*a, *b),
{
    a.tick < b.tick || (a.tick == b.tick && a.event.priority() <= b.event.priority())
}

fn insert_sorted(v: &mut Vec<TimedEvent>, x: TimedEvent)
    ensures
        final(v)@ == old(v)@.insert(insert_pos(x, old(v)@), x),
{
    let mut j: usize = v.len();
    assert(v@.take(j as int) =~= v@);
    while j > 0 && !event_le_exec(&v[j - 1], &x)
        invariant
            j <= v@.len(),
            v@ == old(v)@,
            insert_pos(x, v@) == insert_pos(x, v@.take(j as int)),
        decreases j,
    {
        assert(v@.take(j as int).drop_last() =~= v@.take(j - 1));
        j = j - 1;
    }
    proof {
        if j > 0 {
            assert(v@.take(j as int).last() == v@[j - 1]);
        }
        assert(v@.take(v@.len() as int) =~= v@);
    }
    v.insert(j, x);
}

/// Sorts events by (tick, priority), keeping equal keys in the order they arrived.
pub fn sort_timed_events(events: &Vec<TimedEvent>) -> (r: Vec<TimedEvent>)
    ensures
        r@ == sort_events(events@),
{
    let mut r: Vec<TimedEvent> = Vec::new();
    let mut i: usize = 0;
    while i < events.len()
        invariant
            i <= events.len(),
            r@ == sort_events(events@.take(i as int)),
        decreases events.len() - i,
    {
        assert(events@.take(i + 1).drop_last() =~= events@.take(i as int));
        insert_sorted(&mut r, events[i]);
        i = i + 1;
    }
    assert(events@.take(events.len() as int) =~= events@);
    r
}

/// The note-on of a note on a channel, at its start tick. Pitch and velocity go out as MIDI
/// data bytes; a project that passed validation holds both below 128, so nothing is lost there.
pub open spec fn note_on_of(channel: u8, n: Note) -> TimedEvent {
    TimedEvent {
        tick: n.start_tick as u64,
        event: LoopEvent::NoteOn { channel, pitch: n.pitch as u8, velocity: n.velocity as u8 },
    }
}

/// The note-off of a note on a channel, at its end tick.
pub open spec fn note_off_of(channel: u8, n: Note) -> TimedEvent {
    TimedEvent { tick: (n.start_tick + n.duration) as u64, event: LoopEvent::NoteOff { channel, pitch: n.pitch as u8 } }
}

/// The events one note contributes to a pass of a loop of `loop_duration` ticks: a note-on at
/// its start and a note-off at its end; a note-off that falls past the loop end goes to the
/// second list, to be played in the next pass.
pub open spec fn note_timed(channel: u8, n: Note, loop_duration: u64) -> (Seq<TimedEvent>, Seq<TimedEvent>) {
    let on = note_on_of(channel, n);
    let off = note_off_of(channel, n);
    if off.tick > loop_duration {
        (seq![on], seq![off])
    } else {
        (seq![on, off], Seq::empty())
    }
}

/// The events of a list of notes, in note order.
pub open spec fn notes_timed(channel: u8, notes: Seq<Note>, loop_duration: u64) -> (Seq<TimedEvent>, Seq<TimedEvent>)
    decreases notes.len(),
{
    if notes.len() == 0 {
        (Seq::empty(), Seq::empty())
    } else {
        let prev = notes_timed(channel, notes.drop_last(), loop_duration);
        let cur = note_timed(channel, notes.last(), loop_duration);
        (prev.0 + cur.0, prev.1 + cur.1)
    }
}

/// The events of all tracks, track by track.
/// The pitch-bend events of a track on its channel, in the order given.
pub open spec fn bends_timed(channel: u8, bends: Seq<PitchBend>) -> Seq<TimedEvent> {
    bends.map_values(|b: PitchBend| bend_of(channel, b))
}

/// A pitch-bend entry as an event on a channel, at its tick.
pub open spec fn bend_of(channel: u8, b: PitchBend) -> TimedEvent {
    TimedEvent { tick: b.tick as u64, event: LoopEvent::PitchBend { channel, value: b.value as u16 } }
}

pub open spec fn tracks_timed(tracks: Seq<TrackView>, loop_duration: u64) -> (Seq<TimedEvent>, Seq<TimedEvent>)
    decreases tracks.len(),
{
    if tracks.len() == 0 {
        (Seq::empty(), Seq::empty())
    } else {
        let prev = tracks_timed(tracks.drop_last(), loop_duration);
        let t = tracks.last();
        let cur = notes_timed(t.channel, t.notes, loop_duration);
        (prev.0 + bends_timed(t.channel, t.pitch_bends) + cur.0, prev.1 + cur.1)
    }
}

/// An element of either part is an element of the two put together.
proof fn lemma_contains_concat(a: Seq<TimedEvent>, b: Seq<TimedEvent>, x: TimedEvent)
    ensures
        a.contains(x) ==> (a + b).contains(x),
        b.contains(x) ==> (a + b).contains(x),
{
    if a.contains(x) {
        let i = choose|i: int| 0 <= i < a.len() && a[i] == x;
        assert((a + b)[i] == x);
    }
    if b.contains(x) {
        let i = choose|i: int| 0 <= i < b.len() && b[i] == x;
        assert((a + b)[a.len() + i] == x);
    }
}

/// The events of a list of notes: the held-over part holds only note-offs past the loop end,
/// the note-offs of the main part lie within the loop, and every note gives its note-on to the
/// main part and its note-off to the part its end tick decides.
pub proof fn lemma_notes_timed_parts(channel: u8, notes: Seq<Note>, ld: u64)
    ensures
        ({
            let r = notes_timed(channel, notes, ld);
            &&& forall|i: int| 0 <= i < r.1.len() ==> (#[trigger] r.1[i]).event is NoteOff && r.1[i].tick > ld
            &&& forall|i: int| 0 <= i < r.0.len() && (#[trigger] r.0[i]).event is NoteOff ==> r.0[i].tick <= ld
            &&& forall|j: int| 0 <= j < notes.len() ==> r.0.contains(note_on_of(channel, #[trigger] notes[j]))
                && if note_off_of(channel, notes[j]).tick <= ld {
                    r.0.contains(note_off_of(channel, notes[j]))
                } else {
                    r.1.contains(note_off_of(channel, notes[j]))
                }
        }),
    decreases notes.len(),
{
    if notes.len() > 0 {
        let init = notes.drop_last();
        lemma_notes_timed_parts(channel, init, ld);
        let prev = notes_timed(channel, init, ld);
        let cur = note_timed(channel, notes.last(), ld);
        let r = notes_timed(channel, notes, ld);
        assert forall|i: int| 0 <= i < r.1.len() implies (#[trigger] r.1[i]).event is NoteOff && r.1[i].tick > ld by {
            if i < prev.1.len() {
                assert(r.1[i] == prev.1[i]);
            } else {
                assert(r.1[i] == cur.1[i - prev.1.len()]);
            }
        }
        assert forall|i: int| 0 <= i < r.0.len() && (#[trigger] r.0[i]).event is NoteOff implies r.0[i].tick <= ld by {
            if i < prev.0.len() {
                assert(r.0[i] == prev.0[i]);
            } else {
                assert(r.0[i] == cur.0[i - prev.0.len()]);
            }
        }
        assert forall|j: int| 0 <= j < notes.len() implies r.0.contains(note_on_of(channel, #[trigger] notes[j]))
            && if note_off_of(channel, notes[j]).tick <= ld {
                r.0.contains(note_off_of(channel, notes[j]))
            } else {
                r.1.contains(note_off_of(channel, notes[j]))
            } by {
            let n = notes[j];
            let on = note_on_of(channel, n);
            let off = note_off_of(channel, n);
            if j < init.len() {
                assert(init[j] == n);
            } else {
                assert(cur.0[0] == on);
                if off.tick <= ld {
                    assert(cur.0[1] == off);
                } else {
                    assert(cur.1[0] == off);
                }
            }
            lemma_contains_concat(prev.0, cur.0, on);
            lemma_contains_concat(prev.0, cur.0, off);
            lemma_contains_concat(prev.1, cur.1, off);
        }
    }
}

/// The events of all tracks: as for one list of notes, and besides every pitch-bend entry of
/// every track goes to the main part on its track's channel.
pub proof fn lemma_tracks_timed_parts(tracks: Seq<TrackView>, ld: u64)
    ensures
        ({
            let r = tracks_timed(tracks, ld);
            &&& forall|i: int| 0 <= i < r.1.len() ==> (#[trigger] r.1[i]).event is NoteOff && r.1[i].tick > ld
            &&& forall|i: int| 0 <= i < r.0.len() && (#[trigger] r.0[i]).event is NoteOff ==> r.0[i].tick <= ld
            &&& forall|k: int, j: int| 0 <= k < tracks.len() && 0 <= j < tracks[k].notes.len()
                ==> r.0.contains(note_on_of(tracks[k].channel, #[trigger] tracks[k].notes[j]))
                && if note_off_of(tracks[k].channel, tracks[k].notes[j]).tick <= ld {
                    r.0.contains(note_off_of(tracks[k].channel, tracks[k].notes[j]))
                } else {
                    r.1.contains(note_off_of(tracks[k].channel, tracks[k].notes[j]))
                }
            &&& forall|k: int, j: int| 0 <= k < tracks.len() && 0 <= j < tracks[k].pitch_bends.len()
                ==> r.0.contains(bend_of(tracks[k].channel, #[trigger] tracks[k].pitch_bends[j]))
        }),
    decreases tracks.len(),
{
    if tracks.len() > 0 {
        let init = tracks.drop_last();
        let t = tracks.last();
        lemma_tracks_timed_parts(init, ld);
        lemma_notes_timed_parts(t.channel, t.notes, ld);
        let prev = tracks_timed(init, ld);
        let bt = bends_timed(t.channel, t.pitch_bends);
        let cur = notes_timed(t.channel, t.notes, ld);
        let r = tracks_timed(tracks, ld);
        let head = prev.0 + bt;
        assert(r.0 == head + cur.0);
        assert forall|i: int| 0 <= i < r.1.len() implies (#[trigger] r.1[i]).event is NoteOff && r.1[i].tick > ld by {
            if i < prev.1.len() {
                assert(r.1[i] == prev.1[i]);
            } else {
                assert(r.1[i] == cur.1[i - prev.1.len()]);
            }
        }
        assert forall|i: int| 0 <= i < r.0.len() && (#[trigger] r.0[i]).event is NoteOff implies r.0[i].tick <= ld by {
            if i < prev.0.len() {
                assert(r.0[i] == prev.0[i]);
            } else if i < head.len() {
                assert(r.0[i] == bt[i - prev.0.len()]);
            } else {
                assert(r.0[i] == cur.0[i - head.len()]);
            }
        }
        assert forall|k: int, j: int| 0 <= k < tracks.len() && 0 <= j < tracks[k].notes.len()
            implies r.0.contains(note_on_of(tracks[k].channel, #[trigger] tracks[k].notes[j]))
            && if note_off_of(tracks[k].channel, tracks[k].notes[j]).tick <= ld {
                r.0.contains(note_off_of(tracks[k].channel, tracks[k].notes[j]))
            } else {
                r.1.contains(note_off_of(tracks[k].channel, tracks[k].notes[j]))
            } by {
            let on = note_on_of(tracks[k].channel, tracks[k].notes[j]);
            let off = note_off_of(tracks[k].channel, tracks[k].notes[j]);
            if k < init.len() {
                assert(init[k] == tracks[k]);
                assert(init[k].notes[j] == tracks[k].notes[j]);
            } else {
                assert(t.notes[j] == tracks[k].notes[j]);
            }
            lemma_contains_concat(prev.0, bt, on);
            lemma_contains_concat(prev.0, bt, off);
            lemma_contains_concat(head, cur.0, on);
            lemma_contains_concat(head, cur.0, off);
            lemma_contains_concat(prev.1, cur.1, off);
        }
        assert forall|k: int, j: int| 0 <= k < tracks.len() && 0 <= j < tracks[k].pitch_bends.len()
            implies r.0.contains(bend_of(tracks[k].channel, #[trigger] tracks[k].pitch_bends[j])) by {
            let e = bend_of(tracks[k].channel, tracks[k].pitch_bends[j]);
            if k < init.len() {
                assert(init[k] == tracks[k]);
                assert(init[k].pitch_bends[j] == tracks[k].pitch_bends[j]);
            } else {
                assert(bt[j] == e);
            }
            lemma_contains_concat(prev.0, bt, e);
            lemma_contains_concat(head, cur.0, e);
        }
    }
}

/// MIDI clock pulses of one pass: every 20 ticks (24 per quarter note) from tick 0 up to,
/// not including, the loop end.
pub open spec fn clock_pulses(loop_duration: u64) -> Seq<TimedEvent> {
    Seq::new(((loop_duration + 19) / 20) as nat, |i: int| TimedEvent { tick: (20 * i) as u64, event: LoopEvent::ClockPulse })
}

fn push_bend_events(main: &mut Vec<TimedEvent>, channel: u8, bends: &Vec<PitchBend>)
    ensures
        final(main)@ == old(main)@ + bends_timed(channel, bends@),
{
    let mut i: usize = 0;
    while i < bends.len()
        invariant
            i <= bends.len(),
            main@ == old(main)@ + bends_timed(channel, bends@.take(i as int)),
        decreases bends.len() - i,
    {
        let b = bends[i];
        #[verifier::truncate]
        let value = b.value as u16;
        main.push(TimedEvent { tick: b.tick as u64, event: LoopEvent::PitchBend { channel, value } });
        i = i + 1;
        assert(main@ =~= old(main)@ + bends_timed(channel, bends@.take(i as int)));
    }
    assert(bends@.take(bends.len() as int) =~= bends@);
}

fn push_note_events(
    main: &mut Vec<TimedEvent>,
    overflow: &mut Vec<TimedEvent>,
    channel: u8,
    notes: &Vec<Note>,
    loop_duration: u64,
)
    ensures
        final(main)@ == old(main)@ + notes_timed(channel, notes@, loop_duration).0,
        final(overflow)@ == old(overflow)@ + notes_timed(channel, notes@, loop_duration).1,
{
    let mut i: usize = 0;
    while i < notes.len()
        invariant
            i <= notes.len(),
            main@ == old(main)@ + notes_timed(channel, notes@.take(i as int), loop_duration).0,
            overflow@ == old(overflow)@ + notes_timed(channel, notes@.take(i as int), loop_duration).1,
        decreases notes.len() - i,
    {
        let note = notes[i];
        let pitch: u8 = #[verifier::truncate] (note.pitch as u8);
        let velocity: u8 = #[verifier::truncate] (note.velocity as u8);
        assert(notes@.take(i + 1).drop_last() =~= notes@.take(i as int));
        let ghost prev = notes_timed(channel, notes@.take(i as int), loop_duration);
        let ghost cur = note_timed(channel, note, loop_duration);
        main.push(TimedEvent {
            tick: note.start_tick as u64,
            event: LoopEvent::NoteOn { channel, pitch, velocity },
        });
        let off_tick: u64 = note.start_tick as u64 + note.duration as u64;
        let off = TimedEvent { tick: off_tick, event: LoopEvent::NoteOff { channel, pitch } };
        if off_tick > loop_duration {
            overflow.push(off);
        } else {
            main.push(off);
        }
        assert(main@ =~= old(main)@ + prev.0 + cur.0);
        assert(overflow@ =~= old(overflow)@ + prev.1 + cur.1);
        i = i + 1;
    }
    assert(notes@.take(notes.len() as int) =~= notes@);
}

/// Appends the note events of every track (track by track, note by note) to `main`, and the
/// note-offs that fall past the loop end to `overflow`.
pub fn push_track_events(
    main: &mut Vec<TimedEvent>,
    overflow: &mut Vec<TimedEvent>,
    tracks: &Vec<Track>,
    loop_duration: u64,
)
    ensures
        final(main)@ == old(main)@ + tracks_timed(tracks_view(tracks@), loop_duration).0,
        final(overflow)@ == old(overflow)@ + tracks_timed(tracks_view(tracks@), loop_duration).1,
{
    let mut i: usize = 0;
    while i < tracks.len()
        invariant
            i <= tracks.len(),
            main@ == old(main)@ + tracks_timed(tracks_view(tracks@).take(i as int), loop_duration).0,
            overflow@ == old(overflow)@ + tracks_timed(tracks_view(tracks@).take(i as int), loop_duration).1,
        decreases tracks.len() - i,
    {
        let track = &tracks[i];
        let ghost tv = tracks_view(tracks@);
        assert(tv.take(i + 1).drop_last() =~= tv.take(i as int));
        assert(tv.take(i + 1).last() == track@);
        let ghost prev = tracks_timed(tv.take(i as int), loop_duration);
        let ghost cur = notes_timed(track.channel, track.notes@, loop_duration);
        push_bend_events(main, track.channel, &track.pitch_bends);
        push_note_events(main, overflow, track.channel, &track.notes, loop_duration);
        assert(main@ =~= old(main)@ + prev.0 + bends_timed(track.channel, track.pitch_bends@) + cur.0);
        assert(overflow@ =~= old(overflow)@ + prev.1 + cur.1);
        i = i + 1;
    }
    assert(tracks_view(tracks@).take(tracks.len() as int) =~= tracks_view(tracks@));
}

/// Appends the clock pulses of one pass to `events`.
pub fn push_clock_pulses(events: &mut Vec<TimedEvent>, loop_duration: u64)
    requires
        loop_duration <= u32::MAX,
    ensures
        final(events)@ == old(events)@ + clock_pulses(loop_duration),
{
    let mut cp: u64 = 0;
    let ghost count: int = 0;
    while cp < loop_duration
        invariant
            loop_duration <= u32::MAX,
            cp == 20 * count,
            0 <= count,
            cp < loop_duration + 20,
            cp <= loop_duration ==> count <= (loop_duration + 19) / 20,
            cp < loop_duration ==> count < (loop_duration + 19) / 20,
            cp >= loop_duration ==> count == (loop_duration + 19) / 20,
            events@ == old(events)@ + clock_pulses(loop_duration).take(count),
        decreases loop_duration + 20 - cp,
    {
        events.push(TimedEvent { tick: cp, event: LoopEvent::ClockPulse });
        proof {
            assert(clock_pulses(loop_duration).take(count + 1) =~= clock_pulses(loop_duration).take(count).push(
                TimedEvent { tick: cp, event: LoopEvent::ClockPulse },
            ));
            count = count + 1;
        }
        cp = cp + 20;
    }
    assert(clock_pulses(loop_duration).take(count) =~= clock_pulses(loop_duration));
}

/// The program changes a pass sends before its events: for each track in order whose
/// channel was last set to a different instrument (or never set), a program change, and the
/// channel's instrument is remembered.
pub open spec fn program_changes(instruments: Seq<Option<u8>>, tracks: Seq<TrackView>) -> (Seq<MidiEvent>, Seq<Option<u8>>)
    decreases tracks.len(),
{
    if tracks.len() == 0 {
        (Seq::empty(), instruments)
    } else {
        let prev = program_changes(instruments, tracks.drop_last());
        let t = tracks.last();
        if prev.1[t.channel as int] != Some(t.instrument) {
            (
                prev.0.push(MidiEvent::ProgramChange { channel: t.channel, program: t.instrument }),
                prev.1.update(t.channel as int, Some(t.instrument)),
            )
        } else {
            prev
        }
    }
}

proof fn lemma_program_changes_len(instruments: Seq<Option<u8>>, tracks: Seq<TrackView>)
    requires
        instruments.len() == 256,
    ensures
        program_changes(instruments, tracks).1.len() == 256,
    decreases tracks.len(),
{
    if tracks.len() > 0 {
        lemma_program_changes_len(instruments, tracks.drop_last());
    }
}

/// A channel remembers the instrument of the last track that plays on it.
proof fn lemma_pc_last_track(instruments: Seq<Option<u8>>, tracks: Seq<TrackView>, k: int)
    requires
        instruments.len() == 256,
        0 <= k < tracks.len(),
        forall|j: int| k < j < tracks.len() ==> tracks[j].channel != tracks[k].channel,
    ensures
        program_changes(instruments, tracks).1[tracks[k].channel as int] == Some(tracks[k].instrument),
    decreases tracks.len(),
{
    let init = tracks.drop_last();
    lemma_program_changes_len(instruments, init);
    if k < init.len() {
        assert(tracks[tracks.len() - 1].channel != tracks[k].channel);
        assert forall|j: int| k < j < init.len() implies init[j].channel != init[k].channel by {
            assert(init[j] == tracks[j]);
        }
        assert(init[k] == tracks[k]);
        lemma_pc_last_track(instruments, init, k);
    }
}

/// A channel no track plays on keeps what it remembered.
proof fn lemma_pc_untouched(instruments: Seq<Option<u8>>, tracks: Seq<TrackView>, c: u8)
    requires
        instruments.len() == 256,
        forall|k: int| 0 <= k < tracks.len() ==> tracks[k].channel != c,
    ensures
        program_changes(instruments, tracks).1[c as int] == instruments[c as int],
    decreases tracks.len(),
{
    if tracks.len() > 0 {
        let init = tracks.drop_last();
        assert forall|k: int| 0 <= k < init.len() implies init[k].channel != c by {
            assert(init[k] == tracks[k]);
        }
        lemma_program_changes_len(instruments, init);
        lemma_pc_untouched(instruments, init, c);
        assert(tracks[tracks.len() - 1].channel != c);
    }
}

/// What was sent for a shorter list of tracks is still sent for a longer one.
proof fn lemma_pc_prefix_kept(instruments: Seq<Option<u8>>, tracks: Seq<TrackView>, e: MidiEvent)
    requires
        tracks.len() > 0,
        program_changes(instruments, tracks.drop_last()).0.contains(e),
    ensures
        program_changes(instruments, tracks).0.contains(e),
{
    let prev = program_changes(instruments, tracks.drop_last()).0;
    let w = choose|w: int| 0 <= w < prev.len() && prev[w] == e;
    assert(program_changes(instruments, tracks).0[w] == e);
}

/// The first track on a channel gets a program change to its instrument whenever the channel
/// was not already on it.
proof fn lemma_pc_first_track(instruments: Seq<Option<u8>>, tracks: Seq<TrackView>, k: int)
    requires
        instruments.len() == 256,
        0 <= k < tracks.len(),
        forall|j: int| 0 <= j < k ==> tracks[j].channel != tracks[k].channel,
        instruments[tracks[k].channel as int] != Some(tracks[k].instrument),
    ensures
        program_changes(instruments, tracks).0.contains(
            MidiEvent::ProgramChange { channel: tracks[k].channel, program: tracks[k].instrument },
        ),
    decreases tracks.len(),
{
    let init = tracks.drop_last();
    let e = MidiEvent::ProgramChange { channel: tracks[k].channel, program: tracks[k].instrument };
    lemma_program_changes_len(instruments, init);
    if k < init.len() {
        assert(init[k] == tracks[k]);
        assert forall|j: int| 0 <= j < k implies init[j].channel != init[k].channel by {
            assert(init[j] == tracks[j]);
        }
        lemma_pc_first_track(instruments, init, k);
        lemma_pc_prefix_kept(instruments, tracks, e);
    } else {
        assert forall|j: int| 0 <= j < init.len() implies init[j].channel != tracks[k].channel by {
            assert(init[j] == tracks[j]);
        }
        lemma_pc_untouched(instruments, init, tracks[k].channel);
        let prev = program_changes(instruments, init);
        assert(program_changes(instruments, tracks).0[prev.0.len() as int] == e);
    }
}

/// A channel already on the instrument that every track on it uses stays on it and gets no
/// program change.
proof fn lemma_pc_channel_kept(instruments: Seq<Option<u8>>, tracks: Seq<TrackView>, c: u8)
    requires
        instruments.len() == 256,
        instruments[c as int] is Some,
        forall|k: int| 0 <= k < tracks.len() && tracks[k].channel == c ==> Some(tracks[k].instrument) == instruments[c as int],
    ensures
        program_changes(instruments, tracks).1[c as int] == instruments[c as int],
        forall|x: int| 0 <= x < program_changes(instruments, tracks).0.len()
            ==> !((#[trigger] program_changes(instruments, tracks).0[x]) is ProgramChange
                && program_changes(instruments, tracks).0[x]->ProgramChange_channel == c),
    decreases tracks.len(),
{
    if tracks.len() > 0 {
        let init = tracks.drop_last();
        assert forall|k: int| 0 <= k < init.len() && init[k].channel == c
            implies Some(init[k].instrument) == instruments[c as int] by {
            assert(init[k] == tracks[k]);
        }
        lemma_program_changes_len(instruments, init);
        lemma_pc_channel_kept(instruments, init, c);
        let t = tracks[tracks.len() - 1];
        assert(t == tracks.last());
        let prev = program_changes(instruments, init);
        let r = program_changes(instruments, tracks);
        assert forall|x: int| 0 <= x < r.0.len() implies !((#[trigger] r.0[x]) is ProgramChange
            && r.0[x]->ProgramChange_channel == c) by {
            if x < prev.0.len() {
                assert(r.0[x] == prev.0[x]);
            }
        }
    }
}

/// Every program change sent is the channel and instrument of one of the tracks.
proof fn lemma_pc_from_tracks(instruments: Seq<Option<u8>>, tracks: Seq<TrackView>)
    ensures
        forall|x: int| 0 <= x < program_changes(instruments, tracks).0.len() ==> exists|k: int| 0 <= k < tracks.len()
            && #[trigger] program_changes(instruments, tracks).0[x]
                == (MidiEvent::ProgramChange { channel: tracks[k].channel, program: tracks[k].instrument }),
    decreases tracks.len(),
{
    if tracks.len() > 0 {
        let init = tracks.drop_last();
        lemma_pc_from_tracks(instruments, init);
        let prev = program_changes(instruments, init);
        let r = program_changes(instruments, tracks);
        assert forall|x: int| 0 <= x < r.0.len() implies exists|k: int| 0 <= k < tracks.len()
            && #[trigger] r.0[x] == MidiEvent::ProgramChange { channel: tracks[k].channel, program: tracks[k].instrument } by {
            if x < prev.0.len() {
                assert(r.0[x] == prev.0[x]);
                let k = choose|k: int| 0 <= k < init.len()
                    && #[trigger] prev.0[x] == MidiEvent::ProgramChange { channel: init[k].channel, program: init[k].instrument };
                assert(init[k] == tracks[k]);
            } else {
                assert(tracks[tracks.len() - 1] == tracks.last());
            }
        }
    }
}

/// Program changes keep every channel on the instrument of its tracks. After a pass is built:
/// a channel remembers the instrument of the last track that plays on it, and a channel no
/// track plays on keeps what it remembered; the first track on a channel gets a program change
/// to its instrument whenever the channel was not already on that instrument (whether it had
/// another one or none); a channel already on the one instrument all its tracks use gets no
/// program change; and every program change sent is the channel and instrument of a track.
pub proof fn law_program_changes_follow_instruments(instruments: Seq<Option<u8>>, tracks: Seq<TrackView>)
    requires
        instruments.len() == 256,
    ensures
        ({
            let r = program_changes(instruments, tracks);
            &&& forall|k: int| 0 <= k < tracks.len()
                && (forall|j: int| k < j < tracks.len() ==> tracks[j].channel != tracks[k].channel)
                ==> r.1[(#[trigger] tracks[k]).channel as int] == Some(tracks[k].instrument)
            &&& forall|c: u8| (forall|k: int| 0 <= k < tracks.len() ==> tracks[k].channel != c)
                ==> r.1[c as int] == #[trigger] instruments[c as int]
            &&& forall|k: int| 0 <= k < tracks.len()
                && (forall|j: int| 0 <= j < k ==> tracks[j].channel != tracks[k].channel)
                && instruments[tracks[k].channel as int] != Some(tracks[k].instrument)
                ==> r.0.contains(MidiEvent::ProgramChange {
                    channel: (#[trigger] tracks[k]).channel,
                    program: tracks[k].instrument,
                })
            &&& forall|c: u8| (#[trigger] instruments[c as int]) is Some
                && (forall|k: int| 0 <= k < tracks.len() && tracks[k].channel == c
                    ==> Some(tracks[k].instrument) == instruments[c as int])
                ==> forall|x: int| 0 <= x < r.0.len() ==> !((#[trigger] r.0[x]) is ProgramChange
                    && r.0[x]->ProgramChange_channel == c)
            &&& forall|x: int| 0 <= x < r.0.len() ==> exists|k: int| 0 <= k < tracks.len()
                && #[trigger] r.0[x] == (MidiEvent::ProgramChange { channel: tracks[k].channel, program: tracks[k].instrument })
        }),
{
    let r = program_changes(instruments, tracks);
    assert forall|k: int| 0 <= k < tracks.len()
        && (forall|j: int| k < j < tracks.len() ==> tracks[j].channel != tracks[k].channel)
        implies r.1[(#[trigger] tracks[k]).channel as int] == Some(tracks[k].instrument) by {
        lemma_pc_last_track(instruments, tracks, k);
    }
    assert forall|c: u8| (forall|k: int| 0 <= k < tracks.len() ==> tracks[k].channel != c)
        implies r.1[c as int] == #[trigger] instruments[c as int] by {
        lemma_pc_untouched(instruments, tracks, c);
    }
    assert forall|k: int| 0 <= k < tracks.len()
        && (forall|j: int| 0 <= j < k ==> tracks[j].channel != tracks[k].channel)
        && instruments[tracks[k].channel as int] != Some(tracks[k].instrument)
        implies r.0.contains(MidiEvent::ProgramChange {
            channel: (#[trigger] tracks[k]).channel,
            program: tracks[k].instrument,
        }) by {
        lemma_pc_first_track(instruments, tracks, k);
    }
    assert forall|c: u8| (#[trigger] instruments[c as int]) is Some
        && (forall|k: int| 0 <= k < tracks.len() && tracks[k].channel == c
            ==> Some(tracks[k].instrument) == instruments[c as int])
        implies forall|x: int| 0 <= x < r.0.len() ==> !((#[trigger] r.0[x]) is ProgramChange
            && r.0[x]->ProgramChange_channel == c) by {
        lemma_pc_channel_kept(instruments, tracks, c);
    }
    lemma_pc_from_tracks(instruments, tracks);
}

/// Sends the program changes a pass needs, updating the remembered instrument per channel.
pub fn collect_program_changes(instruments: &mut Vec<Option<u8>>, tracks: &Vec<Track>) -> (r: Vec<MidiEvent>)
    requires
        old(instruments)@.len() == 256,
    ensures
        (r@, final(instruments)@) == program_changes(old(instruments)@, tracks_view(tracks@)),
        final(instruments)@.len() == 256,
{
    let mut r: Vec<MidiEvent> = Vec::new();
    let mut i: usize = 0;
    while i < tracks.len()
        invariant
            i <= tracks.len(),
            instruments@.len() == 256,
            (r@, instruments@) == program_changes(old(instruments)@, tracks_view(tracks@).take(i as int)),
        decreases tracks.len() - i,
    {
        let track = &tracks[i];
        let ghost tv = tracks_view(tracks@);
        assert(tv.take(i + 1).drop_last() =~= tv.take(i as int));
        assert(tv.take(i + 1).last() == track@);
        let ch = track.channel as usize;
        let last = instruments[ch];
        if last != Some(track.instrument) {
            r.push(MidiEvent::ProgramChange { channel: track.channel, program: track.instrument });
            instruments.set(ch, Some(track.instrument));
        }
        i = i + 1;
    }
    assert(tracks_view(tracks@).take(tracks.len() as int) =~= tracks_view(tracks@));
    r
}

} // verus!
