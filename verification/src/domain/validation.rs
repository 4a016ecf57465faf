use vstd::prelude::*;

use super::project::{tracks_view, Note, PitchBend, Project, ProjectView, TrackView, PITCH_BEND_MAX};

verus! {

/// Why a project was rejected. Track, note and event positions are zero-based.
#[allow(inconsistent_fields)]
#[derive(Debug, Clone, Copy, PartialEq, Eq, Structural)]
pub enum ValidationError {
    BpmOutOfRange { actual: u32 },
    LoopDurationZero,
    InvalidMidiChannel { track: usize, actual: u8 },
    InvalidMidiInstrument { track: usize, actual: u8 },
    NoteDurationZero { track: usize, note: usize },
    NoteStartTickOutOfRange { track: usize, note: usize, start_tick: u32, loop_duration: u32 },
    NoteDurationExceedsLimit { track: usize, note: usize, duration: u32, limit: u64 },
    InvalidPitch { track: usize, note: usize, actual: u32 },
    InvalidVelocity { track: usize, note: usize, actual: u32 },
    PitchBendValueOutOfRange { track: usize, event: usize, actual: u32 },
    PitchBendTickOutOfRange { track: usize, event: usize, tick: u32, loop_duration: u32 },
}

/// The error a single note produces, if any: a zero duration first, then a start tick at or
/// past the loop end, then a note that ends later than twice the loop duration, then a pitch
/// above 127, then a velocity above 127.
pub open spec fn note_error(track: usize, index: int, n: Note, loop_duration: u32) -> Option<ValidationError> {
    if n.duration == 0 {
        Some(ValidationError::NoteDurationZero { track, note: index as usize })
    } else if n.start_tick >= loop_duration {
        Some(ValidationError::NoteStartTickOutOfRange {
            track,
            note: index as usize,
            start_tick: n.start_tick,
            loop_duration,
        })
    } else if n.start_tick + n.duration > 2 * loop_duration {
        Some(ValidationError::NoteDurationExceedsLimit {
            track,
            note: index as usize,
            duration: n.duration,
            limit: (2 * loop_duration) as u64,
        })
    } else if n.pitch > 127 {
        Some(ValidationError::InvalidPitch { track, note: index as usize, actual: n.pitch })
    } else if n.velocity > 127 {
        Some(ValidationError::InvalidVelocity { track, note: index as usize, actual: n.velocity })
    } else {
        None
    }
}

/// The first error among the notes, scanning in order.
pub open spec fn notes_error(track: usize, notes: Seq<Note>, loop_duration: u32) -> Option<ValidationError>
    decreases notes.len(),
{
    if notes.len() == 0 {
        None
    } else {
        match notes_error(track, notes.drop_last(), loop_duration) {
            Some(e) => Some(e),
            None => note_error(track, notes.len() - 1, notes.last(), loop_duration),
        }
    }
}

/// The error a single pitch-bend event produces, if any: a value above 16383 first, then
/// a tick at or past the loop end.
pub open spec fn bend_error(track: usize, index: int, b: PitchBend, loop_duration: u32) -> Option<ValidationError> {
    if b.value > PITCH_BEND_MAX {
        Some(ValidationError::PitchBendValueOutOfRange { track, event: index as usize, actual: b.value })
    } else if b.tick >= loop_duration {
        Some(ValidationError::PitchBendTickOutOfRange {
            track,
            event: index as usize,
            tick: b.tick,
            loop_duration,
        })
    } else {
        None
    }
}

/// The first error among the pitch-bend events, scanning in order.
pub open spec fn bends_error(track: usize, bends: Seq<PitchBend>, loop_duration: u32) -> Option<ValidationError>
    decreases bends.len(),
{
    if bends.len() == 0 {
        None
    } else {
        match bends_error(track, bends.drop_last(), loop_duration) {
            Some(e) => Some(e),
            None => bend_error(track, bends.len() - 1, bends.last(), loop_duration),
        }
    }
}

/// The error a track produces, if any: channel, then instrument, then its notes, then its
/// pitch-bend events.
pub open spec fn track_error(index: int, t: TrackView, loop_duration: u32) -> Option<ValidationError> {
    let ti = index as usize;
    if t.channel < 1 || t.channel > 16 {
        Some(ValidationError::InvalidMidiChannel { track: ti, actual: t.channel })
    } else if t.instrument > 127 {
        Some(ValidationError::InvalidMidiInstrument { track: ti, actual: t.instrument })
    } else {
        match notes_error(ti, t.notes, loop_duration) {
            Some(e) => Some(e),
            None => bends_error(ti, t.pitch_bends, loop_duration),
        }
    }
}

/// The first error among the tracks, scanning in order.
pub open spec fn tracks_error(tracks: Seq<TrackView>, loop_duration: u32) -> Option<ValidationError>
    decreases tracks.len(),
{
    if tracks.len() == 0 {
        None
    } else {
        match tracks_error(tracks.drop_last(), loop_duration) {
            Some(e) => Some(e),
            None => track_error(tracks.len() - 1, tracks.last(), loop_duration),
        }
    }
}

/// The first rule a project breaks, in the order the rules are checked: BPM range, then a
/// zero loop duration (before any track is looked at), then the tracks in order.
pub open spec fn project_error(p: ProjectView) -> Option<ValidationError> {
    if p.header.bpm < 20 || p.header.bpm > 300 {
        Some(ValidationError::BpmOutOfRange { actual: p.header.bpm })
    } else if p.header.loop_duration == 0 {
        Some(ValidationError::LoopDurationZero)
    } else {
        tracks_error(p.tracks, p.header.loop_duration)
    }
}

/// What `validate` returns for a project.
pub open spec fn validation_result(p: ProjectView) -> Result<(), ValidationError> {
    match project_error(p) {
        Some(e) => Err(e),
        None => Ok(()),
    }
}

/// A note obeys the timing rules of a loop of the given length.
pub open spec fn note_ok(n: Note, loop_duration: u32) -> bool {
    &&& n.duration > 0
    &&& n.start_tick < loop_duration
    &&& n.start_tick + n.duration <= 2 * loop_duration
    &&& n.pitch <= 127
    &&& n.velocity <= 127
}

/// A pitch-bend event obeys the rules of a loop of the given length.
pub open spec fn bend_ok(b: PitchBend, loop_duration: u32) -> bool {
    &&& b.value <= PITCH_BEND_MAX
    &&& b.tick < loop_duration
}

/// A track obeys every rule.
pub open spec fn track_ok(t: TrackView, loop_duration: u32) -> bool {
    &&& 1 <= t.channel <= 16
    &&& t.instrument <= 127
    &&& forall|j: int| 0 <= j < t.notes.len() ==> #[trigger] note_ok(t.notes[j], loop_duration)
    &&& forall|j: int| 0 <= j < t.pitch_bends.len() ==> #[trigger] bend_ok(t.pitch_bends[j], loop_duration)
}

/// The documented field rules of a project: BPM in 20..=300, a positive loop duration, MIDI
/// channels 1..=16, instruments 0..=127, positive note durations, note starts and bend ticks
/// inside the loop, notes ending no later than twice the loop duration, pitches and velocities
/// in 0..=127, and 14-bit bends.
pub open spec fn valid_project(p: ProjectView) -> bool {
    &&& 20 <= p.header.bpm <= 300
    &&& p.header.loop_duration > 0
    &&& forall|i: int| 0 <= i < p.tracks.len() ==> #[trigger] track_ok(p.tracks[i], p.header.loop_duration)
}

proof fn lemma_notes_error_none(track: usize, notes: Seq<Note>, ld: u32)
    ensures
        notes_error(track, notes, ld) is None <==> forall|j: int| 0 <= j < notes.len() ==> #[trigger] note_ok(notes[j], ld),
    decreases notes.len(),
{
    if notes.len() > 0 {
        let init = notes.drop_last();
        let n = notes.len() - 1;
        lemma_notes_error_none(track, init, ld);
        assert(note_error(track, n, notes[n], ld) is None <==> note_ok(notes[n], ld));
        if notes_error(track, notes, ld) is None {
            assert forall|j: int| 0 <= j < notes.len() implies #[trigger] note_ok(notes[j], ld) by {
                if j < n {
                    assert(init[j] == notes[j]);
                }
            }
        }
        if forall|j: int| 0 <= j < notes.len() ==> #[trigger] note_ok(notes[j], ld) {
            assert forall|j: int| 0 <= j < init.len() implies #[trigger] note_ok(init[j], ld) by {
                assert(init[j] == notes[j]);
            }
            assert(note_ok(notes[n], ld));
        }
    }
}

proof fn lemma_bends_error_none(track: usize, bends: Seq<PitchBend>, ld: u32)
    ensures
        bends_error(track, bends, ld) is None <==> forall|j: int| 0 <= j < bends.len() ==> #[trigger] bend_ok(bends[j], ld),
    decreases bends.len(),
{
    if bends.len() > 0 {
        let init = bends.drop_last();
        let n = bends.len() - 1;
        lemma_bends_error_none(track, init, ld);
        assert(bend_error(track, n, bends[n], ld) is None <==> bend_ok(bends[n], ld));
        if bends_error(track, bends, ld) is None {
            assert forall|j: int| 0 <= j < bends.len() implies #[trigger] bend_ok(bends[j], ld) by {
                if j < n {
                    assert(init[j] == bends[j]);
                }
            }
        }
        if forall|j: int| 0 <= j < bends.len() ==> #[trigger] bend_ok(bends[j], ld) {
            assert forall|j: int| 0 <= j < init.len() implies #[trigger] bend_ok(init[j], ld) by {
                assert(init[j] == bends[j]);
            }
            assert(bend_ok(bends[n], ld));
        }
    }
}

proof fn lemma_track_error_none(index: int, t: TrackView, ld: u32)
    ensures
        track_error(index, t, ld) is None <==> track_ok(t, ld),
{
    lemma_notes_error_none(index as usize, t.notes, ld);
    lemma_bends_error_none(index as usize, t.pitch_bends, ld);
}

proof fn lemma_tracks_error_none(tracks: Seq<TrackView>, ld: u32)
    ensures
        tracks_error(tracks, ld) is None <==> forall|i: int| 0 <= i < tracks.len() ==> #[trigger] track_ok(tracks[i], ld),
    decreases tracks.len(),
{
    if tracks.len() > 0 {
        let init = tracks.drop_last();
        let n = tracks.len() - 1;
        lemma_tracks_error_none(init, ld);
        lemma_track_error_none(n, tracks[n], ld);
        if tracks_error(tracks, ld) is None {
            assert forall|i: int| 0 <= i < tracks.len() implies #[trigger] track_ok(tracks[i], ld) by {
                if i < n {
                    assert(init[i] == tracks[i]);
                }
            }
        }
        if forall|i: int| 0 <= i < tracks.len() ==> #[trigger] track_ok(tracks[i], ld) {
            assert forall|i: int| 0 <= i < init.len() implies #[trigger] track_ok(init[i], ld) by {
                assert(init[i] == tracks[i]);
            }
            assert(track_ok(tracks[n], ld));
        }
    }
}

/// Validation accepts a project exactly when it obeys every documented field rule.
pub proof fn lemma_validate_accepts_exactly_valid_projects(p: ProjectView)
    ensures
        validation_result(p) is Ok <==> valid_project(p),
{
    lemma_tracks_error_none(p.tracks, p.header.loop_duration);
}

proof fn lemma_notes_error_prefix(track: usize, s: Seq<Note>, k: int, ld: u32)
    requires
        0 <= k <= s.len(),
        notes_error(track, s.take(k), ld) is Some,
    ensures
        notes_error(track, s, ld) == notes_error(track, s.take(k), ld),
    decreases s.len(),
{
    if k == s.len() {
        assert(s.take(k) =~= s);
    } else {
        assert(s.drop_last().take(k) =~= s.take(k));
        lemma_notes_error_prefix(track, s.drop_last(), k, ld);
    }
}

proof fn lemma_bends_error_prefix(track: usize, s: Seq<PitchBend>, k: int, ld: u32)
    requires
        0 <= k <= s.len(),
        bends_error(track, s.take(k), ld) is Some,
    ensures
        bends_error(track, s, ld) == bends_error(track, s.take(k), ld),
    decreases s.len(),
{
    if k == s.len() {
        assert(s.take(k) =~= s);
    } else {
        assert(s.drop_last().take(k) =~= s.take(k));
        lemma_bends_error_prefix(track, s.drop_last(), k, ld);
    }
}

proof fn lemma_tracks_error_prefix(s: Seq<TrackView>, k: int, ld: u32)
    requires
        0 <= k <= s.len(),
        tracks_error(s.take(k), ld) is Some,
    ensures
        tracks_error(s, ld) == tracks_error(s.take(k), ld),
    decreases s.len(),
{
    if k == s.len() {
        assert(s.take(k) =~= s);
    } else {
        assert(s.drop_last().take(k) =~= s.take(k));
        lemma_tracks_error_prefix(s.drop_last(), k, ld);
    }
}

fn check_notes(ti: usize, notes: &Vec<Note>, loop_duration: u32) -> (r: Option<ValidationError>)
    ensures
        r == notes_error(ti, notes@, loop_duration),
{
    let limit: u64 = 2 * (loop_duration as u64);
    let mut ni: usize = 0;
    while ni < notes.len()
        invariant
            ni <= notes.len(),
            limit == 2 * loop_duration,
            notes_error(ti, notes@.take(ni as int), loop_duration) is None,
        decreases notes.len() - ni,
    {
        let note = notes[ni];
        assert(notes@.take(ni + 1).drop_last() =~= notes@.take(ni as int));
        proof {
            let e = note_error(ti, ni as int, note, loop_duration);
            assert(notes_error(ti, notes@.take(ni + 1), loop_duration) == e);
            if e is Some {
                lemma_notes_error_prefix(ti, notes@, ni + 1, loop_duration);
            }
        }
        if note.duration == 0 {
            return Some(ValidationError::NoteDurationZero { track: ti, note: ni });
        }
        if note.start_tick >= loop_duration {
            return Some(ValidationError::NoteStartTickOutOfRange {
                track: ti,
                note: ni,
                start_tick: note.start_tick,
                loop_duration,
            });
        }
        if (note.start_tick as u64) + (note.duration as u64) > limit {
            return Some(ValidationError::NoteDurationExceedsLimit {
                track: ti,
                note: ni,
                duration: note.duration,
                limit,
            });
        }
        if note.pitch > 127 {
            return Some(ValidationError::InvalidPitch { track: ti, note: ni, actual: note.pitch });
        }
        if note.velocity > 127 {
            return Some(ValidationError::InvalidVelocity { track: ti, note: ni, actual: note.velocity });
        }
        ni = ni + 1;
    }
    assert(notes@.take(notes.len() as int) =~= notes@);
    None
}

fn check_bends(ti: usize, bends: &Vec<PitchBend>, loop_duration: u32) -> (r: Option<ValidationError>)
    ensures
        r == bends_error(ti, bends@, loop_duration),
{
    let mut ei: usize = 0;
    while ei < bends.len()
        invariant
            ei <= bends.len(),
            bends_error(ti, bends@.take(ei as int), loop_duration) is None,
        decreases bends.len() - ei,
    {
        let bend = bends[ei];
        assert(bends@.take(ei + 1).drop_last() =~= bends@.take(ei as int));
        proof {
            let e = bend_error(ti, ei as int, bend, loop_duration);
            assert(bends_error(ti, bends@.take(ei + 1), loop_duration) == e);
            if e is Some {
                lemma_bends_error_prefix(ti, bends@, ei + 1, loop_duration);
            }
        }
        if bend.value > PITCH_BEND_MAX {
            return Some(ValidationError::PitchBendValueOutOfRange { track: ti, event: ei, actual: bend.value });
        }
        if bend.tick >= loop_duration {
            return Some(ValidationError::PitchBendTickOutOfRange {
                track: ti,
                event: ei,
                tick: bend.tick,
                loop_duration,
            });
        }
        ei = ei + 1;
    }
    assert(bends@.take(bends.len() as int) =~= bends@);
    None
}

/// Checks a project against the field rules and reports the first rule broken: BPM outside
/// 20..=300, then a zero loop duration, then per track in order its channel (1..=16), its
/// instrument (0..=127), each note in order (zero duration, start tick at or past the loop
/// end, end past twice the loop duration) and each pitch-bend event in order (value above
/// 16383, tick at or past the loop end).
pub fn validate(project: &Project) -> (r: Result<(), ValidationError>)
    ensures
        r == validation_result(project@),
{
    if project.header.bpm < 20 || project.header.bpm > 300 {
        return Err(ValidationError::BpmOutOfRange { actual: project.header.bpm });
    }
    if project.header.loop_duration == 0 {
        return Err(ValidationError::LoopDurationZero);
    }
    let loop_duration = project.header.loop_duration;
    let tracks = &project.tracks;
    let mut ti: usize = 0;
    while ti < tracks.len()
        invariant
            ti <= tracks.len(),
            tracks == &project.tracks,
            loop_duration == project.header.loop_duration,
            project_error(project@) == tracks_error(tracks_view(tracks@), loop_duration),
            tracks_error(tracks_view(tracks@).take(ti as int), loop_duration) is None,
        decreases tracks.len() - ti,
    {
        let track = &tracks[ti];
        proof {
            let tv = tracks_view(tracks@);
            assert(tv.take(ti + 1).drop_last() =~= tv.take(ti as int));
            assert(tv.take(ti + 1).last() == tv[ti as int]);
            assert(tv[ti as int] == track@);
            let e = track_error(ti as int, track@, loop_duration);
            assert(tracks_error(tv.take(ti + 1), loop_duration) == e);
            if e is Some {
                lemma_tracks_error_prefix(tv, ti + 1, loop_duration);
            }
        }
        if track.channel < 1 || track.channel > 16 {
            return Err(ValidationError::InvalidMidiChannel { track: ti, actual: track.channel });
        }
        if track.instrument > 127 {
            return Err(ValidationError::InvalidMidiInstrument { track: ti, actual: track.instrument });
        }
        match check_notes(ti, &track.notes, loop_duration) {
            Some(e) => {
                return Err(e);
            },
            None => {},
        }
        match check_bends(ti, &track.pitch_bends, loop_duration) {
            Some(e) => {
                return Err(e);
            },
            None => {},
        }
        ti = ti + 1;
    }
    assert(tracks_view(tracks@).take(tracks.len() as int) =~= tracks_view(tracks@));
    Ok(())
}

} // verus!
