use vstd::prelude::*;

verus! {

/// Ticks per quarter note.
pub const PPQN: u32 = 480;

/// A note: starts at `start_tick` (offset from the loop start) and sounds for `duration` ticks.
/// Pitch and velocity are kept as sent, so that validation sees values above 127 (and above
/// 255) before they become MIDI data bytes.
#[derive(Debug, Clone, Copy, PartialEq, Eq, Structural)]
pub struct Note {
    pub start_tick: u32,
    pub duration: u32,
    pub pitch: u32,
    pub velocity: u32,
}

/// A 14-bit pitch-bend event at a tick offset from the loop start (8192 is center).
#[derive(Debug, Clone, Copy, PartialEq, Eq, Structural)]
pub struct PitchBend {
    pub tick: u32,
    pub value: u32,
}

/// Global timing of a project.
#[derive(Debug, Clone, Copy, PartialEq, Eq, Structural)]
pub struct Header {
    pub bpm: u32,
    pub loop_duration: u32,
}

/// One instrument part, played on a MIDI channel.
pub struct Track {
    pub name: String,
    pub channel: u8,
    pub instrument: u8,
    pub notes: Vec<Note>,
    pub pitch_bends: Vec<PitchBend>,
}

/// A complete project: a header and its tracks.
pub struct Project {
    pub header: Header,
    pub tracks: Vec<Track>,
}

/// Pitch-bend value that means "no bend".
pub const PITCH_BEND_CENTER: u32 = 8192;

/// Largest 14-bit pitch-bend value.
pub const PITCH_BEND_MAX: u32 = 16383;

/// Copies a list of notes element by element.
pub fn copy_notes(notes: &Vec<Note>) -> (res: Vec<Note>)
    ensures
        res@ == notes@,
{
    let mut res: Vec<Note> = Vec::new();
    let mut i: usize = 0;
    while i < notes.len()
        invariant
            i <= notes.len(),
            res@ == notes@.take(i as int),
        decreases notes.len() - i,
    {
        res.push(notes[i]);
        i = i + 1;
        assert(res@ =~= notes@.take(i as int));
    }
    assert(notes@.take(notes.len() as int) =~= notes@);
    res
}

/// Copies a list of pitch-bend events element by element.
pub fn copy_pitch_bends(bends: &Vec<PitchBend>) -> (res: Vec<PitchBend>)
    ensures
        res@ == bends@,
{
    let mut res: Vec<PitchBend> = Vec::new();
    let mut i: usize = 0;
    while i < bends.len()
        invariant
            i <= bends.len(),
            res@ == bends@.take(i as int),
        decreases bends.len() - i,
    {
        res.push(bends[i]);
        i = i + 1;
        assert(res@ =~= bends@.take(i as int));
    }
    assert(bends@.take(bends.len() as int) =~= bends@);
    res
}

/// The data of a track.
pub struct TrackView {
    pub name: Seq<char>,
    pub channel: u8,
    pub instrument: u8,
    pub notes: Seq<Note>,
    pub pitch_bends: Seq<PitchBend>,
}

impl View for Track {
    type V = TrackView;

    open spec fn view(&self) -> TrackView {
        TrackView {
            name: self.name@,
            channel: self.channel,
            instrument: self.instrument,
            notes: self.notes@,
            pitch_bends: self.pitch_bends@,
        }
    }
}

/// The data of a list of tracks.
pub open spec fn tracks_view(tracks: Seq<Track>) -> Seq<TrackView> {
    tracks.map_values(|t: Track| t@)
}

/// The data of a project.
pub struct ProjectView {
    pub header: Header,
    pub tracks: Seq<TrackView>,
}

impl View for Project {
    type V = ProjectView;

    open spec fn view(&self) -> ProjectView {
        ProjectView { header: self.header, tracks: tracks_view(self.tracks@) }
    }
}

impl Track {
    /// A deep copy of the track.
    pub fn copy(&self) -> (res: Track)
        ensures
            res@ == self@,
    {
        Track {
            name: self.name.clone(),
            channel: self.channel,
            instrument: self.instrument,
            notes: copy_notes(&self.notes),
            pitch_bends: copy_pitch_bends(&self.pitch_bends),
        }
    }
}

/// Copies a list of tracks.
pub fn copy_tracks(tracks: &Vec<Track>) -> (res: Vec<Track>)
    ensures
        tracks_view(res@) == tracks_view(tracks@),
{
    let mut res: Vec<Track> = Vec::new();
    let mut i: usize = 0;
    while i < tracks.len()
        invariant
            i <= tracks.len(),
            res@.len() == i,
            forall|k: int| 0 <= k < i ==> #[trigger] res@[k]@ == tracks@[k]@,
        decreases tracks.len() - i,
    {
        let t = tracks[i].copy();
        res.push(t);
        i = i + 1;
    }
    assert(tracks_view(res@) =~= tracks_view(tracks@));
    res
}

impl Project {
    /// A deep copy of the project.
    pub fn copy(&self) -> (res: Project)
        ensures
            res@ == self@,
    {
        Project { header: self.header, tracks: copy_tracks(&self.tracks) }
    }
}

} // verus!
