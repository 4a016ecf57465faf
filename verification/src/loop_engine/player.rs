use vstd::prelude::*;

use crate::domain::project::{tracks_view, Project, ProjectView};
use crate::domain::store::ProjectStore;
use crate::midi::MidiEvent;
use super::events::{
    clock_pulses, collect_program_changes, midi_of, push_clock_pulses, push_track_events,
    event_le, events_sorted, law_sort_orders_and_permutes, sort_events, sort_timed_events, to_midi, tracks_timed,
    LoopEvent, TimedEvent,
};
use super::model::{
    begin_pass, bend_center, fire, notes_after, reset_channels, with_bend_channels, rebased, waiting_poll, boundary, build, flush, halted, max_tick, no_instruments, on_command, paused_at, remaining_of,
    started_with, sync_continued, sync_restarted, ticks_bounded, from_tick, ActiveNote, AnchorUpdate,
    EngineState, EngineView, LoopCommand, PauseView,
};
use super::scheduler::{lemma_micros_per_tick_bounded, micros_per_tick_at, Scheduler};

verus! {

/// The unplayed rest of a paused pass and the loop length it was built for.
pub struct PauseContext {
    pub remaining_events: Vec<TimedEvent>,
    pub loop_duration: u64,
}

/// What the caller must do after a step: send `midi` in order, then move the anchor.
pub struct Step {
    pub midi: Vec<MidiEvent>,
    pub anchor: AnchorUpdate,
}

/// The loop player: a state machine driven by commands, by the passing of time (the next
/// event falling due) and by polls while it waits for a project. It decides what to send and
/// how the timing anchor moves; the caller owns the clock, the output port and the store lock.
pub struct LoopEngine {
    state: EngineState,
    is_clock_mode: bool,
    active_notes: Vec<ActiveNote>,
    bent_channels: Vec<u8>,
    last_instruments: Vec<Option<u8>>,
    scheduler: Scheduler,
    pause_context: Option<PauseContext>,
    loop_duration: u64,
    carry_over: Vec<TimedEvent>,
    next_carry_over: Vec<TimedEvent>,
    loop_elapsed_ticks: u64,
    pending_sync_bpm: Option<u32>,
    current_tick: u64,
    loop_duration_ticks: u64,
    loop_count: u64,
    pass: Option<Vec<TimedEvent>>,
    pass_pos: usize,
}

impl View for LoopEngine {
    type V = EngineView;

    closed spec fn view(&self) -> EngineView {
        EngineView {
            state: self.state,
            clock_mode: self.is_clock_mode,
            active_notes: self.active_notes@,
            bent_channels: self.bent_channels@,
            instruments: self.last_instruments@,
            bpm: self.scheduler@.bpm,
            micros_per_tick: self.scheduler@.micros_per_tick,
            paused: match self.pause_context {
                Some(c) => Some(PauseView { remaining: c.remaining_events@, loop_duration: c.loop_duration }),
                None => None,
            },
            loop_duration: self.loop_duration,
            carry_over: self.carry_over@,
            next_carry_over: self.next_carry_over@,
            elapsed: self.loop_elapsed_ticks,
            pending_sync_bpm: self.pending_sync_bpm,
            current_tick: self.current_tick,
            loop_duration_ticks: self.loop_duration_ticks,
            loop_count: self.loop_count,
            pass: match self.pass {
                Some(p) => Some(p@),
                None => None,
            },
            pos: self.pass_pos as nat,
        }
    }
}

fn fresh_instruments() -> (r: Vec<Option<u8>>)
    ensures
        r@ == no_instruments(),
{
    let mut r: Vec<Option<u8>> = Vec::new();
    let mut i: usize = 0;
    while i < 256
        invariant
            i <= 256,
            r@ == Seq::new(i as nat, |k: int| None::<u8>),
        decreases 256 - i,
    {
        r.push(None);
        i = i + 1;
        assert(r@ =~= Seq::new(i as nat, |k: int| None::<u8>));
    }
    assert(r@ =~= no_instruments());
    r
}

fn copy_events(s: &Vec<TimedEvent>) -> (r: Vec<TimedEvent>)
    ensures
        r@ == s@,
{
    let mut r: Vec<TimedEvent> = Vec::new();
    let mut i: usize = 0;
    while i < s.len()
        invariant
            i <= s.len(),
            r@ == s@.take(i as int),
        decreases s.len() - i,
    {
        r.push(s[i]);
        i = i + 1;
        assert(r@ =~= s@.take(i as int));
    }
    assert(s@.take(s.len() as int) =~= s@);
    r
}

/// The events of `events` at or after `tick`, in order.
fn events_from_tick(events: &Vec<TimedEvent>, tick: u64) -> (r: Vec<TimedEvent>)
    ensures
        r@ == from_tick(events@, tick),
{
    let mut r: Vec<TimedEvent> = Vec::new();
    let mut i: usize = 0;
    while i < events.len()
        invariant
            i <= events.len(),
            r@ == from_tick(events@.take(i as int), tick),
        decreases events.len() - i,
    {
        proof {
            reveal_with_fuel(Seq::filter, 1);
            assert(events@.take(i + 1).drop_last() =~= events@.take(i as int));
        }
        if events[i].tick >= tick {
            r.push(events[i]);
        }
        i = i + 1;
    }
    assert(events@.take(events.len() as int) =~= events@);
    r
}

proof fn lemma_sorted_bounded(s: Seq<TimedEvent>)
    requires
        ticks_bounded(s),
    ensures
        ticks_bounded(sort_events(s)),
    decreases s.len(),
{
    if s.len() > 0 {
        let init = s.drop_last();
        let x = s.last();
        assert forall|i: int| 0 <= i < init.len() implies #[trigger] init[i].tick <= max_tick() by {
            assert(init[i] == s[i]);
        }
        lemma_sorted_bounded(init);
        let sorted = sort_events(init);
        let k = super::events::insert_pos(x, sorted);
        super::events::lemma_insert_pos_in_range(x, sorted);
        sorted.insert_ensures(k, x);
        let r = sorted.insert(k, x);
        assert forall|i: int| 0 <= i < r.len() implies #[trigger] r[i].tick <= max_tick() by {
            if i < k {
                assert(r[i] == sorted[i]);
            } else if i > k {
                assert(r[i] == sorted[i - 1]);
            }
        }
    }
}

proof fn lemma_filter_bounded(s: Seq<TimedEvent>, tick: u64)
    requires
        ticks_bounded(s),
    ensures
        ticks_bounded(from_tick(s, tick)),
    decreases s.len(),
{
    reveal_with_fuel(Seq::filter, 1);
    if s.len() > 0 {
        let init = s.drop_last();
        assert forall|i: int| 0 <= i < init.len() implies #[trigger] init[i].tick <= max_tick() by {
            assert(init[i] == s[i]);
        }
        lemma_filter_bounded(init, tick);
        assert(from_tick(s, tick) == if s.last().tick >= tick { from_tick(init, tick).push(s.last()) } else { from_tick(init, tick) });
    }
}

/// Keeping the events at or after a tick keeps them in pass order.
proof fn lemma_from_tick_sorted(s: Seq<TimedEvent>, tick: u64)
    requires
        events_sorted(s),
    ensures
        events_sorted(from_tick(s, tick)),
    decreases s.len(),
{
    reveal_with_fuel(Seq::filter, 1);
    if s.len() > 0 {
        let init = s.drop_last();
        let x = s.last();
        assert forall|i: int, j: int| 0 <= i < j < init.len() implies event_le(#[trigger] init[i], #[trigger] init[j]) by {
            assert(init[i] == s[i] && init[j] == s[j]);
        }
        lemma_from_tick_sorted(init, tick);
        let f = from_tick(init, tick);
        assert(from_tick(s, tick) == if x.tick >= tick { f.push(x) } else { f });
        if x.tick >= tick {
            let r = f.push(x);
            assert forall|i: int, j: int| 0 <= i < j < r.len() implies event_le(#[trigger] r[i], #[trigger] r[j]) by {
                if j == f.len() {
                    broadcast use vstd::seq::Seq::lemma_filter_contains_rev;
                    assert(f.contains(r[i])) by { assert(f[i] == r[i]); }
                    let k = choose|k: int| 0 <= k < init.len() && init[k] == r[i];
                    assert(s[k] == init[k]);
                    assert(event_le(s[k], s[s.len() - 1]));
                } else {
                    assert(r[i] == f[i] && r[j] == f[j]);
                }
            }
        }
    }
}

proof fn lemma_tracks_timed_bounded(tracks: Seq<crate::domain::project::TrackView>, ld: u64)
    ensures
        ticks_bounded(tracks_timed(tracks, ld).0),
        ticks_bounded(tracks_timed(tracks, ld).1),
    decreases tracks.len(),
{
    if tracks.len() > 0 {
        lemma_tracks_timed_bounded(tracks.drop_last(), ld);
        lemma_notes_timed_bounded(tracks.last().channel, tracks.last().notes, ld);
    }
}

proof fn lemma_notes_timed_bounded(channel: u8, notes: Seq<crate::domain::project::Note>, ld: u64)
    ensures
        ticks_bounded(super::events::notes_timed(channel, notes, ld).0),
        ticks_bounded(super::events::notes_timed(channel, notes, ld).1),
    decreases notes.len(),
{
    if notes.len() > 0 {
        lemma_notes_timed_bounded(channel, notes.drop_last(), ld);
    }
}

proof fn lemma_pulses_bounded(ld: u64)
    requires
        ld <= u32::MAX,
    ensures
        ticks_bounded(clock_pulses(ld)),
{
}

proof fn lemma_concat_bounded(a: Seq<TimedEvent>, b: Seq<TimedEvent>)
    requires
        ticks_bounded(a),
        ticks_bounded(b),
    ensures
        ticks_bounded(a + b),
{
    assert forall|i: int| 0 <= i < (a + b).len() implies #[trigger] (a + b)[i].tick <= max_tick() by {
        if i < a.len() {
            assert((a + b)[i] == a[i]);
        } else {
            assert((a + b)[i] == b[i - a.len()]);
        }
    }
}

/// The data of an optional borrowed project.
pub open spec fn active_view(active: Option<&Project>) -> Option<ProjectView> {
    match active {
        Some(p) => Some(p@),
        None => None,
    }
}

fn contains_channel(v: &Vec<u8>, c: u8) -> (r: bool)
    ensures
        r == v@.contains(c),
{
    let mut k: usize = 0;
    while k < v.len()
        invariant
            k <= v.len(),
            forall|j: int| 0 <= j < k ==> v@[j] != c,
        decreases v.len() - k,
    {
        if v[k] == c {
            assert(v@[k as int] == c);
            return true;
        }
        k = k + 1;
    }
    false
}

/// The channels `reset_channels` names for `bent` and the active project.
fn channels_to_reset(bent: &Vec<u8>, active: Option<&Project>) -> (r: Vec<u8>)
    ensures
        r@ == match active_view(active) {
            Some(p) => with_bend_channels(bent@, p.tracks),
            None => bent@,
        },
{
    let mut acc: Vec<u8> = Vec::new();
    let mut j: usize = 0;
    while j < bent.len()
        invariant
            j <= bent.len(),
            acc@ == bent@.take(j as int),
        decreases bent.len() - j,
    {
        acc.push(bent[j]);
        j = j + 1;
        assert(acc@ =~= bent@.take(j as int));
    }
    assert(bent@.take(j as int) =~= bent@);
    match active {
        None => acc,
        Some(p) => {
            let ghost tv = tracks_view(p.tracks@);
            let mut i: usize = 0;
            while i < p.tracks.len()
                invariant
                    i <= p.tracks.len(),
                    tv == tracks_view(p.tracks@),
                    acc@ == with_bend_channels(bent@, tv.take(i as int)),
                decreases p.tracks.len() - i,
            {
                let t = &p.tracks[i];
                assert(tv.take(i + 1).drop_last() =~= tv.take(i as int));
                assert(tv.take(i + 1).last() == t@);
                if t.pitch_bends.len() > 0 && !contains_channel(&acc, t.channel) {
                    acc.push(t.channel);
                }
                i = i + 1;
            }
            assert(tv.take(p.tracks.len() as int) =~= tv);
            acc
        },
    }
}

impl LoopEngine {
    /// A stopped player at 120 BPM with nothing sounding.
    pub fn new() -> (e: LoopEngine)
        ensures
            e@ == EngineView::initial(),
            e@.wf(),
    {
        LoopEngine {
            state: EngineState::Stopped,
            is_clock_mode: false,
            active_notes: Vec::new(),
            bent_channels: Vec::new(),
            last_instruments: fresh_instruments(),
            scheduler: Scheduler::new(120),
            pause_context: None,
            loop_duration: 480,
            carry_over: Vec::new(),
            next_carry_over: Vec::new(),
            loop_elapsed_ticks: 0,
            pending_sync_bpm: None,
            current_tick: 0,
            loop_duration_ticks: 0,
            loop_count: 0,
            pass: None,
            pass_pos: 0,
        }
    }

    /// Where the player is.
    pub fn state(&self) -> (r: EngineState)
        ensures
            r == self@.state,
    {
        self.state
    }

    /// The tick of the last event played in this pass; 0 at a loop boundary and after a stop.
    pub fn current_tick(&self) -> (r: u64)
        ensures
            r == self@.current_tick,
    {
        self.current_tick
    }

    /// The active project's loop length as of the last loop boundary; 0 before the first one
    /// and when no project was active then.
    pub fn loop_duration_ticks(&self) -> (r: u64)
        ensures
            r == self@.loop_duration_ticks,
    {
        self.loop_duration_ticks
    }

    /// Loop passes completed since the player was created.
    pub fn loop_count(&self) -> (r: u64)
        ensures
            r == self@.loop_count,
    {
        self.loop_count
    }

    /// The tempo the loop is scheduled at.
    pub fn bpm(&self) -> (r: u32)
        ensures
            r == self@.bpm,
    {
        self.scheduler.bpm()
    }

    /// Whether the player sends MIDI clock.
    pub fn is_clock_mode(&self) -> (r: bool)
        ensures
            r == self@.clock_mode,
    {
        self.is_clock_mode
    }

    /// Length of one tick in microseconds at the current tempo.
    pub fn micros_per_tick(&self) -> (r: u64)
        ensures
            r == self@.micros_per_tick,
    {
        self.scheduler.micros_per_tick()
    }

    /// Whether a pass is being played (built and not yet finished or abandoned).
    pub fn in_pass(&self) -> (r: bool)
        ensures
            r == (self@.pass is Some),
    {
        self.pass.is_some()
    }

    /// The microseconds after the anchor at which the next event of the pass is due, or None
    /// when every event of the pass has been played (or no pass is being played).
    pub fn next_event_offset_micros(&self) -> (r: Option<u64>)
        requires
            self@.wf(),
        ensures
            r == match self@.pass {
                Some(p) => if self@.pos < p.len() {
                    Some((p[self@.pos as int].tick * self@.micros_per_tick) as u64)
                } else {
                    None
                },
                None => None,
            },
    {
        match &self.pass {
            Some(p) => {
                if self.pass_pos < p.len() {
                    let tick = p[self.pass_pos].tick;
                    proof {
                        lemma_micros_per_tick_bounded(self@.bpm);
                        assert(tick * self@.micros_per_tick <= max_tick() * 125_000) by (nonlinear_arith)
                            requires tick <= max_tick(), self@.micros_per_tick <= 125_000;
                    }
                    Some(self.scheduler.tick_offset_micros(tick))
                } else {
                    None
                }
            },
            None => None,
        }
    }

    fn flush_notes(&mut self, active: Option<&Project>) -> (r: Vec<MidiEvent>)
        ensures
            r@ == flush(old(self)@, active_view(active)).1,
            final(self)@ == flush(old(self)@, active_view(active)).0,
    {
        let mut r: Vec<MidiEvent> = Vec::new();
        let mut i: usize = 0;
        while i < self.active_notes.len()
            invariant
                i <= self.active_notes.len(),
                self@ == old(self)@,
                r@ == old(self)@.active_notes.take(i as int).map_values(
                    |n: ActiveNote| MidiEvent::NoteOff { channel: n.channel, pitch: n.pitch },
                ),
            decreases self.active_notes.len() - i,
        {
            let n = self.active_notes[i];
            r.push(MidiEvent::NoteOff { channel: n.channel, pitch: n.pitch });
            i = i + 1;
            assert(r@ =~= old(self)@.active_notes.take(i as int).map_values(
                |n: ActiveNote| MidiEvent::NoteOff { channel: n.channel, pitch: n.pitch },
            ));
        }
        assert(old(self)@.active_notes.take(i as int) =~= old(self)@.active_notes);
        let ghost offs = r@;
        let resets = channels_to_reset(&self.bent_channels, active);
        assert(resets@ == reset_channels(old(self)@, active_view(active)));
        let mut j: usize = 0;
        while j < resets.len()
            invariant
                j <= resets.len(),
                self@ == old(self)@,
                r@ == offs + resets@.take(j as int).map_values(
                    |c: u8| MidiEvent::PitchBend { channel: c, value: bend_center() },
                ),
            decreases resets.len() - j,
        {
            let c = resets[j];
            r.push(MidiEvent::PitchBend { channel: c, value: 8192 });
            j = j + 1;
            assert(r@ =~= offs + resets@.take(j as int).map_values(
                |c: u8| MidiEvent::PitchBend { channel: c, value: bend_center() },
            ));
        }
        assert(resets@.take(j as int) =~= resets@);
        self.active_notes = Vec::new();
        self.bent_channels = Vec::new();
        assert(self@ =~= flush(old(self)@, active_view(active)).0);
        r
    }

    fn halt(&mut self, stop_clock: bool, active: Option<&Project>) -> (s: Step)
        requires
            old(self)@.wf(),
        ensures
            final(self)@ == halted(old(self)@, stop_clock, active_view(active)).view,
            s.midi@ == halted(old(self)@, stop_clock, active_view(active)).midi,
            s.anchor == halted(old(self)@, stop_clock, active_view(active)).anchor,
            final(self)@.wf(),
    {
        self.current_tick = 0;
        let mut midi = self.flush_notes(active);
        self.carry_over = Vec::new();
        self.next_carry_over = Vec::new();
        if stop_clock {
            midi.push(MidiEvent::ClockStop);
            self.is_clock_mode = false;
        }
        self.state = EngineState::Stopped;
        self.pass_pos = 0;
        self.pass = None;
        assert(self@ =~= halted(old(self)@, stop_clock, active_view(active)).view);
        Step { midi, anchor: AnchorUpdate::Keep }
    }

    fn sync_restart(&mut self, active: Option<&Project>) -> (s: Step)
        requires
            old(self)@.wf(),
        ensures
            final(self)@ == sync_restarted(old(self)@, active_view(active)).view,
            s.midi@ == sync_restarted(old(self)@, active_view(active)).midi,
            s.anchor == sync_restarted(old(self)@, active_view(active)).anchor,
            final(self)@.wf(),
    {
        self.current_tick = 0;
        let midi = self.flush_notes(active);
        self.carry_over = Vec::new();
        self.next_carry_over = Vec::new();
        self.last_instruments = fresh_instruments();
        self.pass_pos = 0;
        self.pass = None;
        assert(self@ =~= sync_restarted(old(self)@, active_view(active)).view);
        Step { midi, anchor: AnchorUpdate::StartAfterLatency }
    }

    fn pause(&mut self, active: Option<&Project>) -> (s: Step)
        requires
            old(self)@.wf(),
        ensures
            final(self)@ == paused_at(old(self)@, active_view(active)).view,
            s.midi@ == paused_at(old(self)@, active_view(active)).midi,
            s.anchor == paused_at(old(self)@, active_view(active)).anchor,
            final(self)@.wf(),
    {
        let midi = self.flush_notes(active);
        let remaining = match &self.pass {
            Some(p) => {
                let mut r: Vec<TimedEvent> = Vec::new();
                let mut i: usize = self.pass_pos;
                while i < p.len()
                    invariant
                        self.pass_pos <= i <= p.len(),
                        r@ == p@.subrange(self.pass_pos as int, i as int),
                    decreases p.len() - i,
                {
                    r.push(p[i]);
                    i = i + 1;
                    assert(r@ =~= p@.subrange(self.pass_pos as int, i as int));
                }
                r
            },
            None => Vec::new(),
        };
        proof {
            assert(remaining@ =~= remaining_of(old(self)@));
            assert(ticks_bounded(remaining@));
        }
        self.pause_context = Some(PauseContext { remaining_events: remaining, loop_duration: self.loop_duration });
        self.state = EngineState::Paused;
        self.pass_pos = 0;
        self.pass = None;
        assert(self@ =~= paused_at(old(self)@, active_view(active)).view);
        Step { midi, anchor: AnchorUpdate::Keep }
    }

    /// Builds the events of a pass. Returns whether there is a pass to play, the program
    /// changes to send first and the events.
    fn build_pass(&mut self, active: Option<&Project>) -> (r: (bool, Vec<MidiEvent>, Vec<TimedEvent>))
        requires
            old(self)@.wf(),
        ensures
            ({
                let b = build(old(self)@, match active { Some(p) => Some(p@), None => None });
                &&& final(self)@ == b.view
                &&& r.0 == b.ready
                &&& r.1@ == b.midi
                &&& r.2@ == b.events
            }),
            final(self)@.wf(),
            ticks_bounded(r.2@),
            events_sorted(r.2@),
    {
        match active {
            Some(project) => {
                let pcs = collect_program_changes(&mut self.last_instruments, &project.tracks);
                let ld: u64 = project.header.loop_duration as u64;
                if ld == 0 {
                    return (false, pcs, Vec::new());
                }
                let mut unsorted = copy_events(&self.carry_over);
                let mut overflow: Vec<TimedEvent> = Vec::new();
                push_track_events(&mut unsorted, &mut overflow, &project.tracks, ld);
                if self.is_clock_mode {
                    push_clock_pulses(&mut unsorted, ld);
                }
                let ghost notes = tracks_timed(project@.tracks, ld);
                proof {
                    lemma_tracks_timed_bounded(project@.tracks, ld);
                    lemma_pulses_bounded(ld);
                    lemma_concat_bounded(old(self)@.carry_over, notes.0);
                    if self.is_clock_mode {
                        lemma_concat_bounded(old(self)@.carry_over + notes.0, clock_pulses(ld));
                        assert(unsorted@ =~= old(self)@.carry_over + notes.0 + clock_pulses(ld));
                    } else {
                        assert(unsorted@ =~= old(self)@.carry_over + notes.0 + Seq::<TimedEvent>::empty());
                    }
                    lemma_sorted_bounded(unsorted@);
                    law_sort_orders_and_permutes(unsorted@);
                    assert(overflow@ =~= notes.1);
                }
                let events = sort_timed_events(&unsorted);
                self.loop_duration = ld;
                self.carry_over = Vec::new();
                self.next_carry_over = overflow;
                (true, pcs, events)
            },
            None => {
                if self.is_clock_mode {
                    let mut unsorted = copy_events(&self.carry_over);
                    push_clock_pulses(&mut unsorted, self.loop_duration);
                    proof {
                        lemma_pulses_bounded(self.loop_duration);
                        lemma_concat_bounded(old(self)@.carry_over, clock_pulses(self.loop_duration));
                        lemma_sorted_bounded(unsorted@);
                        law_sort_orders_and_permutes(unsorted@);
                    }
                    let events = sort_timed_events(&unsorted);
                    self.carry_over = Vec::new();
                    (true, Vec::new(), events)
                } else {
                    (false, Vec::new(), Vec::new())
                }
            },
        }
    }

    fn continue_from_position(&mut self, active: Option<&Project>) -> (s: Step)
        requires
            old(self)@.wf(),
        ensures
            ({
                let t = sync_continued(old(self)@, match active { Some(p) => Some(p@), None => None });
                &&& final(self)@ == t.view
                &&& s.midi@ == t.midi
                &&& s.anchor == t.anchor
            }),
            final(self)@.wf(),
    {
        let elapsed = self.loop_elapsed_ticks;
        let (ready, midi, events) = self.build_pass(active);
        if ready {
            let remaining = events_from_tick(&events, elapsed);
            proof {
                lemma_filter_bounded(events@, elapsed);
                lemma_from_tick_sorted(events@, elapsed);
            }
            self.pause_context = Some(PauseContext { remaining_events: remaining, loop_duration: self.loop_duration });
        }
        self.pass_pos = 0;
        self.pass = None;
        Step { midi, anchor: AnchorUpdate::Keep }
    }

    fn start_with(&mut self, project: &Project)
        requires
            old(self)@.wf(),
            project.header.bpm > 0,
        ensures
            final(self)@ == started_with(old(self)@, project@),
            final(self)@.wf(),
    {
        self.last_instruments = fresh_instruments();
        self.scheduler = Scheduler::new(project.header.bpm);
        self.loop_duration = project.header.loop_duration as u64;
        self.state = EngineState::Running;
        assert(self@ =~= started_with(old(self)@, project@));
    }

    /// Starts the next pass while running: resumes a paused rest, or builds a pass from the
    /// active project. Returns what to send and whether there is a pass to play; when there
    /// is none the caller polls for a command and tries again a little later.
    pub fn begin_pass(&mut self, store: &ProjectStore) -> (r: (Step, bool))
        requires
            old(self)@.wf(),
            old(self)@.pass is None,
        ensures
            ({
                let (t, ready) = begin_pass(old(self)@, store@.active);
                &&& final(self)@ == t.view
                &&& r.0.midi@ == t.midi
                &&& r.0.anchor == t.anchor
                &&& r.1 == ready
            }),
            final(self)@.wf(),
    {
        let ctx = self.pause_context.take();
        match ctx {
            Some(c) => {
                let next: u64 = if c.remaining_events.len() > 0 { c.remaining_events[0].tick } else { 0 };
                proof {
                    lemma_micros_per_tick_bounded(self@.bpm);
                    assert(next <= max_tick());
                    assert(next * self@.micros_per_tick <= max_tick() * 125_000) by (nonlinear_arith)
                        requires next <= max_tick(), self@.micros_per_tick <= 125_000;
                }
                let back = self.scheduler.tick_offset_micros(next);
                self.loop_duration = c.loop_duration;
                self.pass_pos = 0;
                self.pass = Some(c.remaining_events);
                (Step { midi: Vec::new(), anchor: AnchorUpdate::ResumeBack(back) }, true)
            },
            None => {
                let (ready, midi, events) = self.build_pass(store.active());
                if ready {
                    self.pass_pos = 0;
                    self.pass = Some(events);
                    self.current_tick = 0;
                }
                (Step { midi, anchor: AnchorUpdate::Keep }, ready)
            },
        }
    }

    /// Plays the next event of the pass, which the caller has waited for: its tick becomes the
    /// position, a note-on marks its note sounding and a note-off releases it. Returns the
    /// message to send.
    pub fn fire_next_event(&mut self) -> (r: MidiEvent)
        requires
            old(self)@.wf(),
            old(self)@.pass matches Some(p) && old(self)@.pos < p.len(),
            old(self)@.state == EngineState::Running,
        ensures
            final(self)@ == fire(old(self)@).view,
            seq![r] == fire(old(self)@).midi,
            final(self)@.wf(),
    {
        let e = match &self.pass {
            Some(p) => {
                assert(self.pass_pos < p.len());
                p[self.pass_pos]
            },
            None => {
                assert(false);
                TimedEvent { tick: 0, event: LoopEvent::ClockPulse }
            },
        };
        proof {
            let p = old(self)@.pass.unwrap();
            let k = old(self)@.pos as int;
            assert forall|i: int| k + 1 <= i < p.len() implies #[trigger] p[i].tick >= e.tick by {
                assert(event_le(p[k], p[i]));
            }
        }
        self.loop_elapsed_ticks = e.tick;
        self.current_tick = e.tick;
        match e.event {
            LoopEvent::NoteOn { channel, pitch, .. } => {
                self.active_notes.push(ActiveNote { channel, pitch });
            },
            LoopEvent::NoteOff { channel, pitch } => {
                let mut kept: Vec<ActiveNote> = Vec::new();
                let mut i: usize = 0;
                let ghost pred = |n: ActiveNote| !(n.channel == channel && n.pitch == pitch);
                while i < self.active_notes.len()
                    invariant
                        i <= self.active_notes.len(),
                        self.active_notes@ == old(self)@.active_notes,
                        pred == (|n: ActiveNote| !(n.channel == channel && n.pitch == pitch)),
                        kept@ == self.active_notes@.take(i as int).filter(pred),
                    decreases self.active_notes.len() - i,
                {
                    let n = self.active_notes[i];
                    if !(n.channel == channel && n.pitch == pitch) {
                        kept.push(n);
                    }
                    proof {
                        reveal_with_fuel(Seq::filter, 1);
                        let t = self.active_notes@.take(i + 1);
                        assert(t.drop_last() =~= self.active_notes@.take(i as int));
                        assert(t.last() == n);
                        assert(pred(n) == !(n.channel == channel && n.pitch == pitch));
                        assert(kept@ == t.filter(pred));
                    }
                    i = i + 1;
                }
                assert(self.active_notes@.take(self.active_notes@.len() as int) =~= self.active_notes@);
                self.active_notes = kept;
            },
            LoopEvent::PitchBend { channel, .. } => {
                let mut known = false;
                let mut k: usize = 0;
                while k < self.bent_channels.len()
                    invariant
                        k <= self.bent_channels.len(),
                        known == self.bent_channels@.take(k as int).contains(channel),
                    decreases self.bent_channels.len() - k,
                {
                    if self.bent_channels[k] == channel {
                        known = true;
                    }
                    proof {
                        let t = self.bent_channels@.take(k + 1);
                        assert(t =~= self.bent_channels@.take(k as int).push(self.bent_channels@[k as int]));
                        if t.contains(channel) && !self.bent_channels@.take(k as int).contains(channel) {
                            let w = choose|w: int| 0 <= w < t.len() && t[w] == channel;
                            assert(w == k);
                        }
                        if self.bent_channels@.take(k as int).contains(channel) {
                            let w = choose|w: int| 0 <= w < k && self.bent_channels@.take(k as int)[w] == channel;
                            assert(t[w] == channel);
                        }
                        if self.bent_channels@[k as int] == channel {
                            assert(t[k as int] == channel);
                        }
                    }
                    k = k + 1;
                }
                assert(self.bent_channels@.take(k as int) =~= self.bent_channels@);
                if !known {
                    self.bent_channels.push(channel);
                }
            },
            LoopEvent::ClockPulse => {},
        }
        assert(self.pass_pos < usize::MAX) by {
            match &self.pass {
                Some(p) => {
                    assert(p.len() <= usize::MAX);
                },
                None => {},
            }
        }
        self.pass_pos = self.pass_pos + 1;
        assert(self@ =~= fire(old(self)@).view);
        to_midi(e.event)
    }

    /// The loop boundary after every event of the pass was played: the staged project is
    /// committed, the next tempo chosen, held note-offs re-timed and the position reset.
    pub fn finish_pass(&mut self, store: &mut ProjectStore) -> (s: Step)
        requires
            old(self)@.wf(),
            old(self)@.pass matches Some(p) && old(self)@.pos == p.len(),
            old(self)@.state == EngineState::Running,
        ensures
            final(store)@ == old(store)@.commit(),
            ({
                let t = boundary(old(self)@, final(store)@.active);
                &&& final(self)@ == t.view
                &&& s.midi@ == t.midi
                &&& s.anchor == t.anchor
            }),
            final(self)@.wf(),
    {
        proof {
            lemma_micros_per_tick_bounded(self@.bpm);
            assert(self.loop_duration * self@.micros_per_tick <= (u32::MAX as u64) * 125_000) by (nonlinear_arith)
                requires self.loop_duration <= u32::MAX, self@.micros_per_tick <= 125_000;
        }
        let advance: u64 = self.loop_duration * self.scheduler.micros_per_tick();
        store.commit_pending();
        proof {
            use_type_invariant(&*store);
        }
        let active = store.active();
        self.loop_duration_ticks = match active {
            Some(p) => p.header.loop_duration as u64,
            None => 0,
        };
        let old_bpm = self.scheduler.bpm();
        let bpm: u32 = match self.pending_sync_bpm {
            Some(b) => b,
            None => match active {
                Some(p) => p.header.bpm,
                None => old_bpm,
            },
        };
        self.pending_sync_bpm = None;
        if self.loop_count < u64::MAX {
            self.loop_count = self.loop_count + 1;
        }
        let anchor = if bpm != old_bpm {
            self.scheduler.update_bpm(bpm);
            AnchorUpdate::Now
        } else {
            AnchorUpdate::AdvanceBy(advance)
        };
        let ld = self.loop_duration;
        let mut rebased_events: Vec<TimedEvent> = Vec::new();
        let mut i: usize = 0;
        while i < self.next_carry_over.len()
            invariant
                i <= self.next_carry_over.len(),
                self.next_carry_over@ == old(self)@.next_carry_over,
                ld == old(self)@.loop_duration,
                rebased_events@ == self.next_carry_over@.take(i as int).map_values(|e: TimedEvent| rebased(e, ld)),
                ticks_bounded(self.next_carry_over@),
                ticks_bounded(rebased_events@),
            decreases self.next_carry_over.len() - i,
        {
            let e = self.next_carry_over[i];
            let tick: u64 = if e.tick >= ld { e.tick - ld } else { 0 };
            rebased_events.push(TimedEvent { tick, event: e.event });
            i = i + 1;
            assert(rebased_events@ =~= self.next_carry_over@.take(i as int).map_values(|e: TimedEvent| rebased(e, ld)));
        }
        assert(self.next_carry_over@.take(i as int) =~= self.next_carry_over@);
        proof {
            lemma_sorted_bounded(rebased_events@);
        }
        self.carry_over = sort_timed_events(&rebased_events);
        self.next_carry_over = Vec::new();
        self.loop_elapsed_ticks = 0;
        self.current_tick = 0;
        self.pass_pos = 0;
        self.pass = None;
        assert(self@ =~= boundary(old(self)@, store@.active).view);
        Step { midi: Vec::new(), anchor }
    }

    /// A poll while waiting for a project: commits the staged project when none is active, and
    /// starts the loop once a project is active.
    pub fn poll_waiting(&mut self, store: &mut ProjectStore) -> (s: Step)
        requires
            old(self)@.wf(),
            old(self)@.state == EngineState::Waiting,
        ensures
            final(store)@ == if old(store)@.active is None { old(store)@.commit() } else { old(store)@ },
            ({
                let t = waiting_poll(old(self)@, final(store)@.active);
                &&& final(self)@ == t.view
                &&& s.midi@ == t.midi
                &&& s.anchor == t.anchor
            }),
            final(self)@.wf(),
    {
        if store.active().is_none() {
            store.commit_pending();
        }
        proof {
            use_type_invariant(&*store);
        }
        match store.active() {
            Some(p) => {
                self.start_with(p);
                Step { midi: Vec::new(), anchor: AnchorUpdate::StartAfterLatency }
            },
            None => Step { midi: Vec::new(), anchor: AnchorUpdate::Keep },
        }
    }

    /// Handles a transport or tempo command in the current state; see `on_command`.
    /// A clock start while stopped needs an active project, and a tempo update must be positive.
    pub fn handle_command(&mut self, cmd: LoopCommand, store: &ProjectStore) -> (s: Step)
        requires
            old(self)@.wf(),
            old(self)@.state == EngineState::Stopped && cmd == LoopCommand::ClockStart ==> store@.active is Some,
            cmd matches LoopCommand::SyncBpmUpdate(b) ==> b > 0,
        ensures
            ({
                let t = on_command(old(self)@, cmd, store@.active);
                &&& final(self)@ == t.view
                &&& s.midi@ == t.midi
                &&& s.anchor == t.anchor
            }),
            final(self)@.wf(),
    {
        proof {
            use_type_invariant(store);
        }
        let active = store.active();
        match self.state {
            EngineState::Stopped => match cmd {
                LoopCommand::Start => match active {
                    Some(p) => {
                        self.start_with(p);
                        self.is_clock_mode = false;
                        Step { midi: Vec::new(), anchor: AnchorUpdate::StartAfterLatency }
                    },
                    None => {
                        self.state = EngineState::Waiting;
                        Step { midi: Vec::new(), anchor: AnchorUpdate::Keep }
                    },
                },
                LoopCommand::ClockStart => {
                    let p = active.unwrap();
                    self.start_with(p);
                    self.is_clock_mode = true;
                    let mut midi = Vec::new();
                    midi.push(MidiEvent::ClockStart);
                    Step { midi, anchor: AnchorUpdate::StartAfterLatency }
                },
                LoopCommand::SyncStart | LoopCommand::SyncContinue => match active {
                    Some(p) => {
                        self.start_with(p);
                        Step { midi: Vec::new(), anchor: AnchorUpdate::StartAfterLatency }
                    },
                    None => {
                        self.state = EngineState::Waiting;
                        Step { midi: Vec::new(), anchor: AnchorUpdate::Keep }
                    },
                },
                LoopCommand::SyncBpmUpdate(b) => {
                    self.pending_sync_bpm = Some(b);
                    Step { midi: Vec::new(), anchor: AnchorUpdate::Keep }
                },
                _ => Step { midi: Vec::new(), anchor: AnchorUpdate::Keep },
            },
            EngineState::Waiting => match cmd {
                LoopCommand::Stop | LoopCommand::SyncStop | LoopCommand::SyncPause => {
                    self.state = EngineState::Stopped;
                    Step { midi: Vec::new(), anchor: AnchorUpdate::Keep }
                },
                _ => Step { midi: Vec::new(), anchor: AnchorUpdate::Keep },
            },
            EngineState::Running => match cmd {
                LoopCommand::Stop => {
                    let stop_clock = self.is_clock_mode;
                    self.halt(stop_clock, active)
                },
                LoopCommand::ClockStop => self.halt(true, active),
                LoopCommand::SyncStop => self.halt(false, active),
                LoopCommand::SyncStart => self.sync_restart(active),
                LoopCommand::SyncContinue => self.continue_from_position(active),
                LoopCommand::ClockPause | LoopCommand::SyncPause => self.pause(active),
                LoopCommand::SyncBpmUpdate(b) => {
                    self.pending_sync_bpm = Some(b);
                    Step { midi: Vec::new(), anchor: AnchorUpdate::Keep }
                },
                _ => Step { midi: Vec::new(), anchor: AnchorUpdate::Keep },
            },
            EngineState::Paused => match cmd {
                LoopCommand::SyncContinue => {
                    self.state = EngineState::Running;
                    Step { midi: Vec::new(), anchor: AnchorUpdate::Keep }
                },
                LoopCommand::SyncStart => {
                    self.pause_context = None;
                    self.state = EngineState::Running;
                    self.sync_restart(active)
                },
                LoopCommand::ClockResume => {
                    self.state = EngineState::Running;
                    let mut midi = Vec::new();
                    midi.push(MidiEvent::ClockContinue);
                    Step { midi, anchor: AnchorUpdate::Keep }
                },
                LoopCommand::ClockStop | LoopCommand::Stop => {
                    self.current_tick = 0;
                    self.pause_context = None;
                    self.pass = None;
                    self.pass_pos = 0;
                    self.is_clock_mode = false;
                    self.state = EngineState::Stopped;
                    let mut midi = Vec::new();
                    midi.push(MidiEvent::ClockStop);
                    Step { midi, anchor: AnchorUpdate::Keep }
                },
                _ => Step { midi: Vec::new(), anchor: AnchorUpdate::Keep },
            },
        }
    }
    /// Starts the loop (or waits for a project); see `on_command`.
    pub fn start(&mut self, store: &ProjectStore) -> (s: Step)
        requires
            old(self)@.wf(),
        ensures
            ({
                let t = on_command(old(self)@, LoopCommand::Start, store@.active);
                &&& final(self)@ == t.view
                &&& s.midi@ == t.midi
                &&& s.anchor == t.anchor
            }),
            final(self)@.wf(),
    {
        self.handle_command(LoopCommand::Start, store)
    }

    /// Stops the loop; see `on_command`.
    pub fn stop(&mut self, store: &ProjectStore) -> (s: Step)
        requires
            old(self)@.wf(),
        ensures
            ({
                let t = on_command(old(self)@, LoopCommand::Stop, store@.active);
                &&& final(self)@ == t.view
                &&& s.midi@ == t.midi
                &&& s.anchor == t.anchor
            }),
            final(self)@.wf(),
    {
        self.handle_command(LoopCommand::Stop, store)
    }

    /// Starts the loop in clock mode; see `on_command`.
    pub fn clock_start(&mut self, store: &ProjectStore) -> (s: Step)
        requires
            old(self)@.wf(),
            old(self)@.state == EngineState::Stopped ==> store@.active is Some,
        ensures
            ({
                let t = on_command(old(self)@, LoopCommand::ClockStart, store@.active);
                &&& final(self)@ == t.view
                &&& s.midi@ == t.midi
                &&& s.anchor == t.anchor
            }),
            final(self)@.wf(),
    {
        self.handle_command(LoopCommand::ClockStart, store)
    }

    /// Pauses the clock and the loop; see `on_command`.
    pub fn clock_pause(&mut self, store: &ProjectStore) -> (s: Step)
        requires
            old(self)@.wf(),
        ensures
            ({
                let t = on_command(old(self)@, LoopCommand::ClockPause, store@.active);
                &&& final(self)@ == t.view
                &&& s.midi@ == t.midi
                &&& s.anchor == t.anchor
            }),
            final(self)@.wf(),
    {
        self.handle_command(LoopCommand::ClockPause, store)
    }

    /// Resumes after a clock pause; see `on_command`.
    pub fn clock_resume(&mut self, store: &ProjectStore) -> (s: Step)
        requires
            old(self)@.wf(),
        ensures
            ({
                let t = on_command(old(self)@, LoopCommand::ClockResume, store@.active);
                &&& final(self)@ == t.view
                &&& s.midi@ == t.midi
                &&& s.anchor == t.anchor
            }),
            final(self)@.wf(),
    {
        self.handle_command(LoopCommand::ClockResume, store)
    }

    /// Stops the clock and the loop; see `on_command`.
    pub fn clock_stop(&mut self, store: &ProjectStore) -> (s: Step)
        requires
            old(self)@.wf(),
        ensures
            ({
                let t = on_command(old(self)@, LoopCommand::ClockStop, store@.active);
                &&& final(self)@ == t.view
                &&& s.midi@ == t.midi
                &&& s.anchor == t.anchor
            }),
            final(self)@.wf(),
    {
        self.handle_command(LoopCommand::ClockStop, store)
    }

    /// An external MIDI Start; see `on_command`.
    pub fn sync_start(&mut self, store: &ProjectStore) -> (s: Step)
        requires
            old(self)@.wf(),
        ensures
            ({
                let t = on_command(old(self)@, LoopCommand::SyncStart, store@.active);
                &&& final(self)@ == t.view
                &&& s.midi@ == t.midi
                &&& s.anchor == t.anchor
            }),
            final(self)@.wf(),
    {
        self.handle_command(LoopCommand::SyncStart, store)
    }

    /// An external MIDI Continue; see `on_command`.
    pub fn sync_continue(&mut self, store: &ProjectStore) -> (s: Step)
        requires
            old(self)@.wf(),
        ensures
            ({
                let t = on_command(old(self)@, LoopCommand::SyncContinue, store@.active);
                &&& final(self)@ == t.view
                &&& s.midi@ == t.midi
                &&& s.anchor == t.anchor
            }),
            final(self)@.wf(),
    {
        self.handle_command(LoopCommand::SyncContinue, store)
    }

    /// An external MIDI Stop or a lost clock; see `on_command`.
    pub fn sync_stop(&mut self, store: &ProjectStore) -> (s: Step)
        requires
            old(self)@.wf(),
        ensures
            ({
                let t = on_command(old(self)@, LoopCommand::SyncStop, store@.active);
                &&& final(self)@ == t.view
                &&& s.midi@ == t.midi
                &&& s.anchor == t.anchor
            }),
            final(self)@.wf(),
    {
        self.handle_command(LoopCommand::SyncStop, store)
    }

    /// A tempo measured from an external clock, applied at the next loop boundary; see
    /// `on_command`.
    pub fn sync_bpm_update(&mut self, bpm: u32, store: &ProjectStore) -> (s: Step)
        requires
            old(self)@.wf(),
            bpm > 0,
        ensures
            ({
                let t = on_command(old(self)@, LoopCommand::SyncBpmUpdate(bpm), store@.active);
                &&& final(self)@ == t.view
                &&& s.midi@ == t.midi
                &&& s.anchor == t.anchor
            }),
            final(self)@.wf(),
    {
        self.handle_command(LoopCommand::SyncBpmUpdate(bpm), store)
    }
}

} // verus!
