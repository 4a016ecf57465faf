use vstd::prelude::*;

use crate::domain::project::{ProjectView, TrackView};
use crate::domain::store::StoreView;
use crate::midi::MidiEvent;
use super::events::{
    bend_of, clock_pulses, events_sorted, law_sort_orders_and_permutes, lemma_tracks_timed_parts, note_off_of,
    note_on_of, priority_of, tracks_timed, LoopEvent, TimedEvent,
};
use super::model::{
    begin_pass, bend_center, boundary, build, fire, flush, next_bpm, on_command, reset_channels,
    with_bend_channels, AnchorUpdate, paused_at, remaining_of, ActiveNote,
    EngineState, EngineView, LoopCommand,
};

verus! {

/// Every way of stopping leaves the position at tick 0.
pub proof fn law_stopping_resets_position(v: EngineView, cmd: LoopCommand, active: Option<ProjectView>)
    requires
        v.wf(),
    ensures
        on_command(v, cmd, active).view.state == EngineState::Stopped ==> on_command(v, cmd, active).view.current_tick == 0,
{
}

/// A stop command ends in Stopped from every state: a plain stop always, an external stop
/// while waiting for a project or playing, and a clock stop while playing or paused. In
/// particular a stop while waiting cancels the wait, so a project created later does not start
/// the loop.
pub proof fn law_stop_commands_stop(v: EngineView, active: Option<ProjectView>)
    requires
        v.wf(),
    ensures
        on_command(v, LoopCommand::Stop, active).view.state == EngineState::Stopped,
        v.state == EngineState::Waiting || v.state == EngineState::Running
            ==> on_command(v, LoopCommand::SyncStop, active).view.state == EngineState::Stopped,
        v.state == EngineState::Running || v.state == EngineState::Paused
            ==> on_command(v, LoopCommand::ClockStop, active).view.state == EngineState::Stopped,
        v.state == EngineState::Waiting ==> on_command(v, LoopCommand::Stop, active).midi.len() == 0,
{
}

/// Stopping while playing releases every sounding note: the messages start with one note-off
/// per sounding note, in the order they started, and nothing sounds afterwards.
pub proof fn law_stop_releases_sounding_notes(v: EngineView, cmd: LoopCommand, active: Option<ProjectView>)
    requires
        v.wf(),
        v.state == EngineState::Running,
        cmd == LoopCommand::Stop || cmd == LoopCommand::ClockStop || cmd == LoopCommand::SyncStop,
    ensures
        on_command(v, cmd, active).view.state == EngineState::Stopped,
        on_command(v, cmd, active).view.active_notes.len() == 0,
        on_command(v, cmd, active).midi.take(v.active_notes.len() as int)
            == v.active_notes.map_values(|n: ActiveNote| MidiEvent::NoteOff { channel: n.channel, pitch: n.pitch }),
{
    let t = on_command(v, cmd, active);
    let offs = v.active_notes.map_values(|n: ActiveNote| MidiEvent::NoteOff { channel: n.channel, pitch: n.pitch });
    assert(offs.push(MidiEvent::ClockStop).take(offs.len() as int) =~= offs);
    assert(offs.take(offs.len() as int) =~= offs);
}

/// A clock stop (while playing or paused) always sends a MIDI Stop and ends clock mode; a
/// plain stop sends one only in clock mode; an external stop never does.
pub proof fn law_clock_stop_sends_stop(v: EngineView, active: Option<ProjectView>)
    requires
        v.wf(),
        v.state == EngineState::Running || v.state == EngineState::Paused,
    ensures
        on_command(v, LoopCommand::ClockStop, active).midi.last() == MidiEvent::ClockStop,
        !on_command(v, LoopCommand::ClockStop, active).view.clock_mode,
        v.state == EngineState::Running ==> on_command(v, LoopCommand::SyncStop, active).midi == flush(v, active).1,
{
}

/// The reset list keeps every channel already in it and adds each channel that has a
/// pitch-bend entry.
pub proof fn lemma_bend_channels_cover(acc: Seq<u8>, tracks: Seq<TrackView>, c: u8)
    ensures
        acc.contains(c) ==> with_bend_channels(acc, tracks).contains(c),
        (exists|k: int| 0 <= k < tracks.len() && tracks[k].channel == c && tracks[k].pitch_bends.len() > 0)
            ==> with_bend_channels(acc, tracks).contains(c),
    decreases tracks.len(),
{
    if tracks.len() > 0 {
        let init = tracks.drop_last();
        lemma_bend_channels_cover(acc, init, c);
        let a = with_bend_channels(acc, init);
        let t = tracks.last();
        if t.pitch_bends.len() > 0 && !a.contains(t.channel) {
            if a.contains(c) {
                let w = choose|w: int| 0 <= w < a.len() && a[w] == c;
                assert(a.push(t.channel)[w] == c);
            }
            assert(a.push(t.channel)[a.len() as int] == t.channel);
        }
        if exists|k: int| 0 <= k < tracks.len() && tracks[k].channel == c && tracks[k].pitch_bends.len() > 0 {
            let k = choose|k: int| 0 <= k < tracks.len() && tracks[k].channel == c && tracks[k].pitch_bends.len() > 0;
            if k < init.len() {
                assert(init[k] == tracks[k]);
            }
        }
    }
}

/// Stopping or pausing playback resets to center (a pitch bend of 8192) every channel bent
/// since the last reset and every channel with a pitch-bend entry in the active project;
/// afterwards no channel counts as bent.
pub proof fn law_stop_and_pause_reset_bent_channels(v: EngineView, cmd: LoopCommand, active: Option<ProjectView>, c: u8)
    requires
        v.wf(),
        v.state == EngineState::Running,
        cmd == LoopCommand::Stop || cmd == LoopCommand::ClockStop || cmd == LoopCommand::SyncStop
            || cmd == LoopCommand::ClockPause || cmd == LoopCommand::SyncPause,
        v.bent_channels.contains(c) || (active matches Some(p) && exists|k: int|
            0 <= k < p.tracks.len() && p.tracks[k].channel == c && p.tracks[k].pitch_bends.len() > 0),
    ensures
        on_command(v, cmd, active).midi.contains(MidiEvent::PitchBend { channel: c, value: bend_center() }),
        on_command(v, cmd, active).view.bent_channels.len() == 0,
{
    let chans = reset_channels(v, active);
    match active {
        Some(p) => lemma_bend_channels_cover(v.bent_channels, p.tracks, c),
        None => {},
    }
    assert(chans.contains(c));
    let offs = v.active_notes.map_values(|n: ActiveNote| MidiEvent::NoteOff { channel: n.channel, pitch: n.pitch });
    let resets = chans.map_values(|b: u8| MidiEvent::PitchBend { channel: b, value: bend_center() });
    let i = choose|i: int| 0 <= i < chans.len() && chans[i] == c;
    let m = on_command(v, cmd, active).midi;
    assert(flush(v, active).1 == offs + resets);
    assert((offs + resets)[offs.len() + i] == MidiEvent::PitchBend { channel: c, value: bend_center() });
    if m == (offs + resets).push(MidiEvent::ClockStop) {
        assert(m[offs.len() + i] == MidiEvent::PitchBend { channel: c, value: bend_center() });
    } else {
        assert(m == offs + resets);
        assert(m[offs.len() + i] == MidiEvent::PitchBend { channel: c, value: bend_center() });
    }
}

/// Playing a pitch bend marks its channel bent (once), so that a later stop or pause resets it.
pub proof fn law_played_bend_marks_channel(v: EngineView)
    requires
        v.wf(),
        v.pass matches Some(p) && v.pos < p.len() && p[v.pos as int].event is PitchBend,
    ensures
        fire(v).view.bent_channels.contains(v.pass->0[v.pos as int].event->PitchBend_channel),
        fire(v).midi == seq![MidiEvent::PitchBend {
            channel: v.pass->0[v.pos as int].event->PitchBend_channel,
            value: v.pass->0[v.pos as int].event->PitchBend_value,
        }],
{
    let bent = v.bent_channels;
    let ch = v.pass->0[v.pos as int].event->PitchBend_channel;
    if !bent.contains(ch) {
        assert(bent.push(ch)[bent.len() as int] == ch);
    }
}

/// An external Stop (or the clock going silent) pauses without losing anything: the sounding
/// notes are released, no clock Stop is sent, and a following external Continue plays exactly
/// the part of the pass that had not been played, from the same position.
pub proof fn law_external_stop_then_continue_resumes(v: EngineView, active: Option<ProjectView>)
    requires
        v.wf(),
        v.state == EngineState::Running,
    ensures
        ({
            let t = on_command(v, LoopCommand::SyncPause, active);
            let r = on_command(t.view, LoopCommand::SyncContinue, active);
            &&& t.view.state == EngineState::Paused
            &&& t.view.current_tick == v.current_tick
            &&& t.view.active_notes.len() == 0
            &&& !t.midi.contains(MidiEvent::ClockStop)
            &&& r.view.state == EngineState::Running
            &&& r.midi.len() == 0
            &&& begin_pass(r.view, active).1
            &&& begin_pass(r.view, active).0.view.pass == Some(remaining_of(v))
            &&& begin_pass(r.view, active).0.view.current_tick == v.current_tick
        }),
{
    let t = on_command(v, LoopCommand::SyncPause, active);
    if t.midi.contains(MidiEvent::ClockStop) {
        let i = choose|i: int| 0 <= i < t.midi.len() && t.midi[i] == MidiEvent::ClockStop;
        let offs = v.active_notes.map_values(|n: ActiveNote| MidiEvent::NoteOff { channel: n.channel, pitch: n.pitch });
        if i < offs.len() {
            assert(t.midi[i] == offs[i]);
        } else {
            assert(t.midi[i] == reset_channels(v, active).map_values(|b: u8| MidiEvent::PitchBend { channel: b, value: bend_center() })[i - offs.len()]);
        }
    }
}

/// While paused the position stays frozen: no command other than a stop or an external Start
/// (which restarts from tick 0) moves it, and pausing itself (by a clock pause or an external
/// Stop) keeps it.
pub proof fn law_pause_freezes_position(v: EngineView, cmd: LoopCommand, active: Option<ProjectView>)
    requires
        v.wf(),
        v.state == EngineState::Paused || (v.state == EngineState::Running && (cmd == LoopCommand::ClockPause
            || cmd == LoopCommand::SyncPause)),
        cmd != LoopCommand::Stop && cmd != LoopCommand::ClockStop && cmd != LoopCommand::SyncStart,
    ensures
        on_command(v, cmd, active).view.current_tick == v.current_tick,
{
}

/// Pause and resume lose nothing: after a pause, a resume and the start of the next pass,
/// the pass is exactly the part of the paused pass that had not been played, in order.
pub proof fn law_resume_plays_exactly_the_unplayed_rest(v: EngineView, active: Option<ProjectView>)
    requires
        v.wf(),
        v.state == EngineState::Running,
    ensures
        ({
            let p = on_command(v, LoopCommand::ClockPause, active).view;
            let r = on_command(p, LoopCommand::ClockResume, active).view;
            &&& p.state == EngineState::Paused
            &&& r.state == EngineState::Running
            &&& begin_pass(r, active).1
            &&& begin_pass(r, active).0.view.pass == Some(remaining_of(v))
            &&& begin_pass(r, active).0.view.current_tick == v.current_tick
        }),
{
}

/// An external MIDI Start while playing restarts from tick 0; an external Continue keeps the
/// position.
pub proof fn law_sync_start_resets_and_continue_keeps(v: EngineView, active: Option<ProjectView>)
    requires
        v.wf(),
        v.state == EngineState::Running,
    ensures
        on_command(v, LoopCommand::SyncStart, active).view.current_tick == 0,
        on_command(v, LoopCommand::SyncStart, active).view.state == EngineState::Running,
        on_command(v, LoopCommand::SyncContinue, active).view.current_tick == v.current_tick,
        on_command(v, LoopCommand::SyncContinue, active).view.state == EngineState::Running,
{
}

/// Starting again while already playing changes nothing and sends nothing.
pub proof fn law_start_while_running_is_noop(v: EngineView, active: Option<ProjectView>)
    requires
        v.wf(),
        v.state == EngineState::Running,
    ensures
        on_command(v, LoopCommand::Start, active).view == v,
        on_command(v, LoopCommand::Start, active).midi.len() == 0,
        on_command(v, LoopCommand::ClockStart, active).view == v,
        on_command(v, LoopCommand::ClockResume, active).view == v,
{
}

/// A freshly built pass is in pass order: by tick, and on the same tick note-offs before
/// note-ons before clock pulses.
pub proof fn law_pass_events_in_order(v: EngineView, active: Option<ProjectView>)
    requires
        v.wf(),
    ensures
        events_sorted(build(v, active).events),
        forall|i: int, j: int|
            0 <= i < j < build(v, active).events.len()
            && build(v, active).events[i].tick == build(v, active).events[j].tick
            && build(v, active).events[j].event is NoteOff
            ==> build(v, active).events[i].event is NoteOff,
{
    let b = build(v, active);
    match active {
        Some(p) => {
            let ld = p.header.loop_duration as u64;
            if ld != 0 {
                law_sort_orders_and_permutes(
                    v.carry_over + super::events::tracks_timed(p.tracks, ld).0 + (if v.clock_mode {
                        super::events::clock_pulses(ld)
                    } else {
                        Seq::empty()
                    }),
                );
            }
        },
        None => {
            law_sort_orders_and_permutes(v.carry_over + super::events::clock_pulses(v.loop_duration));
        },
    }
    assert forall|i: int, j: int|
        0 <= i < j < b.events.len() && b.events[i].tick == b.events[j].tick && b.events[j].event is NoteOff
        implies b.events[i].event is NoteOff by {
        assert(super::events::event_le(b.events[i], b.events[j]));
        assert(priority_of(b.events[j].event) == 0);
    }
}

/// What one pass of a project holds. The pass is in pass order and holds exactly the
/// note-offs carried over from the previous pass, the events of the tracks and, in clock
/// mode, the clock pulses. Every note gives its note-on to the pass, and its note-off too when
/// the note ends within the loop; otherwise the note-off is held for the next pass, which
/// holds nothing else. Every pitch-bend entry plays on its track's channel. The clock pulses
/// lie 20 ticks apart from tick 0, all before the loop end. The carry-over is used up and the
/// loop length is the project's.
pub proof fn law_pass_contents(v: EngineView, p: ProjectView)
    requires
        v.wf(),
        p.header.loop_duration > 0,
    ensures
        ({
            let ld = p.header.loop_duration as u64;
            let parts = tracks_timed(p.tracks, ld);
            let pulses = if v.clock_mode { clock_pulses(ld) } else { Seq::<TimedEvent>::empty() };
            let b = build(v, Some(p));
            &&& b.ready
            &&& events_sorted(b.events)
            &&& b.events.to_multiset() == (v.carry_over + parts.0 + pulses).to_multiset()
            &&& b.view.carry_over.len() == 0
            &&& b.view.next_carry_over == parts.1
            &&& b.view.loop_duration == ld
            &&& forall|i: int| 0 <= i < parts.1.len() ==> (#[trigger] parts.1[i]).event is NoteOff && parts.1[i].tick > ld
            &&& forall|i: int| 0 <= i < parts.0.len() && (#[trigger] parts.0[i]).event is NoteOff ==> parts.0[i].tick <= ld
            &&& forall|k: int, j: int| 0 <= k < p.tracks.len() && 0 <= j < p.tracks[k].notes.len()
                ==> parts.0.contains(note_on_of(p.tracks[k].channel, #[trigger] p.tracks[k].notes[j]))
                && if note_off_of(p.tracks[k].channel, p.tracks[k].notes[j]).tick <= ld {
                    parts.0.contains(note_off_of(p.tracks[k].channel, p.tracks[k].notes[j]))
                } else {
                    parts.1.contains(note_off_of(p.tracks[k].channel, p.tracks[k].notes[j]))
                }
            &&& forall|k: int, j: int| 0 <= k < p.tracks.len() && 0 <= j < p.tracks[k].pitch_bends.len()
                ==> parts.0.contains(bend_of(p.tracks[k].channel, #[trigger] p.tracks[k].pitch_bends[j]))
            &&& v.clock_mode ==> pulses.len() == (ld + 19) / 20
            &&& forall|i: int| 0 <= i < pulses.len() ==> (#[trigger] pulses[i]).event is ClockPulse
                && pulses[i].tick == 20 * i && pulses[i].tick < ld
        }),
{
    let ld = p.header.loop_duration as u64;
    let parts = tracks_timed(p.tracks, ld);
    let pulses = if v.clock_mode { clock_pulses(ld) } else { Seq::<TimedEvent>::empty() };
    lemma_tracks_timed_parts(p.tracks, ld);
    law_sort_orders_and_permutes(v.carry_over + parts.0 + pulses);
    assert forall|i: int| 0 <= i < pulses.len() implies (#[trigger] pulses[i]).event is ClockPulse
        && pulses[i].tick == 20 * i && pulses[i].tick < ld by {
        let n = (ld + 19) / 20;
        assert(20 * i < ld) by (nonlinear_arith)
            requires 0 <= i < n, n == (ld + 19) / 20, ld > 0;
    }
}

/// Playing an event makes its tick the position, and the position never goes back while
/// events are played: every pass a well-formed player holds is in pass order, and its
/// unplayed events lie at or after the position.
pub proof fn law_position_follows_played_events(v: EngineView)
    requires
        v.wf(),
        v.pass matches Some(p) && v.pos < p.len(),
    ensures
        fire(v).view.current_tick == v.pass.unwrap()[v.pos as int].tick,
        v.current_tick <= fire(v).view.current_tick,
        v.pos > 0 ==> v.pass.unwrap()[v.pos - 1].tick <= fire(v).view.current_tick,
{
    if v.pos > 0 {
        assert(super::events::event_le(v.pass.unwrap()[v.pos - 1], v.pass.unwrap()[v.pos as int]));
    }
}

/// The playback position as a whole: 0 when the player is created, after every transition
/// into Stopped and at every loop boundary; unchanged while paused (but by a stop or an
/// external Start) and by resuming a paused pass, whose events all lie at or after it; and
/// never lower after an event is played.
pub proof fn law_playback_position(v: EngineView, cmd: LoopCommand, active: Option<ProjectView>)
    requires
        v.wf(),
    ensures
        EngineView::initial().current_tick == 0,
        on_command(v, cmd, active).view.state == EngineState::Stopped ==> on_command(v, cmd, active).view.current_tick == 0,
        boundary(v, active).view.current_tick == 0,
        v.state == EngineState::Paused && cmd != LoopCommand::Stop && cmd != LoopCommand::ClockStop
            && cmd != LoopCommand::SyncStart ==> on_command(v, cmd, active).view.current_tick == v.current_tick,
        v.paused is Some ==> ({
            let r = begin_pass(v, active).0.view;
            &&& r.current_tick == v.current_tick
            &&& r.pass matches Some(p) && r.pos == 0
            &&& forall|i: int| 0 <= i < r.pass->0.len() ==> #[trigger] r.pass->0[i].tick >= v.current_tick
        }),
        (v.pass matches Some(p) && v.pos < p.len()) ==> v.current_tick <= fire(v).view.current_tick,
{
    if v.pass matches Some(p) && v.pos < p.len() {
        law_position_follows_played_events(v);
    }
}

/// At every loop boundary the position returns to 0, the loop length reported is that of
/// the project now active, and the next pass is built afresh.
pub proof fn law_boundary_resets_position(v: EngineView, active: Option<ProjectView>)
    requires
        v.wf(),
    ensures
        boundary(v, active).view.current_tick == 0,
        boundary(v, active).view.pass is None,
        boundary(v, active).view.loop_duration_ticks == match active {
            Some(p) => p.header.loop_duration as u64,
            None => 0,
        },
{
}

/// The loop repeats with no gap: when the tempo stays, the next pass starts exactly one loop
/// length (in microseconds at the current tempo) after the previous one; a staged project takes
/// over only at this boundary, and a tempo change starts the next pass right away.
pub proof fn law_loop_repeats_without_gap(v: EngineView, store: StoreView)
    requires
        v.wf(),
    ensures
        ({
            let t = boundary(v, store.commit().active);
            &&& next_bpm(v, store.commit().active) == v.bpm ==> t.anchor == AnchorUpdate::AdvanceBy((v.loop_duration * v.micros_per_tick) as u64)
            &&& next_bpm(v, store.commit().active) != v.bpm ==> t.anchor == AnchorUpdate::Now
            &&& t.view.loop_duration_ticks == match store.commit().active {
                Some(p) => p.header.loop_duration as u64,
                None => 0,
            }
        }),
{
}

/// A note-on marks its note as sounding until a note-off for the same channel and pitch.
pub proof fn law_note_on_then_off(notes: Seq<ActiveNote>, channel: u8, pitch: u8, velocity: u8)
    ensures
        super::model::notes_after(notes, LoopEvent::NoteOn { channel, pitch, velocity }).contains(ActiveNote { channel, pitch }),
        !super::model::notes_after(
            super::model::notes_after(notes, LoopEvent::NoteOn { channel, pitch, velocity }),
            LoopEvent::NoteOff { channel, pitch },
        ).contains(ActiveNote { channel, pitch }),
{
    let on = super::model::notes_after(notes, LoopEvent::NoteOn { channel, pitch, velocity });
    assert(on[on.len() - 1] == ActiveNote { channel, pitch });
    let pred = |n: ActiveNote| !(n.channel == channel && n.pitch == pitch);
    broadcast use vstd::seq_lib::group_filter_ensures;
    if on.filter(pred).contains(ActiveNote { channel, pitch }) {
        let k = choose|k: int| 0 <= k < on.filter(pred).len() && on.filter(pred)[k] == ActiveNote { channel, pitch };
        assert(pred(on.filter(pred)[k]));
    }
}

} // verus!
