use vstd::prelude::*;

use crate::domain::project::{ProjectView, TrackView};
use crate::midi::MidiEvent;
use super::events::{
    clock_pulses, events_sorted, midi_of, program_changes, sort_events, tracks_timed, LoopEvent, TimedEvent,
};
use super::scheduler::micros_per_tick_at;

verus! {

/// Where the player is.
#[derive(Debug, Clone, Copy, PartialEq, Eq, Structural)]
pub enum EngineState {
    Stopped,
    Waiting,
    Running,
    Paused,
}

/// A transport or tempo command for the player.
#[derive(Debug, Clone, Copy, PartialEq, Eq, Structural)]
pub enum LoopCommand {
    Start,
    Stop,
    ClockStart,
    ClockPause,
    ClockResume,
    ClockStop,
    SyncStart,
    SyncContinue,
    SyncStop,
    /// An external MIDI Stop, or the external clock going silent: pause, keeping the position
    /// for a following Continue.
    SyncPause,
    SyncBpmUpdate(u32),
}

/// A note that is sounding: a note-on was sent and no note-off yet.
#[derive(Debug, Clone, Copy, PartialEq, Eq, Structural)]
pub struct ActiveNote {
    pub channel: u8,
    pub pitch: u8,
}

/// Microseconds between a start and tick 0 (`AnchorUpdate::StartAfterLatency`), so that
/// program changes and a clock Start reach the device before the first note.
pub const START_LATENCY_MICROS: u64 = 20_000;

/// How the wall-clock anchor of the current pass (the instant of tick 0) moves.
#[derive(Debug, Clone, Copy, PartialEq, Eq, Structural)]
pub enum AnchorUpdate {
    /// The anchor stays.
    Keep,
    /// Tick 0 is a short start latency from now, so that program changes and a clock Start
    /// reach the device before the first note.
    StartAfterLatency,
    /// The anchor moves forward by this many microseconds (one loop length).
    AdvanceBy(u64),
    /// Tick 0 is now.
    Now,
    /// Tick 0 lies this many microseconds in the past, so that the next event is due now.
    ResumeBack(u64),
}

/// What is left of a pass that was paused, and the loop length it was built for.
pub struct PauseView {
    pub remaining: Seq<TimedEvent>,
    pub loop_duration: u64,
}

/// Everything the player remembers between steps.
pub struct EngineView {
    pub state: EngineState,
    pub clock_mode: bool,
    pub active_notes: Seq<ActiveNote>,
    /// Channels sent a pitch bend since they were last reset to center, in the order first bent.
    pub bent_channels: Seq<u8>,
    pub instruments: Seq<Option<u8>>,
    pub bpm: u32,
    pub micros_per_tick: u64,
    pub paused: Option<PauseView>,
    pub loop_duration: u64,
    pub carry_over: Seq<TimedEvent>,
    pub next_carry_over: Seq<TimedEvent>,
    pub elapsed: u64,
    pub pending_sync_bpm: Option<u32>,
    pub current_tick: u64,
    pub loop_duration_ticks: u64,
    /// Loop passes completed since the player was created (held at `u64::MAX`).
    pub loop_count: u64,
    pub pass: Option<Seq<TimedEvent>>,
    pub pos: nat,
}

/// The result of one step: the next state, the messages to send in order, and the anchor move.
pub struct Transition {
    pub view: EngineView,
    pub midi: Seq<MidiEvent>,
    pub anchor: AnchorUpdate,
}

/// The largest tick an event can carry: a note may end at twice the longest loop.
pub open spec fn max_tick() -> u64 {
    (2 * (u32::MAX as int)) as u64
}

/// All events of a sequence lie within the tick range of notes.
pub open spec fn ticks_bounded(s: Seq<TimedEvent>) -> bool {
    forall|i: int| 0 <= i < s.len() ==> #[trigger] s[i].tick <= max_tick()
}

/// The events of `s` from index `from` on all lie at or after `tick`.
pub open spec fn ticks_from(s: Seq<TimedEvent>, from: int, tick: u64) -> bool {
    forall|i: int| from <= i < s.len() ==> #[trigger] s[i].tick >= tick
}

/// Channels 0..=255 each remember the instrument last selected on them.
pub open spec fn no_instruments() -> Seq<Option<u8>> {
    Seq::new(256, |i: int| None::<u8>)
}

impl EngineView {
    /// The internal consistency every player state keeps.
    pub open spec fn wf(self) -> bool {
        &&& self.instruments.len() == 256
        &&& self.bpm > 0
        &&& self.micros_per_tick == micros_per_tick_at(self.bpm)
        &&& self.loop_duration <= u32::MAX
        &&& ticks_bounded(self.carry_over)
        &&& ticks_bounded(self.next_carry_over)
        &&& (self.paused matches Some(ctx) ==> ticks_bounded(ctx.remaining) && events_sorted(ctx.remaining)
                && ctx.loop_duration <= u32::MAX)
        &&& (self.pass matches Some(p) ==> ticks_bounded(p) && events_sorted(p) && self.pos <= p.len())
        &&& (self.pass matches Some(p) ==> (self.pos > 0 ==> self.current_tick == p[self.pos - 1].tick))
        &&& (self.pass matches Some(p) ==> ticks_from(p, self.pos as int, self.current_tick))
        &&& (self.paused matches Some(ctx) ==> ticks_from(ctx.remaining, 0, self.current_tick))
        &&& self.current_tick <= self.elapsed
        &&& !(self.pass is Some && self.paused is Some)
        &&& (self.pending_sync_bpm matches Some(b) ==> b > 0)
        &&& (self.state == EngineState::Stopped || self.state == EngineState::Waiting ==> self.current_tick == 0)
    }

    /// The player as created: stopped, at 120 BPM, with a cached loop length of 480 ticks.
    pub open spec fn initial() -> EngineView {
        EngineView {
            state: EngineState::Stopped,
            clock_mode: false,
            active_notes: Seq::empty(),
            bent_channels: Seq::empty(),
            instruments: no_instruments(),
            bpm: 120,
            micros_per_tick: micros_per_tick_at(120),
            paused: None,
            loop_duration: 480,
            carry_over: Seq::empty(),
            next_carry_over: Seq::empty(),
            elapsed: 0,
            pending_sync_bpm: None,
            current_tick: 0,
            loop_duration_ticks: 0,
            loop_count: 0,
            pass: None,
            pos: 0,
        }
    }
}

/// The pitch-bend value that means "no bend".
pub open spec fn bend_center() -> u16 {
    8192
}

/// The channels reset to center when playback stops or pauses: the channels bent since the
/// last reset, then every further channel with a pitch-bend entry among `tracks`, each once.
pub open spec fn with_bend_channels(acc: Seq<u8>, tracks: Seq<TrackView>) -> Seq<u8>
    decreases tracks.len(),
{
    if tracks.len() == 0 {
        acc
    } else {
        let a = with_bend_channels(acc, tracks.drop_last());
        let t = tracks.last();
        if t.pitch_bends.len() > 0 && !a.contains(t.channel) { a.push(t.channel) } else { a }
    }
}

/// The channels a stop or pause resets: those bent since the last reset and every channel
/// with a pitch-bend entry in the active project.
pub open spec fn reset_channels(v: EngineView, active: Option<ProjectView>) -> Seq<u8> {
    match active {
        Some(p) => with_bend_channels(v.bent_channels, p.tracks),
        None => v.bent_channels,
    }
}

/// Note-offs for every sounding note, in the order they were started, then a reset to center
/// for every channel of `reset_channels`; nothing sounds and nothing is bent after.
pub open spec fn flush(v: EngineView, active: Option<ProjectView>) -> (EngineView, Seq<MidiEvent>) {
    (
        EngineView { active_notes: Seq::empty(), bent_channels: Seq::empty(), ..v },
        v.active_notes.map_values(|n: ActiveNote| MidiEvent::NoteOff { channel: n.channel, pitch: n.pitch })
            + reset_channels(v, active).map_values(|c: u8| MidiEvent::PitchBend { channel: c, value: bend_center() }),
    )
}

/// Stopping: position back to 0, sounding notes released, pending carry-over note-offs
/// dropped, the pass abandoned; with `stop_clock` a clock Stop follows and clock mode ends.
pub open spec fn halted(v: EngineView, stop_clock: bool, active: Option<ProjectView>) -> Transition {
    let (f, offs) = flush(v, active);
    Transition {
        view: EngineView {
            state: EngineState::Stopped,
            current_tick: 0,
            carry_over: Seq::empty(),
            next_carry_over: Seq::empty(),
            clock_mode: if stop_clock { false } else { v.clock_mode },
            pass: None,
            pos: 0,
            ..f
        },
        midi: if stop_clock { offs.push(MidiEvent::ClockStop) } else { offs },
        anchor: AnchorUpdate::Keep,
    }
}

/// An incoming MIDI Start while running: the loop restarts from tick 0 after the start latency,
/// releasing sounding notes and resending program changes on the next pass.
pub open spec fn sync_restarted(v: EngineView, active: Option<ProjectView>) -> Transition {
    let (f, offs) = flush(v, active);
    Transition {
        view: EngineView {
            current_tick: 0,
            carry_over: Seq::empty(),
            next_carry_over: Seq::empty(),
            instruments: no_instruments(),
            pass: None,
            pos: 0,
            ..f
        },
        midi: offs,
        anchor: AnchorUpdate::StartAfterLatency,
    }
}

/// The events of the current pass not yet played.
pub open spec fn remaining_of(v: EngineView) -> Seq<TimedEvent> {
    match v.pass {
        Some(p) => p.subrange(v.pos as int, p.len() as int),
        None => Seq::empty(),
    }
}

/// Pausing: sounding notes are released and the unplayed rest of the pass is kept, with the
/// loop length, so that a resume continues exactly there. The position is not reset.
pub open spec fn paused_at(v: EngineView, active: Option<ProjectView>) -> Transition {
    let (f, offs) = flush(v, active);
    Transition {
        view: EngineView {
            state: EngineState::Paused,
            paused: Some(PauseView { remaining: remaining_of(v), loop_duration: v.loop_duration }),
            pass: None,
            pos: 0,
            ..f
        },
        midi: offs,
        anchor: AnchorUpdate::Keep,
    }
}

/// The outcome of building a pass from the active project.
pub struct Built {
    pub view: EngineView,
    pub ready: bool,
    pub midi: Seq<MidiEvent>,
    pub events: Seq<TimedEvent>,
}

/// Building a pass. With a project: program changes for tracks whose channel needs one; then,
/// when the loop length is positive, the events are the carried-over note-offs, the note
/// events of every track and (in clock mode) the clock pulses, in pass order; note-offs past
/// the loop end are held for the next pass. Without a project, clock mode keeps pulsing over
/// the cached loop length; otherwise there is nothing to play.
pub open spec fn build(v: EngineView, active: Option<ProjectView>) -> Built {
    match active {
        Some(p) => {
            let (pcs, ins) = program_changes(v.instruments, p.tracks);
            let ld = p.header.loop_duration as u64;
            if ld == 0 {
                Built { view: EngineView { instruments: ins, ..v }, ready: false, midi: pcs, events: Seq::empty() }
            } else {
                let notes = tracks_timed(p.tracks, ld);
                let pulses = if v.clock_mode { clock_pulses(ld) } else { Seq::empty() };
                Built {
                    view: EngineView {
                        instruments: ins,
                        loop_duration: ld,
                        carry_over: Seq::empty(),
                        next_carry_over: notes.1,
                        ..v
                    },
                    ready: true,
                    midi: pcs,
                    events: sort_events(v.carry_over + notes.0 + pulses),
                }
            }
        },
        None => {
            if v.clock_mode {
                Built {
                    view: EngineView { carry_over: Seq::empty(), ..v },
                    ready: true,
                    midi: Seq::empty(),
                    events: sort_events(v.carry_over + clock_pulses(v.loop_duration)),
                }
            } else {
                Built { view: v, ready: false, midi: Seq::empty(), events: Seq::empty() }
            }
        },
    }
}

/// The events of a pass at or after a tick.
pub open spec fn from_tick(events: Seq<TimedEvent>, tick: u64) -> Seq<TimedEvent> {
    events.filter(|e: TimedEvent| e.tick >= tick)
}

/// An incoming MIDI Continue while running: a fresh pass is built and everything before the
/// current position is dropped from it, to be resumed like a pause. The position is kept.
pub open spec fn sync_continued(v: EngineView, active: Option<ProjectView>) -> Transition {
    let b = build(v, active);
    Transition {
        view: if b.ready {
            EngineView {
                paused: Some(PauseView { remaining: from_tick(b.events, v.elapsed), loop_duration: b.view.loop_duration }),
                pass: None,
                pos: 0,
                ..b.view
            }
        } else {
            EngineView { pass: None, pos: 0, ..b.view }
        },
        midi: b.midi,
        anchor: AnchorUpdate::Keep,
    }
}

/// Starting to play a project: channels forget their instruments (so program changes are
/// sent again), the tempo and loop length come from the project, and tick 0 is a start
/// latency away.
pub open spec fn started_with(v: EngineView, p: ProjectView) -> EngineView {
    EngineView {
        state: EngineState::Running,
        instruments: no_instruments(),
        bpm: p.header.bpm,
        micros_per_tick: micros_per_tick_at(p.header.bpm),
        loop_duration: p.header.loop_duration as u64,
        ..v
    }
}

/// No change and nothing sent.
pub open spec fn unchanged(v: EngineView) -> Transition {
    Transition { view: v, midi: Seq::empty(), anchor: AnchorUpdate::Keep }
}

/// A command while stopped. Start, SyncStart and SyncContinue start the loop when a project is
/// active and otherwise wait for one; Start also leaves clock mode. ClockStart (which needs a
/// project) enters clock mode and sends a clock Start. A tempo update is remembered for the
/// next loop boundary. Anything else is ignored.
pub open spec fn on_command_stopped(v: EngineView, cmd: LoopCommand, active: Option<ProjectView>) -> Transition {
    match cmd {
        LoopCommand::Start => match active {
            Some(p) => Transition {
                view: EngineView { clock_mode: false, ..started_with(v, p) },
                midi: Seq::empty(),
                anchor: AnchorUpdate::StartAfterLatency,
            },
            None => Transition { view: EngineView { state: EngineState::Waiting, ..v }, midi: Seq::empty(), anchor: AnchorUpdate::Keep },
        },
        LoopCommand::ClockStart => Transition {
            view: EngineView { clock_mode: true, ..started_with(v, active.unwrap()) },
            midi: seq![MidiEvent::ClockStart],
            anchor: AnchorUpdate::StartAfterLatency,
        },
        LoopCommand::SyncStart | LoopCommand::SyncContinue => match active {
            Some(p) => Transition { view: started_with(v, p), midi: Seq::empty(), anchor: AnchorUpdate::StartAfterLatency },
            None => Transition { view: EngineView { state: EngineState::Waiting, ..v }, midi: Seq::empty(), anchor: AnchorUpdate::Keep },
        },
        LoopCommand::SyncBpmUpdate(b) => unchanged(EngineView { pending_sync_bpm: Some(b), ..v }),
        _ => unchanged(v),
    }
}

/// A command while waiting for a project: Stop, SyncStop and SyncPause stop (there is nothing
/// to pause yet); anything else is dropped.
pub open spec fn on_command_waiting(v: EngineView, cmd: LoopCommand) -> Transition {
    match cmd {
        LoopCommand::Stop | LoopCommand::SyncStop | LoopCommand::SyncPause => unchanged(EngineView { state: EngineState::Stopped, ..v }),
        _ => unchanged(v),
    }
}

/// A command while running. Stop ends clock mode only if it was on; ClockStop always sends a
/// clock Stop; SyncStop stops silently; SyncStart restarts; SyncContinue resumes from the
/// current position; ClockPause and SyncPause pause; a tempo update waits for the loop boundary; Start,
/// ClockStart and ClockResume are ignored.
pub open spec fn on_command_running(v: EngineView, cmd: LoopCommand, active: Option<ProjectView>) -> Transition {
    match cmd {
        LoopCommand::Stop => halted(v, v.clock_mode, active),
        LoopCommand::ClockStop => halted(v, true, active),
        LoopCommand::SyncStop => halted(v, false, active),
        LoopCommand::SyncStart => sync_restarted(v, active),
        LoopCommand::SyncContinue => sync_continued(v, active),
        LoopCommand::ClockPause | LoopCommand::SyncPause => paused_at(v, active),
        LoopCommand::SyncBpmUpdate(b) => unchanged(EngineView { pending_sync_bpm: Some(b), ..v }),
        _ => unchanged(v),
    }
}

/// A command while paused: ClockResume sends a clock Continue and plays on from the kept
/// rest of the pass, and an external Continue plays on from it silently; an external Start
/// restarts from tick 0; ClockStop and Stop drop the rest, send a clock Stop and reset the
/// position; anything else is ignored.
pub open spec fn on_command_paused(v: EngineView, cmd: LoopCommand, active: Option<ProjectView>) -> Transition {
    match cmd {
        LoopCommand::SyncContinue => Transition {
            view: EngineView { state: EngineState::Running, ..v },
            midi: Seq::empty(),
            anchor: AnchorUpdate::Keep,
        },
        LoopCommand::SyncStart => sync_restarted(EngineView { state: EngineState::Running, paused: None, ..v }, active),
        LoopCommand::ClockResume => Transition {
            view: EngineView { state: EngineState::Running, ..v },
            midi: seq![MidiEvent::ClockContinue],
            anchor: AnchorUpdate::Keep,
        },
        LoopCommand::ClockStop | LoopCommand::Stop => Transition {
            view: EngineView {
                state: EngineState::Stopped,
                current_tick: 0,
                paused: None,
                clock_mode: false,
                pass: None,
                pos: 0,
                ..v
            },
            midi: seq![MidiEvent::ClockStop],
            anchor: AnchorUpdate::Keep,
        },
        _ => unchanged(v),
    }
}

/// A command in any state.
pub open spec fn on_command(v: EngineView, cmd: LoopCommand, active: Option<ProjectView>) -> Transition {
    match v.state {
        EngineState::Stopped => on_command_stopped(v, cmd, active),
        EngineState::Waiting => on_command_waiting(v, cmd),
        EngineState::Running => on_command_running(v, cmd, active),
        EngineState::Paused => on_command_paused(v, cmd, active),
    }
}

/// Starting a pass while running: a paused rest resumes (tick 0 placed so that its first event
/// is due now) at the position where it paused, otherwise a pass is built from the active
/// project and starts at position 0.
pub open spec fn begin_pass(v: EngineView, active: Option<ProjectView>) -> (Transition, bool) {
    match v.paused {
        Some(ctx) => {
            let next = if ctx.remaining.len() > 0 { ctx.remaining[0].tick } else { 0 };
            (
                Transition {
                    view: EngineView { paused: None, loop_duration: ctx.loop_duration, pass: Some(ctx.remaining), pos: 0, ..v },
                    midi: Seq::empty(),
                    anchor: AnchorUpdate::ResumeBack((next * v.micros_per_tick) as u64),
                },
                true,
            )
        },
        None => {
            let b = build(v, active);
            (
                Transition {
                    view: if b.ready {
                        EngineView { pass: Some(b.events), pos: 0, current_tick: 0, ..b.view }
                    } else {
                        b.view
                    },
                    midi: b.midi,
                    anchor: AnchorUpdate::Keep,
                },
                b.ready,
            )
        },
    }
}

/// The sounding notes after an event is played: a note-on adds its note, a note-off releases
/// every sounding instance of its channel and pitch; other events change nothing.
pub open spec fn notes_after(notes: Seq<ActiveNote>, e: LoopEvent) -> Seq<ActiveNote> {
    match e {
        LoopEvent::NoteOn { channel, pitch, .. } => notes.push(ActiveNote { channel, pitch }),
        LoopEvent::NoteOff { channel, pitch } => notes.filter(|n: ActiveNote| !(n.channel == channel && n.pitch == pitch)),
        LoopEvent::PitchBend { .. } => notes,
        LoopEvent::ClockPulse => notes,
    }
}

/// The bent channels after an event is played: a pitch bend adds its channel once.
pub open spec fn bent_after(bent: Seq<u8>, e: LoopEvent) -> Seq<u8> {
    match e {
        LoopEvent::PitchBend { channel, .. } => if bent.contains(channel) { bent } else { bent.push(channel) },
        _ => bent,
    }
}

/// Playing the next due event of the pass: its tick becomes the position.
pub open spec fn fire(v: EngineView) -> Transition {
    let e = v.pass.unwrap()[v.pos as int];
    Transition {
        view: EngineView {
            elapsed: e.tick,
            current_tick: e.tick,
            active_notes: notes_after(v.active_notes, e.event),
            bent_channels: bent_after(v.bent_channels, e.event),
            pos: v.pos + 1,
            ..v
        },
        midi: seq![midi_of(e.event)],
        anchor: AnchorUpdate::Keep,
    }
}

/// A carried-over note-off, re-timed from the start of the next pass.
pub open spec fn rebased(e: TimedEvent, loop_duration: u64) -> TimedEvent {
    TimedEvent { tick: if e.tick >= loop_duration { (e.tick - loop_duration) as u64 } else { 0 }, event: e.event }
}

/// The tempo the next pass plays at: a tempo received from an external clock wins, otherwise
/// the active project's tempo, otherwise the current one.
pub open spec fn next_bpm(v: EngineView, active: Option<ProjectView>) -> u32 {
    match v.pending_sync_bpm {
        Some(b) => b,
        None => match active {
            Some(p) => p.header.bpm,
            None => v.bpm,
        },
    }
}

/// The loop boundary after a completed pass: the anchor advances by one loop, the staged
/// project (already committed in `active`) takes over, a changed tempo re-anchors at now,
/// held note-offs are re-timed into the next pass, and the position returns to 0.
pub open spec fn boundary(v: EngineView, active: Option<ProjectView>) -> Transition {
    let bpm = next_bpm(v, active);
    Transition {
        view: EngineView {
            loop_duration_ticks: match active {
                Some(p) => p.header.loop_duration as u64,
                None => 0,
            },
            pending_sync_bpm: None,
            loop_count: if v.loop_count < u64::MAX { (v.loop_count + 1) as u64 } else { v.loop_count },
            bpm,
            micros_per_tick: micros_per_tick_at(bpm),
            carry_over: sort_events(v.next_carry_over.map_values(|e: TimedEvent| rebased(e, v.loop_duration))),
            next_carry_over: Seq::empty(),
            elapsed: 0,
            current_tick: 0,
            pass: None,
            pos: 0,
            ..v
        },
        midi: Seq::empty(),
        anchor: if bpm != v.bpm { AnchorUpdate::Now } else { AnchorUpdate::AdvanceBy((v.loop_duration * v.micros_per_tick) as u64) },
    }
}

/// A poll while waiting: the staged project is committed when none is active; as soon as a
/// project is active the loop starts.
pub open spec fn waiting_poll(v: EngineView, active_after_commit: Option<ProjectView>) -> Transition {
    match active_after_commit {
        Some(p) => Transition { view: started_with(v, p), midi: Seq::empty(), anchor: AnchorUpdate::StartAfterLatency },
        None => unchanged(v),
    }
}

} // verus!
