use vstd::prelude::*;

use super::output::{ClockEvent, ClockOutput};
use super::scheduler::{micros_per_pulse_at, pulse_offset, ClockScheduler};

verus! {

/// Whether the clock sends pulses.
#[derive(Debug, Clone, Copy, PartialEq, Eq, Structural)]
pub enum ClockState {
    Stopped,
    Running,
    Paused,
}

/// A transport or tempo command for the clock.
#[derive(Debug, Clone, Copy, PartialEq, Eq, Structural)]
pub enum ClockCommand {
    Start,
    Pause,
    Resume,
    Stop,
    SetBpm(u32),
    /// Sets the song position (in MIDI beats); only sent to the output while stopped.
    Seek(u16),
}

/// Microseconds between a (re)start and its first pulse, so that the MIDI Start reaches the
/// device before the first Timing Clock.
pub const START_LATENCY_MICROS: u64 = 20_000;

/// How the anchor (the instant of pulse 0 of the current phase) moves.
#[derive(Debug, Clone, Copy, PartialEq, Eq, Structural)]
pub enum ClockAnchor {
    /// The anchor stays.
    Keep,
    /// Pulse 0 falls `START_LATENCY_MICROS` after now.
    StartAfterLatency,
    /// The anchor moves forward by this many microseconds.
    AdvanceBy(u64),
    /// Pulse 0 lies this many microseconds before now.
    ResumeBack(u64),
}

/// The state of the clock: transport state, pulses sent since the last start, pulses since
/// the anchor, song position, tempo, and whether Song Position Pointer messages are sent.
#[derive(Debug, Clone, Copy, PartialEq, Eq, Structural)]
pub struct ClockView {
    pub state: ClockState,
    pub pulse_count: u64,
    pub phase_pulse: u64,
    pub position: u16,
    pub bpm: u32,
    pub spp_enabled: bool,
}

impl ClockView {
    /// A usable tempo; pulses since the anchor never exceed pulses since the start; a
    /// stopped clock has counted nothing.
    pub open spec fn wf(self) -> bool {
        &&& self.bpm > 0
        &&& self.phase_pulse <= self.pulse_count
        &&& self.state == ClockState::Stopped ==> self.pulse_count == 0 && self.phase_pulse == 0
    }
}

/// What a command or a pulse does: the next state, the messages sent, and the anchor move.
pub struct ClockStep {
    pub next: ClockView,
    pub sent: Seq<ClockEvent>,
    pub anchor: ClockAnchor,
}

/// The clock after a (re)start: running from pulse 0 at song position 0.
pub open spec fn restarted(v: ClockView) -> ClockView {
    ClockView { state: ClockState::Running, pulse_count: 0, phase_pulse: 0, position: 0, ..v }
}

/// The clock after a stop: stopped, with the counts and the song position back at 0.
pub open spec fn halted(v: ClockView) -> ClockView {
    ClockView { state: ClockState::Stopped, pulse_count: 0, phase_pulse: 0, position: 0, ..v }
}

/// `ResumeBack` distance: the elapsed pulses of the phase at whole-microsecond pulse length,
/// held at `u64::MAX`.
pub open spec fn resume_back(v: ClockView) -> u64 {
    let exact = v.phase_pulse as int * micros_per_pulse_at(v.bpm) as int;
    if exact > u64::MAX { u64::MAX } else { exact as u64 }
}

/// What a command does in each state. A start always restarts from pulse 0 and sends Start;
/// a stop while running or paused resets and sends Stop; pause sends Stop and keeps the
/// counts; resume sends Continue and places the anchor so that the paused phase goes on; a
/// tempo change while running rebases the anchor to the pulse that was due next; a seek sets
/// the position and, while stopped with SPP on, sends it. Everything else is ignored.
pub open spec fn clock_step(v: ClockView, cmd: ClockCommand) -> ClockStep {
    let keep = ClockStep { next: v, sent: Seq::empty(), anchor: ClockAnchor::Keep };
    match cmd {
        ClockCommand::Start => ClockStep {
            next: restarted(v),
            sent: seq![ClockEvent::Start],
            anchor: ClockAnchor::StartAfterLatency,
        },
        ClockCommand::Stop => if v.state == ClockState::Stopped {
            keep
        } else {
            ClockStep { next: halted(v), sent: seq![ClockEvent::Stop], anchor: ClockAnchor::Keep }
        },
        ClockCommand::Pause => if v.state == ClockState::Running {
            ClockStep {
                next: ClockView { state: ClockState::Paused, ..v },
                sent: seq![ClockEvent::Stop],
                anchor: ClockAnchor::Keep,
            }
        } else {
            keep
        },
        ClockCommand::Resume => if v.state == ClockState::Paused {
            ClockStep {
                next: ClockView { state: ClockState::Running, ..v },
                sent: seq![ClockEvent::Continue],
                anchor: ClockAnchor::ResumeBack(resume_back(v)),
            }
        } else {
            keep
        },
        ClockCommand::SetBpm(b) => if v.state == ClockState::Running {
            ClockStep {
                next: ClockView { bpm: b, phase_pulse: 0, ..v },
                sent: Seq::empty(),
                anchor: ClockAnchor::AdvanceBy(pulse_offset(v.phase_pulse, v.bpm)),
            }
        } else {
            ClockStep { next: ClockView { bpm: b, ..v }, sent: Seq::empty(), anchor: ClockAnchor::Keep }
        },
        ClockCommand::Seek(p) => ClockStep {
            next: ClockView { position: p, ..v },
            sent: if v.state == ClockState::Stopped && v.spp_enabled {
                seq![ClockEvent::SongPosition(p)]
            } else {
                Seq::empty()
            },
            anchor: ClockAnchor::Keep,
        },
    }
}

/// A due pulse while running: Timing Clock is sent and both counts go up by one.
pub open spec fn clock_pulse(v: ClockView) -> ClockStep {
    ClockStep {
        next: ClockView { pulse_count: (v.pulse_count + 1) as u64, phase_pulse: (v.phase_pulse + 1) as u64, ..v },
        sent: seq![ClockEvent::Tick],
        anchor: ClockAnchor::Keep,
    }
}

/// Where an anchor lies after a move, on a microsecond time line where `now` is the present.
pub open spec fn moved_anchor(anchor: int, m: ClockAnchor, now: int) -> int {
    match m {
        ClockAnchor::Keep => anchor,
        ClockAnchor::StartAfterLatency => now + START_LATENCY_MICROS,
        ClockAnchor::AdvanceBy(d) => anchor + d,
        ClockAnchor::ResumeBack(d) => now - d,
    }
}

/// A MIDI clock that sends 24 pulses per quarter note. The caller keeps the anchor on a real
/// clock, sleeps until `next_pulse_offset_micros` after it, calls `on_pulse`, and applies the
/// anchor move that each command returns.
pub struct ClockEngine {
    state: ClockState,
    pulse_count: u64,
    phase_pulse: u64,
    position: u16,
    scheduler: ClockScheduler,
    spp_enabled: bool,
}

impl View for ClockEngine {
    type V = ClockView;

    closed spec fn view(&self) -> ClockView {
        ClockView {
            state: self.state,
            pulse_count: self.pulse_count,
            phase_pulse: self.phase_pulse,
            position: self.position,
            bpm: self.scheduler@,
            spp_enabled: self.spp_enabled,
        }
    }
}

impl ClockEngine {
    /// Every clock is well formed.
    #[verifier::type_invariant]
    closed spec fn inv(self) -> bool {
        self@.wf()
    }

    /// A stopped clock at `initial_bpm`, song position 0.
    pub fn new(initial_bpm: u32, spp_enabled: bool) -> (e: ClockEngine)
        requires
            initial_bpm > 0,
        ensures
            e@ == (ClockView {
                state: ClockState::Stopped,
                pulse_count: 0,
                phase_pulse: 0,
                position: 0,
                bpm: initial_bpm,
                spp_enabled,
            }),
    {
        ClockEngine {
            state: ClockState::Stopped,
            pulse_count: 0,
            phase_pulse: 0,
            position: 0,
            scheduler: ClockScheduler::new(initial_bpm),
            spp_enabled,
        }
    }

    pub fn state(&self) -> (r: ClockState)
        ensures
            r == self@.state,
    {
        self.state
    }

    /// Pulses sent since the last start; frozen while paused, 0 while stopped.
    pub fn pulse_count(&self) -> (r: u64)
        ensures
            r == self@.pulse_count,
    {
        self.pulse_count
    }

    /// The song position in MIDI beats.
    pub fn position(&self) -> (r: u16)
        ensures
            r == self@.position,
    {
        self.position
    }

    pub fn bpm(&self) -> (r: u32)
        ensures
            r == self@.bpm,
    {
        self.scheduler.bpm()
    }

    /// How far after the anchor the next pulse is due, in microseconds.
    pub fn next_pulse_offset_micros(&self) -> (r: u64)
        ensures
            r == pulse_offset(self@.phase_pulse, self@.bpm),
    {
        proof {
            use_type_invariant(self);
        }
        self.scheduler.pulse_offset_micros(self.phase_pulse)
    }

    fn restart<O: ClockOutput>(&mut self, output: &mut O)
        ensures
            final(self)@ == restarted(old(self)@),
            final(output).sent() == old(output).sent().push(ClockEvent::Start),
    {
        proof {
            use_type_invariant(&*self);
        }
        self.phase_pulse = 0;
        self.pulse_count = 0;
        self.position = 0;
        self.state = ClockState::Running;
        let _ = output.clock_start();
    }

    /// Applies a command: see `clock_step`. Returns how the anchor moves.
    pub fn on_command<O: ClockOutput>(&mut self, cmd: ClockCommand, output: &mut O) -> (a: ClockAnchor)
        requires
            cmd matches ClockCommand::SetBpm(b) ==> b > 0,
        ensures
            final(self)@ == clock_step(old(self)@, cmd).next,
            final(output).sent() == old(output).sent() + clock_step(old(self)@, cmd).sent,
            a == clock_step(old(self)@, cmd).anchor,
    {
        proof {
            use_type_invariant(&*self);
        }
        let ghost v = self@;
        let ghost before = output.sent();
        match cmd {
            ClockCommand::Start => {
                self.restart(output);
                assert(output.sent() =~= before + seq![ClockEvent::Start]);
                ClockAnchor::StartAfterLatency
            },
            ClockCommand::Stop => {
                if self.state == ClockState::Stopped {
                    assert(output.sent() =~= before + Seq::<ClockEvent>::empty());
                    ClockAnchor::Keep
                } else {
                    self.phase_pulse = 0;
                    self.pulse_count = 0;
                    self.position = 0;
                    self.state = ClockState::Stopped;
                    let _ = output.clock_stop();
                    assert(output.sent() =~= before + seq![ClockEvent::Stop]);
                    ClockAnchor::Keep
                }
            },
            ClockCommand::Pause => {
                if self.state == ClockState::Running {
                    self.state = ClockState::Paused;
                    let _ = output.clock_stop();
                    assert(output.sent() =~= before + seq![ClockEvent::Stop]);
                } else {
                    assert(output.sent() =~= before + Seq::<ClockEvent>::empty());
                }
                ClockAnchor::Keep
            },
            ClockCommand::Resume => {
                if self.state == ClockState::Paused {
                    let mpp = self.scheduler.micros_per_pulse();
                    let back: u64 = match self.phase_pulse.checked_mul(mpp) {
                        Some(d) => d,
                        None => u64::MAX,
                    };
                    self.state = ClockState::Running;
                    let _ = output.clock_continue();
                    assert(output.sent() =~= before + seq![ClockEvent::Continue]);
                    ClockAnchor::ResumeBack(back)
                } else {
                    assert(output.sent() =~= before + Seq::<ClockEvent>::empty());
                    ClockAnchor::Keep
                }
            },
            ClockCommand::SetBpm(b) => {
                assert(output.sent() =~= before + Seq::<ClockEvent>::empty());
                if self.state == ClockState::Running {
                    let advance = self.scheduler.pulse_offset_micros(self.phase_pulse);
                    self.phase_pulse = 0;
                    self.scheduler = ClockScheduler::new(b);
                    ClockAnchor::AdvanceBy(advance)
                } else {
                    self.scheduler = ClockScheduler::new(b);
                    ClockAnchor::Keep
                }
            },
            ClockCommand::Seek(p) => {
                self.position = p;
                if self.state == ClockState::Stopped && self.spp_enabled {
                    let _ = output.song_position(p);
                    assert(output.sent() =~= before + seq![ClockEvent::SongPosition(p)]);
                } else {
                    assert(output.sent() =~= before + Seq::<ClockEvent>::empty());
                }
                ClockAnchor::Keep
            },
        }
    }

    /// The pulse that was due: sends Timing Clock and counts it. Only while running.
    pub fn on_pulse<O: ClockOutput>(&mut self, output: &mut O)
        requires
            old(self)@.state == ClockState::Running,
            old(self)@.pulse_count < u64::MAX,
        ensures
            final(self)@ == clock_pulse(old(self)@).next,
            final(output).sent() == old(output).sent() + clock_pulse(old(self)@).sent,
    {
        proof {
            use_type_invariant(&*self);
        }
        let ghost before = output.sent();
        self.pulse_count = self.pulse_count + 1;
        self.phase_pulse = self.phase_pulse + 1;
        let _ = output.clock_tick();
        assert(output.sent() =~= before + seq![ClockEvent::Tick]);
    }

    /// Start: see `clock_step`.
    pub fn start<O: ClockOutput>(&mut self, output: &mut O) -> (a: ClockAnchor)
        ensures
            final(self)@ == clock_step(old(self)@, ClockCommand::Start).next,
            final(output).sent() == old(output).sent() + clock_step(old(self)@, ClockCommand::Start).sent,
            a == clock_step(old(self)@, ClockCommand::Start).anchor,
    {
        self.on_command(ClockCommand::Start, output)
    }

    /// Pause: see `clock_step`.
    pub fn pause<O: ClockOutput>(&mut self, output: &mut O) -> (a: ClockAnchor)
        ensures
            final(self)@ == clock_step(old(self)@, ClockCommand::Pause).next,
            final(output).sent() == old(output).sent() + clock_step(old(self)@, ClockCommand::Pause).sent,
            a == clock_step(old(self)@, ClockCommand::Pause).anchor,
    {
        self.on_command(ClockCommand::Pause, output)
    }

    /// Resume: see `clock_step`.
    pub fn resume<O: ClockOutput>(&mut self, output: &mut O) -> (a: ClockAnchor)
        ensures
            final(self)@ == clock_step(old(self)@, ClockCommand::Resume).next,
            final(output).sent() == old(output).sent() + clock_step(old(self)@, ClockCommand::Resume).sent,
            a == clock_step(old(self)@, ClockCommand::Resume).anchor,
    {
        self.on_command(ClockCommand::Resume, output)
    }

    /// Stop: see `clock_step`.
    pub fn stop<O: ClockOutput>(&mut self, output: &mut O) -> (a: ClockAnchor)
        ensures
            final(self)@ == clock_step(old(self)@, ClockCommand::Stop).next,
            final(output).sent() == old(output).sent() + clock_step(old(self)@, ClockCommand::Stop).sent,
            a == clock_step(old(self)@, ClockCommand::Stop).anchor,
    {
        self.on_command(ClockCommand::Stop, output)
    }

    /// Tempo change: see `clock_step`.
    pub fn set_bpm<O: ClockOutput>(&mut self, bpm: u32, output: &mut O) -> (a: ClockAnchor)
        requires
            bpm > 0,
        ensures
            final(self)@ == clock_step(old(self)@, ClockCommand::SetBpm(bpm)).next,
            final(output).sent() == old(output).sent() + clock_step(old(self)@, ClockCommand::SetBpm(bpm)).sent,
            a == clock_step(old(self)@, ClockCommand::SetBpm(bpm)).anchor,
    {
        self.on_command(ClockCommand::SetBpm(bpm), output)
    }

    /// Seek: see `clock_step`.
    pub fn seek<O: ClockOutput>(&mut self, position: u16, output: &mut O) -> (a: ClockAnchor)
        ensures
            final(self)@ == clock_step(old(self)@, ClockCommand::Seek(position)).next,
            final(output).sent() == old(output).sent() + clock_step(old(self)@, ClockCommand::Seek(position)).sent,
            a == clock_step(old(self)@, ClockCommand::Seek(position)).anchor,
    {
        self.on_command(ClockCommand::Seek(position), output)
    }
}

} // verus!
