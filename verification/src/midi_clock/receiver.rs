use vstd::prelude::*;

use crate::loop_engine::model::LoopCommand;
use crate::midi::ClockMessage;
use super::tracker::{interval_sum, keep_last, tempo_of, timeout_of, PulseTracker, HISTORY_LEN};

verus! {

/// Whether an external MIDI clock is being followed.
#[derive(Debug, Clone, Copy, PartialEq, Eq, Structural)]
pub enum SyncClockState {
    /// No clock seen since startup or since the last Stop.
    Waiting,
    /// Pulses are flowing.
    Tracking,
    /// Pulses were flowing and have gone silent.
    Lost,
}

/// What the receiver remembers.
pub struct ReceiverView {
    pub state: SyncClockState,
    pub history: Seq<u64>,
    pub last_bpm: Option<u32>,
}

/// The decisions of sync mode: it classifies the external clock's state and turns incoming
/// MIDI realtime messages into commands for the loop player.
pub struct MidiClockReceiver {
    state: SyncClockState,
    tracker: PulseTracker,
    last_bpm: Option<u32>,
}

impl View for MidiClockReceiver {
    type V = ReceiverView;

    closed spec fn view(&self) -> ReceiverView {
        ReceiverView { state: self.state, history: self.tracker@, last_bpm: self.last_bpm }
    }
}

/// One second, the receive timeout before any clock interval is known.
pub const DEFAULT_TIMEOUT_MICROS: u64 = 1_000_000;

impl MidiClockReceiver {
    /// The receiver's consistency: it keeps at most 25 pulse timestamps.
    pub open spec fn wf(&self) -> bool {
        self@.history.len() <= HISTORY_LEN
    }

    /// A receiver waiting for a clock.
    pub fn new() -> (r: MidiClockReceiver)
        ensures
            r@.state == SyncClockState::Waiting,
            r@.history == Seq::<u64>::empty(),
            r@.last_bpm is None,
            r.wf(),
    {
        MidiClockReceiver { state: SyncClockState::Waiting, tracker: PulseTracker::new(), last_bpm: None }
    }

    /// The state of the external clock.
    pub fn sync_clock_state(&self) -> (r: SyncClockState)
        ensures
            r == self@.state,
    {
        self.state
    }

    /// The summed lengths of the kept pulse intervals and their number, for the tempo
    /// estimate; None until two pulses arrived.
    pub fn pulse_interval_total(&self) -> (r: Option<(u128, u64)>)
        requires
            self.wf(),
        ensures
            self@.history.len() < 2 ==> r is None,
            self@.history.len() >= 2 ==> r == Some((
                interval_sum(self@.history, self@.history.len() as int) as u128,
                (self@.history.len() - 1) as u64,
            )),
    {
        self.tracker.interval_total()
    }

    /// How long to wait for the next message before declaring the clock lost: 3.5 pulse
    /// intervals once known, one second before.
    pub fn receive_timeout_micros(&self) -> (r: u64)
        ensures
            r == match timeout_of(self@.history) {
                Some(t) => t,
                None => DEFAULT_TIMEOUT_MICROS,
            },
    {
        match self.tracker.timeout_duration() {
            Some(t) => t,
            None => DEFAULT_TIMEOUT_MICROS,
        }
    }

    /// A clock pulse at `now`: it is recorded, and a waiting or lost clock is tracked again
    /// (without restarting the loop).
    pub fn on_pulse(&mut self, now: u64)
        requires
            old(self).wf(),
        ensures
            final(self).wf(),
            final(self)@.history == keep_last(old(self)@.history.push(now), HISTORY_LEN as nat),
            final(self)@.state == SyncClockState::Tracking,
            final(self)@.last_bpm == old(self)@.last_bpm,
    {
        self.tracker.update(now);
        if self.state == SyncClockState::Lost || self.state == SyncClockState::Waiting {
            self.state = SyncClockState::Tracking;
        }
    }

    /// A tempo estimate after a pulse: the loop is told only when it differs from the last
    /// tempo told.
    pub fn on_tempo_estimate(&mut self, bpm: Option<u32>) -> (r: Option<LoopCommand>)
        ensures
            final(self)@.state == old(self)@.state,
            final(self)@.history == old(self)@.history,
            r == match bpm {
                Some(b) => if old(self)@.last_bpm != Some(b) { Some(LoopCommand::SyncBpmUpdate(b)) } else { None },
                None => None,
            },
            final(self)@.last_bpm == match bpm {
                Some(b) => Some(b),
                None => old(self)@.last_bpm,
            },
    {
        match bpm {
            Some(b) => {
                if self.last_bpm != Some(b) {
                    self.last_bpm = Some(b);
                    Some(LoopCommand::SyncBpmUpdate(b))
                } else {
                    None
                }
            },
            None => None,
        }
    }

    /// A MIDI Start: tempo history is dropped, the clock is tracked and the loop restarts.
    pub fn on_start(&mut self) -> (r: LoopCommand)
        ensures
            r == LoopCommand::SyncStart,
            final(self)@.state == SyncClockState::Tracking,
            final(self)@.history == Seq::<u64>::empty(),
            final(self)@.last_bpm is None,
            final(self).wf(),
    {
        self.tracker.reset();
        self.last_bpm = None;
        self.state = SyncClockState::Tracking;
        LoopCommand::SyncStart
    }

    /// A MIDI Continue resumes the loop once a clock interval has ever been established
    /// (devices often stop pulsing while paused, so a stale interval still counts); before
    /// that it is ignored.
    pub fn on_continue(&mut self) -> (r: Option<LoopCommand>)
        ensures
            final(self)@ == old(self)@,
            r == if timeout_of(old(self)@.history) is Some { Some(LoopCommand::SyncContinue) } else { None },
    {
        if self.tracker.timeout_duration().is_some() {
            Some(LoopCommand::SyncContinue)
        } else {
            None
        }
    }

    /// A MIDI Stop: back to waiting, and the loop pauses, keeping its position for a
    /// following Continue.
    pub fn on_stop(&mut self) -> (r: LoopCommand)
        ensures
            r == LoopCommand::SyncPause,
            final(self)@.state == SyncClockState::Waiting,
            final(self)@.history == old(self)@.history,
            final(self)@.last_bpm == old(self)@.last_bpm,
    {
        self.state = SyncClockState::Waiting;
        LoopCommand::SyncPause
    }

    /// No message within the timeout: the first time, the clock is declared lost, the loop
    /// pauses (keeping its position) and (when forwarding) a MIDI Stop is sent downstream; later timeouts do nothing.
    /// Returns the command for the loop and whether to send the Stop.
    pub fn on_timeout(&mut self, forwarding_enabled: bool) -> (r: (Option<LoopCommand>, bool))
        ensures
            final(self)@.state == SyncClockState::Lost,
            final(self)@.history == old(self)@.history,
            final(self)@.last_bpm == old(self)@.last_bpm,
            r == if old(self)@.state != SyncClockState::Lost {
                (Some(LoopCommand::SyncPause), forwarding_enabled)
            } else {
                (None, false)
            },
    {
        if self.state != SyncClockState::Lost {
            self.state = SyncClockState::Lost;
            (Some(LoopCommand::SyncPause), forwarding_enabled)
        } else {
            (None, false)
        }
    }

    /// The tempo the kept pulses show; see `tempo_of`.
    pub fn tempo_estimate(&self) -> (r: Option<u32>)
        requires
            self.wf(),
        ensures
            r == tempo_of(self@.history),
    {
        self.tracker.bpm()
    }

    /// Any incoming clock message; a pulse is recorded and then yields the tempo it shows,
    /// which the loop is told when it changed. See the `on_*` methods.
    pub fn on_message(&mut self, msg: ClockMessage, now: u64) -> (r: Option<LoopCommand>)
        requires
            old(self).wf(),
        ensures
            final(self).wf(),
            match msg {
                ClockMessage::Pulse => {
                    let h = keep_last(old(self)@.history.push(now), HISTORY_LEN as nat);
                    &&& final(self)@.state == SyncClockState::Tracking
                    &&& final(self)@.history == h
                    &&& r == match tempo_of(h) {
                        Some(b) => if old(self)@.last_bpm != Some(b) { Some(LoopCommand::SyncBpmUpdate(b)) } else { None },
                        None => None,
                    }
                    &&& final(self)@.last_bpm == match tempo_of(h) {
                        Some(b) => Some(b),
                        None => old(self)@.last_bpm,
                    }
                },
                ClockMessage::Start => r == Some(LoopCommand::SyncStart) && final(self)@.state == SyncClockState::Tracking
                    && final(self)@.history == Seq::<u64>::empty(),
                ClockMessage::Continue => final(self)@ == old(self)@
                    && r == if timeout_of(old(self)@.history) is Some { Some(LoopCommand::SyncContinue) } else { None },
                ClockMessage::Stop => r == Some(LoopCommand::SyncPause) && final(self)@.state == SyncClockState::Waiting
                    && final(self)@.history == old(self)@.history,
            },
    {
        match msg {
            ClockMessage::Pulse => {
                self.on_pulse(now);
                let estimate = self.tempo_estimate();
                self.on_tempo_estimate(estimate)
            },
            ClockMessage::Start => Some(self.on_start()),
            ClockMessage::Continue => self.on_continue(),
            ClockMessage::Stop => Some(self.on_stop()),
        }
    }
}

/// A Continue is honored exactly when at least two pulses were recorded since the last Start.
pub proof fn law_continue_needs_established_clock(history: Seq<u64>)
    ensures
        timeout_of(history) is Some <==> history.len() >= 2,
{
}

} // verus!
