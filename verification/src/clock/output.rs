use vstd::prelude::*;

verus! {

/// A message a clock output is asked to send.
#[derive(Debug, Clone, Copy, PartialEq, Eq, Structural)]
pub enum ClockEvent {
    /// Timing Clock (0xF8).
    Tick,
    /// Start (0xFA).
    Start,
    /// Continue (0xFB).
    Continue,
    /// Stop (0xFC).
    Stop,
    /// Song Position Pointer (0xF2) with a 14-bit count of MIDI beats (sixteenth notes).
    SongPosition(u16),
}

/// Where the clock sends its messages. `sent` is the sequence of messages handed to it so
/// far; every call appends its message, whether or not the destination accepted it.
pub trait ClockOutput {
    spec fn sent(&self) -> Seq<ClockEvent>;

    fn clock_tick(&mut self) -> (r: Result<(), String>)
        ensures
            final(self).sent() == old(self).sent().push(ClockEvent::Tick),
    ;

    fn clock_start(&mut self) -> (r: Result<(), String>)
        ensures
            final(self).sent() == old(self).sent().push(ClockEvent::Start),
    ;

    fn clock_continue(&mut self) -> (r: Result<(), String>)
        ensures
            final(self).sent() == old(self).sent().push(ClockEvent::Continue),
    ;

    fn clock_stop(&mut self) -> (r: Result<(), String>)
        ensures
            final(self).sent() == old(self).sent().push(ClockEvent::Stop),
    ;

    /// Song Position Pointer: a 14-bit count of MIDI beats (1 beat = a sixteenth note = 6
    /// clock pulses) since the start of the song.
    fn song_position(&mut self, position: u16) -> (r: Result<(), String>)
        ensures
            final(self).sent() == old(self).sent().push(ClockEvent::SongPosition(position)),
    ;
}

/// A clock output that records every message in memory.
pub struct CapturingClockOutput {
    pub events: Vec<ClockEvent>,
}

impl CapturingClockOutput {
    /// A recorder with nothing recorded.
    pub fn new() -> (o: CapturingClockOutput)
        ensures
            o.events@ == Seq::<ClockEvent>::empty(),
    {
        CapturingClockOutput { events: Vec::new() }
    }
}

impl ClockOutput for CapturingClockOutput {
    open spec fn sent(&self) -> Seq<ClockEvent> {
        self.events@
    }

    fn clock_tick(&mut self) -> (r: Result<(), String>) {
        self.events.push(ClockEvent::Tick);
        Ok(())
    }

    fn clock_start(&mut self) -> (r: Result<(), String>) {
        self.events.push(ClockEvent::Start);
        Ok(())
    }

    fn clock_continue(&mut self) -> (r: Result<(), String>) {
        self.events.push(ClockEvent::Continue);
        Ok(())
    }

    fn clock_stop(&mut self) -> (r: Result<(), String>) {
        self.events.push(ClockEvent::Stop);
        Ok(())
    }

    fn song_position(&mut self, position: u16) -> (r: Result<(), String>) {
        self.events.push(ClockEvent::SongPosition(position));
        Ok(())
    }
}

} // verus!
