use vstd::prelude::*;

verus! {

/// How far after the anchor a pulse falls, in microseconds: a pulse lasts
/// 60 000 000 / (bpm × 24) µs, so pulse `n` falls at n × 2 500 000 / bpm µs, rounded down
/// (and held at `u64::MAX` beyond it).
pub open spec fn pulse_offset(pulse: u64, bpm: u32) -> u64 {
    let exact = pulse as int * 2_500_000 / bpm as int;
    if exact > u64::MAX { u64::MAX } else { exact as u64 }
}

/// The length of a pulse in whole microseconds: 60 000 000 / (bpm × 24), rounded down.
pub open spec fn micros_per_pulse_at(bpm: u32) -> u64 {
    (2_500_000int / bpm as int) as u64
}

/// Pulse timing of the clock (24 pulses per quarter note) at a whole-number tempo.
pub struct ClockScheduler {
    bpm: u32,
}

impl View for ClockScheduler {
    type V = u32;

    /// The tempo in beats per minute.
    closed spec fn view(&self) -> u32 {
        self.bpm
    }
}

impl ClockScheduler {
    /// A scheduler at `bpm`.
    pub fn new(bpm: u32) -> (s: ClockScheduler)
        requires
            bpm > 0,
        ensures
            s@ == bpm,
    {
        ClockScheduler { bpm }
    }

    /// Changes the tempo.
    pub fn update_bpm(&mut self, bpm: u32)
        requires
            bpm > 0,
        ensures
            final(self)@ == bpm,
    {
        self.bpm = bpm;
    }

    /// The tempo in beats per minute.
    pub fn bpm(&self) -> (r: u32)
        ensures
            r == self@,
    {
        self.bpm
    }

    /// The length of a pulse in whole microseconds.
    pub fn micros_per_pulse(&self) -> (r: u64)
        requires
            self@ > 0,
        ensures
            r == micros_per_pulse_at(self@),
    {
        2_500_000u64 / (self.bpm as u64)
    }

    /// How far after the anchor pulse `pulse` falls, in microseconds.
    pub fn pulse_offset_micros(&self, pulse: u64) -> (r: u64)
        requires
            self@ > 0,
        ensures
            r == pulse_offset(pulse, self@),
    {
        let exact: u128 = (pulse as u128) * 2_500_000u128 / (self.bpm as u128);
        if exact > u64::MAX as u128 {
            u64::MAX
        } else {
            exact as u64
        }
    }
}

} // verus!
