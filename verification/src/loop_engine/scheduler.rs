use vstd::prelude::*;

verus! {

/// Microseconds per tick at a tempo: 60 000 000 µs per minute over (bpm × 480 ticks per
/// quarter note), rounded down.
pub open spec fn micros_per_tick_at(bpm: u32) -> u64 {
    (60_000_000int / (bpm as int * 480)) as u64
}

/// The tempo the loop is scheduled at, and its tick length.
#[derive(Debug, Clone, Copy, PartialEq, Eq, Structural)]
pub struct SchedulerView {
    pub bpm: u32,
    pub micros_per_tick: u64,
}

/// Tick timing of the loop at a whole-number tempo.
pub struct Scheduler {
    bpm: u32,
    micros_per_tick: u64,
}

impl View for Scheduler {
    type V = SchedulerView;

    closed spec fn view(&self) -> SchedulerView {
        SchedulerView { bpm: self.bpm, micros_per_tick: self.micros_per_tick }
    }
}

/// A scheduler at `bpm` (which must be positive) with its tick length derived from it.
pub open spec fn scheduler_at(bpm: u32) -> SchedulerView {
    SchedulerView { bpm, micros_per_tick: micros_per_tick_at(bpm) }
}

impl Scheduler {
    /// A scheduler at `bpm`.
    pub fn new(bpm: u32) -> (s: Scheduler)
        requires
            bpm > 0,
        ensures
            s@ == scheduler_at(bpm),
    {
        let micros_per_tick: u64 = 60_000_000u64 / (bpm as u64 * 480);
        Scheduler { bpm, micros_per_tick }
    }

    /// Length of one tick in microseconds.
    pub fn micros_per_tick(&self) -> (r: u64)
        ensures
            r == self@.micros_per_tick,
    {
        self.micros_per_tick
    }

    /// The tempo in beats per minute.
    pub fn bpm(&self) -> (r: u32)
        ensures
            r == self@.bpm,
    {
        self.bpm
    }

    /// Changes the tempo; the tick length follows it.
    pub fn update_bpm(&mut self, bpm: u32)
        requires
            bpm > 0,
        ensures
            final(self)@ == scheduler_at(bpm),
    {
        self.bpm = bpm;
        self.micros_per_tick = 60_000_000u64 / (bpm as u64 * 480);
    }

    /// How far after the loop anchor a tick falls, in microseconds.
    pub fn tick_offset_micros(&self, tick: u64) -> (r: u64)
        requires
            tick * self@.micros_per_tick <= u64::MAX,
        ensures
            r == tick * self@.micros_per_tick,
    {
        tick * self.micros_per_tick
    }
}

/// A tick length is never more than 125 000 µs (the length at 1 BPM).
pub proof fn lemma_micros_per_tick_bounded(bpm: u32)
    requires
        bpm > 0,
    ensures
        micros_per_tick_at(bpm) <= 125_000,
{
    assert(bpm as int * 480 >= 480);
    assert(60_000_000int / (bpm as int * 480) <= 60_000_000int / 480) by (nonlinear_arith)
        requires bpm as int * 480 >= 480;
}

} // verus!
