use vstd::prelude::*;

verus! {

/// The lowest tempo the clock console sets.
pub const BPM_MIN: i64 = 20;

/// The highest tempo the clock console sets.
pub const BPM_MAX: i64 = 300;

/// The tempo an arrow key asks for: the reported tempo (the lowest one when there is no
/// report) moved by `delta` and held in 20..=300.
pub open spec fn adjusted_tempo(current: Option<u32>, delta: i64) -> int {
    let base: int = match current {
        Some(b) => b as int,
        None => BPM_MIN as int,
    };
    let t = base + delta;
    if t < BPM_MIN { BPM_MIN as int } else if t > BPM_MAX { BPM_MAX as int } else { t }
}

/// The tempo to request after pressing up (+1) or down (-1); see `adjusted_tempo`.
pub fn adjusted_bpm(current: Option<u32>, delta: i64) -> (r: u32)
    ensures
        r == adjusted_tempo(current, delta),
{
    let base: i64 = match current {
        Some(b) => b as i64,
        None => BPM_MIN,
    };
    let t: i64 = if delta > 0 {
        if base > BPM_MAX { BPM_MAX } else if delta > BPM_MAX - base { BPM_MAX } else { base + delta }
    } else {
        if delta < BPM_MIN - base { BPM_MIN } else { base + delta }
    };
    let c: i64 = if t < BPM_MIN { BPM_MIN } else if t > BPM_MAX { BPM_MAX } else { t };
    c as u32
}

} // verus!
