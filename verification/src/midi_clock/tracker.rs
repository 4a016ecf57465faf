use vstd::prelude::*;

verus! {

/// How many pulse timestamps the tracker keeps (24 intervals).
pub const HISTORY_LEN: usize = 25;

/// The last `n` elements of a sequence (all of it when shorter).
pub open spec fn keep_last(s: Seq<u64>, n: nat) -> Seq<u64> {
    if s.len() > n { s.subrange(s.len() - n, s.len() as int) } else { s }
}

/// The time after which a clock counts as lost: 3.5 times the last pulse interval, in
/// microseconds (rounded down, and capped at the largest representable value). None until two
/// pulses arrived.
pub open spec fn timeout_of(history: Seq<u64>) -> Option<u64> {
    if history.len() < 2 {
        None
    } else {
        let last = history[history.len() - 1];
        let prev = history[history.len() - 2];
        let interval: int = if last >= prev { last - prev } else { 0 };
        let t = interval * 7 / 2;
        Some(if t > u64::MAX { u64::MAX } else { t as u64 })
    }
}

/// The length of the interval from `a` to `b`, in microseconds; 0 when `b` is earlier.
pub open spec fn interval(a: u64, b: u64) -> int {
    if b >= a { b - a } else { 0 }
}

/// The summed lengths of the intervals between consecutive timestamps of `h[0..n]`.
pub open spec fn interval_sum(h: Seq<u64>, n: int) -> int
    decreases n,
{
    if n <= 1 { 0 } else { interval_sum(h, n - 1) + interval(h[n - 2], h[n - 1]) }
}

/// The tempo the kept pulses show, in whole beats per minute: with 24 pulses per quarter note
/// it is 60 000 000 / (average interval × 24) = 2 500 000 × intervals / total, rounded to the
/// nearest whole number. None until two pulses arrived, and when the intervals sum to 0 or the
/// tempo rounds to 0.
pub open spec fn tempo_of(history: Seq<u64>) -> Option<u32> {
    if history.len() < 2 {
        None
    } else {
        let total = interval_sum(history, history.len() as int);
        let count = history.len() - 1;
        if total == 0 {
            None
        } else {
            let t = (5_000_000 * count + total) / (2 * total);
            if t == 0 || t > u32::MAX { None } else { Some(t as u32) }
        }
    }
}

/// Timestamps (in microseconds) of the most recent incoming MIDI clock pulses.
pub struct PulseTracker {
    history: Vec<u64>,
}

impl View for PulseTracker {
    type V = Seq<u64>;

    closed spec fn view(&self) -> Seq<u64> {
        self.history@
    }
}

impl PulseTracker {
    /// A tracker that has seen no pulse.
    pub fn new() -> (t: PulseTracker)
        ensures
            t@ == Seq::<u64>::empty(),
    {
        PulseTracker { history: Vec::new() }
    }

    /// Records a pulse at `now`, keeping only the most recent 25 timestamps.
    pub fn update(&mut self, now: u64)
        requires
            old(self)@.len() <= HISTORY_LEN,
        ensures
            final(self)@ == keep_last(old(self)@.push(now), HISTORY_LEN as nat),
            final(self)@.len() <= HISTORY_LEN,
    {
        self.history.push(now);
        while self.history.len() > HISTORY_LEN
            invariant
                self.history@.len() <= HISTORY_LEN + 1,
                keep_last(self.history@, HISTORY_LEN as nat) == keep_last(old(self)@.push(now), HISTORY_LEN as nat),
            decreases self.history@.len(),
        {
            let ghost before = self.history@;
            self.history.remove(0);
            assert(keep_last(self.history@, HISTORY_LEN as nat) =~= keep_last(before, HISTORY_LEN as nat));
        }
        assert(keep_last(self.history@, HISTORY_LEN as nat) =~= self.history@);
    }

    /// 3.5 times the last pulse interval in microseconds, once two pulses arrived.
    pub fn timeout_duration(&self) -> (r: Option<u64>)
        ensures
            r == timeout_of(self@),
    {
        let n = self.history.len();
        if n < 2 {
            return None;
        }
        let last = self.history[n - 1];
        let prev = self.history[n - 2];
        let interval: u64 = if last >= prev { last - prev } else { 0 };
        let t: u128 = (interval as u128) * 7 / 2;
        if t > u64::MAX as u128 {
            Some(u64::MAX)
        } else {
            Some(t as u64)
        }
    }

    /// The summed lengths of the kept pulse intervals in microseconds, and how many intervals
    /// there are; None until two pulses arrived. The tempo estimate is 60 000 000 / (average
    /// interval × 24).
    pub fn interval_total(&self) -> (r: Option<(u128, u64)>)
        requires
            self@.len() <= HISTORY_LEN,
        ensures
            self@.len() < 2 ==> r is None,
            self@.len() >= 2 ==> r == Some((interval_sum(self@, self@.len() as int) as u128, (self@.len() - 1) as u64)),
            0 <= interval_sum(self@, self@.len() as int) <= HISTORY_LEN * 0x1_0000_0000_0000_0000,
    {
        let n = self.history.len();
        if n < 2 {
            return None;
        }
        let mut total: u128 = 0;
        let mut i: usize = 1;
        while i < n
            invariant
                n == self@.len(),
                n <= HISTORY_LEN,
                1 <= i <= n,
                total == interval_sum(self@, i as int),
                total <= i * 0x1_0000_0000_0000_0000,
            decreases n - i,
        {
            let a = self.history[i - 1];
            let b = self.history[i];
            if b >= a {
                total = total + ((b - a) as u128);
            }
            i = i + 1;
        }
        Some((total, (n - 1) as u64))
    }

    /// The tempo estimate of `tempo_of`.
    pub fn bpm(&self) -> (r: Option<u32>)
        requires
            self@.len() <= HISTORY_LEN,
        ensures
            r == tempo_of(self@),
    {
        match self.interval_total() {
            None => None,
            Some((total, count)) => {
                if total == 0 {
                    None
                } else {
                    let t: u128 = (5_000_000u128 * (count as u128) + total) / (2 * total);
                    if t == 0 || t > u32::MAX as u128 {
                        None
                    } else {
                        Some(t as u32)
                    }
                }
            },
        }
    }

    /// Forgets every pulse.
    pub fn reset(&mut self)
        ensures
            final(self)@ == Seq::<u64>::empty(),
    {
        self.history.clear();
    }

    /// The kept timestamps, oldest first.
    pub fn history(&self) -> (r: &[u64])
        ensures
            r@ == self@,
    {
        self.history.as_slice()
    }
}

} // verus!
