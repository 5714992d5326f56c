use vstd::prelude::*;

verus! {

/// Measures the time between successive loop iterations. Timestamps are
/// nanoseconds on the caller's clock source.
#[derive(Clone, Copy, Debug, PartialEq, Eq, Structural)]
pub struct FrameClock {
    pub last_tick: u64,
}

/// Time from `last` to `now`; a clock that went backward gives zero rather than
/// a negative delta.
pub open spec fn elapsed(last: u64, now: u64) -> u64 {
    if now >= last {
        (now - last) as u64
    } else {
        0
    }
}

impl FrameClock {
    /// Starts the clock at `now`.
    pub fn start(now: u64) -> (r: FrameClock)
        ensures
            r.last_tick == now,
    {
        FrameClock { last_tick: now }
    }

    /// Returns the time since the previous tick (or since the start) and makes
    /// `now` the new reference point.
    pub fn tick(&mut self, now: u64) -> (dt: u64)
        ensures
            dt == elapsed(old(self).last_tick, now),
            old(self).last_tick <= now ==> dt == now - old(self).last_tick,
            final(self).last_tick == now,
    {
        let dt = if now >= self.last_tick {
            now - self.last_tick
        } else {
            0
        };
        self.last_tick = now;
        dt
    }
}

/// Deltas that a clock started at `start` reports for the successive
/// timestamps `times`.
pub open spec fn deltas(start: u64, times: Seq<u64>) -> Seq<u64>
    decreases times.len(),
{
    if times.len() == 0 {
        seq![]
    } else {
        let prev = if times.len() == 1 {
            start
        } else {
            times[times.len() - 2]
        };
        deltas(start, times.drop_last()).push(elapsed(prev, times.last()))
    }
}

/// Timestamps that never go backward, beginning no earlier than `start`.
pub open spec fn non_decreasing_from(start: u64, times: Seq<u64>) -> bool {
    &&& forall|i: int| 0 <= i < times.len() ==> start <= times[i]
    &&& forall|i: int, j: int| 0 <= i <= j < times.len() ==> times[i] <= times[j]
}

/// Under a clock that never goes backward, the first delta is the time since
/// the start, and each later one is the exact, non-negative time since the
/// timestamp before it.
pub proof fn lemma_deltas_exact_under_monotonic_clock(start: u64, times: Seq<u64>)
    requires
        non_decreasing_from(start, times),
    ensures
        deltas(start, times).len() == times.len(),
        times.len() > 0 ==> deltas(start, times)[0] == times[0] - start,
        forall|i: int|
            1 <= i < times.len() ==> deltas(start, times)[i] == times[i] - times[i - 1],
    decreases times.len(),
{
    if times.len() > 0 {
        let rest = times.drop_last();
        lemma_deltas_exact_under_monotonic_clock(start, rest);
        assert(non_decreasing_from(start, rest));
    }
}

} // verus!
