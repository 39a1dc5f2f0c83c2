//! A concurrency-friendly rate/count metric over three fixed decay windows.
//!
//! All mutation goes through `&mut self`; a caller that shares a meter
//! between threads wraps it in one exclusive lock per instance, so each
//! operation here is one critical section.

use vstd::prelude::*;
use crate::SCALE;
use crate::clock;
use crate::ewma::{EwmaEngine, decayed_ppm, instant_ppm};

verus! {

/// Smoothing constant for the one-minute window on a five-second cadence,
/// in parts-per-million: `1 - exp(-tick / (window * 60))` precomputed.
pub const ALPHA_ONE_MIN_PPM: u64 = 79_956;

/// Smoothing constant for the five-minute window on a five-second cadence.
pub const ALPHA_FIVE_MIN_PPM: u64 = 16_529;

/// Smoothing constant for the fifteen-minute window on a five-second cadence.
pub const ALPHA_FIFTEEN_MIN_PPM: u64 = 5_540;

/// The fixed tick cadence, in seconds.
pub const TICK_SECONDS: u64 = 5;

/// An immutable point-in-time copy of a meter's observable state. `count`
/// is the all-time total; `rates` hold the per-minute decayed rates of the
/// 1-, 5- and 15-minute windows, in parts-per-million; `mean` is the
/// average arrival rate per second since creation, in parts-per-million.
#[derive(Clone, Copy, Debug)]
pub struct MeterSnapshot {
    pub count: i64,
    pub rates: [u128; 3],
    pub mean: u128,
}

/// A rate meter: three decay engines, an event counter, a creation time,
/// and a cached snapshot recomputed on every mutation.
#[derive(Debug)]
pub struct StdMeter {
    pub data: MeterSnapshot,
    pub e1: EwmaEngine,
    pub e5: EwmaEngine,
    pub e15: EwmaEngine,
    pub start: u64,
}

/// Whole seconds elapsed from `start` to `now`; zero if the clock ran
/// backwards.
pub open spec fn elapsed_secs(start: int, now: int) -> int {
    if now >= start {
        now - start
    } else {
        0
    }
}

/// The mean arrival rate in parts-per-million: `count / elapsed` scaled by
/// `SCALE`, with the elapsed time floored at one second so that the first
/// sub-second reads are defined.
pub open spec fn mean_ppm(count: int, elapsed: int) -> int {
    count * (SCALE as int) / (if elapsed < 1 { 1 } else { elapsed })
}

impl StdMeter {
    /// The part of well-formedness that holds even while a mutation is in
    /// flight: the engines are configured for the 1/5/15-minute windows on
    /// the fixed cadence, the count never goes negative, and no engine
    /// holds more pending events than the total count.
    pub open spec fn wf_core(self) -> bool {
        &&& self.e1.wf()
        &&& self.e5.wf()
        &&& self.e15.wf()
        &&& self.e1.alpha_ppm == ALPHA_ONE_MIN_PPM
        &&& self.e5.alpha_ppm == ALPHA_FIVE_MIN_PPM
        &&& self.e15.alpha_ppm == ALPHA_FIFTEEN_MIN_PPM
        &&& self.e1.tick_seconds == TICK_SECONDS
        &&& self.e5.tick_seconds == TICK_SECONDS
        &&& self.e15.tick_seconds == TICK_SECONDS
        &&& 0 <= self.data.count
        &&& self.e1.pending <= self.data.count
        &&& self.e5.pending <= self.data.count
        &&& self.e15.pending <= self.data.count
    }

    /// Well-formedness between operations: the core invariant, and the
    /// cached rates agree with the engines (the snapshot is recomputed on
    /// every mutation, never mutated independently).
    pub open spec fn wf(self) -> bool {
        &&& self.wf_core()
        &&& self.data.rates[0] == self.e1.rate_ppm * 60
        &&& self.data.rates[1] == self.e5.rate_ppm * 60
        &&& self.data.rates[2] == self.e15.rate_ppm * 60
    }

    /// A fresh meter created at time `start` (Unix seconds).
    pub fn new_at(start: u64) -> (m: StdMeter)
        ensures
            m.wf(),
            m.data.count == 0,
            m.data.rates[0] == 0,
            m.data.rates[1] == 0,
            m.data.rates[2] == 0,
            m.data.mean == 0,
            m.e1.pending == 0,
            m.e5.pending == 0,
            m.e15.pending == 0,
            m.e1.rate_ppm == 0,
            m.e5.rate_ppm == 0,
            m.e15.rate_ppm == 0,
            !m.e1.initialized,
            !m.e5.initialized,
            !m.e15.initialized,
            m.start == start,
    {
        StdMeter {
            data: MeterSnapshot { count: 0, rates: [0, 0, 0], mean: 0 },
            e1: EwmaEngine::new(ALPHA_ONE_MIN_PPM, TICK_SECONDS),
            e5: EwmaEngine::new(ALPHA_FIVE_MIN_PPM, TICK_SECONDS),
            e15: EwmaEngine::new(ALPHA_FIFTEEN_MIN_PPM, TICK_SECONDS),
            start,
        }
    }

    /// A fresh meter created now, by the system clock.
    pub fn new() -> (m: StdMeter)
        ensures
            m.wf(),
            m.data.count == 0,
            m.data.rates[0] == 0,
            m.data.rates[1] == 0,
            m.data.rates[2] == 0,
            m.data.mean == 0,
            m.e1.pending == 0,
            m.e5.pending == 0,
            m.e15.pending == 0,
            m.e1.rate_ppm == 0,
            m.e5.rate_ppm == 0,
            m.e15.rate_ppm == 0,
            !m.e1.initialized,
            !m.e5.initialized,
            !m.e15.initialized,
    {
        let now = clock::now_seconds();
        StdMeter::new_at(now)
    }

    /// Recompute the cached snapshot's rates and mean from the engines and
    /// the elapsed time, exactly as every mutation does.
    pub fn update_snapshot_at(&mut self, now: u64)
        requires
            old(self).wf_core(),
        ensures
            final(self).wf(),
            final(self).data.count == old(self).data.count,
            final(self).e1 == old(self).e1,
            final(self).e5 == old(self).e5,
            final(self).e15 == old(self).e15,
            final(self).start == old(self).start,
            final(self).data.rates[0] == old(self).e1.rate_ppm * 60,
            final(self).data.rates[1] == old(self).e5.rate_ppm * 60,
            final(self).data.rates[2] == old(self).e15.rate_ppm * 60,
            final(self).data.mean == mean_ppm(
                old(self).data.count as int,
                elapsed_secs(old(self).start as int, now as int),
            ),
    {
        let r0 = self.e1.rate_per_minute();
        let r1 = self.e5.rate_per_minute();
        let r2 = self.e15.rate_per_minute();
        let elapsed: u64 = if now >= self.start {
            now - self.start
        } else {
            0
        };
        let divisor: u64 = if elapsed < 1 {
            1
        } else {
            elapsed
        };
        let mean: u128 = (self.data.count as u128) * (SCALE as u128) / (divisor as u128);
        self.data = MeterSnapshot { count: self.data.count, rates: [r0, r1, r2], mean };
    }

    /// Record `n` observed events at time `now`: add `n` to the total,
    /// hand `n` to each engine's pending counter, and recompute the cached
    /// snapshot. The decayed rates themselves move only on ticks.
    pub fn mark_at(&mut self, n: i64, now: u64)
        requires
            old(self).wf(),
            0 <= n,
            old(self).data.count + n <= i64::MAX,
        ensures
            final(self).wf(),
            final(self).data.count == old(self).data.count + n,
            final(self).e1.pending == old(self).e1.pending + n,
            final(self).e5.pending == old(self).e5.pending + n,
            final(self).e15.pending == old(self).e15.pending + n,
            final(self).e1.rate_ppm == old(self).e1.rate_ppm,
            final(self).e5.rate_ppm == old(self).e5.rate_ppm,
            final(self).e15.rate_ppm == old(self).e15.rate_ppm,
            final(self).e1.initialized == old(self).e1.initialized,
            final(self).e5.initialized == old(self).e5.initialized,
            final(self).e15.initialized == old(self).e15.initialized,
            final(self).start == old(self).start,
            final(self).data.rates[0] == old(self).e1.rate_ppm * 60,
            final(self).data.rates[1] == old(self).e5.rate_ppm * 60,
            final(self).data.rates[2] == old(self).e15.rate_ppm * 60,
            final(self).data.mean == mean_ppm(
                old(self).data.count + n,
                elapsed_secs(old(self).start as int, now as int),
            ),
    {
        self.data.count = self.data.count + n;
        let un = n as u64;
        self.e1.update(un);
        self.e5.update(un);
        self.e15.update(un);
        self.update_snapshot_at(now);
    }

    /// Record `n` observed events now, by the system clock.
    pub fn mark(&mut self, n: i64)
        requires
            old(self).wf(),
            0 <= n,
            old(self).data.count + n <= i64::MAX,
        ensures
            final(self).wf(),
            final(self).data.count == old(self).data.count + n,
            final(self).e1.pending == old(self).e1.pending + n,
            final(self).e5.pending == old(self).e5.pending + n,
            final(self).e15.pending == old(self).e15.pending + n,
            final(self).e1.rate_ppm == old(self).e1.rate_ppm,
            final(self).e5.rate_ppm == old(self).e5.rate_ppm,
            final(self).e15.rate_ppm == old(self).e15.rate_ppm,
            final(self).start == old(self).start,
            final(self).data.rates[0] == old(self).e1.rate_ppm * 60,
            final(self).data.rates[1] == old(self).e5.rate_ppm * 60,
            final(self).data.rates[2] == old(self).e15.rate_ppm * 60,
            exists|now: u64|
                final(self).data.mean == mean_ppm(
                    old(self).data.count + n,
                    elapsed_secs(old(self).start as int, now as int),
                ),
    {
        let now = clock::now_seconds();
        self.mark_at(n, now);
    }

    /// Advance every engine one tick at time `now` and recompute the
    /// cached snapshot.
    pub fn tick_at(&mut self, now: u64)
        requires
            old(self).wf(),
        ensures
            final(self).wf(),
            final(self).data.count == old(self).data.count,
            final(self).start == old(self).start,
            final(self).e1.pending == 0,
            final(self).e5.pending == 0,
            final(self).e15.pending == 0,
            final(self).e1.initialized,
            final(self).e5.initialized,
            final(self).e15.initialized,
            final(self).e1.rate_ppm == ticked_rate(old(self).e1),
            final(self).e5.rate_ppm == ticked_rate(old(self).e5),
            final(self).e15.rate_ppm == ticked_rate(old(self).e15),
            final(self).data.rates[0] == final(self).e1.rate_ppm * 60,
            final(self).data.rates[1] == final(self).e5.rate_ppm * 60,
            final(self).data.rates[2] == final(self).e15.rate_ppm * 60,
            final(self).data.mean == mean_ppm(
                old(self).data.count as int,
                elapsed_secs(old(self).start as int, now as int),
            ),
    {
        self.e1.tick();
        self.e5.tick();
        self.e15.tick();
        self.update_snapshot_at(now);
    }

    /// Advance every engine one tick now, by the system clock.
    pub fn tick(&mut self)
        requires
            old(self).wf(),
        ensures
            final(self).wf(),
            final(self).data.count == old(self).data.count,
            final(self).start == old(self).start,
            final(self).e1.pending == 0,
            final(self).e5.pending == 0,
            final(self).e15.pending == 0,
            final(self).e1.rate_ppm == ticked_rate(old(self).e1),
            final(self).e5.rate_ppm == ticked_rate(old(self).e5),
            final(self).e15.rate_ppm == ticked_rate(old(self).e15),
            final(self).data.rates[0] == final(self).e1.rate_ppm * 60,
            final(self).data.rates[1] == final(self).e5.rate_ppm * 60,
            final(self).data.rates[2] == final(self).e15.rate_ppm * 60,
            exists|now: u64|
                final(self).data.mean == mean_ppm(
                    old(self).data.count as int,
                    elapsed_secs(old(self).start as int, now as int),
                ),
    {
        let now = clock::now_seconds();
        self.tick_at(now);
    }

    /// The cached per-minute rate for the window of `window` minutes.
    /// Only 1, 5 and 15 are configured; any other window reads zero.
    pub fn rate(&self, window: u64) -> (r: u128)
        ensures
            r == if window == 1 {
                self.data.rates[0]
            } else if window == 5 {
                self.data.rates[1]
            } else if window == 15 {
                self.data.rates[2]
            } else {
                0
            },
    {
        if window == 1 {
            self.data.rates[0]
        } else if window == 5 {
            self.data.rates[1]
        } else if window == 15 {
            self.data.rates[2]
        } else {
            0
        }
    }

    /// The cached mean arrival rate, in parts-per-million per second.
    pub fn mean(&self) -> (m: u128)
        ensures
            m == self.data.mean,
    {
        self.data.mean
    }

    /// The cached cumulative event count.
    pub fn count(&self) -> (c: i64)
        ensures
            c == self.data.count,
    {
        self.data.count
    }

    /// A value copy of the cached snapshot. Once returned it is immutable:
    /// later mutations of the meter never reach it.
    pub fn snapshot(&self) -> (s: MeterSnapshot)
        ensures
            s == self.data,
    {
        self.data
    }
}

/// The rate an engine holds right after a tick, per the decay recurrence.
pub open spec fn ticked_rate(e: EwmaEngine) -> int {
    if e.initialized {
        decayed_ppm(
            e.rate_ppm as int,
            instant_ppm(e.pending as int, e.tick_seconds as int),
            e.alpha_ppm as int,
        )
    } else {
        instant_ppm(e.pending as int, e.tick_seconds as int)
    }
}

impl Default for StdMeter {
    /// Same as `StdMeter::new`.
    fn default() -> (m: StdMeter)
        ensures
            m.wf(),
            m.data.count == 0,
            m.data.mean == 0,
            m.data.rates[0] == 0,
            m.data.rates[1] == 0,
            m.data.rates[2] == 0,
            !m.e1.initialized,
            !m.e5.initialized,
            !m.e15.initialized,
    {
        StdMeter::new()
    }
}

/// The running total over a sequence of mark arguments.
pub open spec fn sum_of(ns: Seq<int>) -> int
    decreases ns.len(),
{
    if ns.len() == 0 {
        0
    } else {
        sum_of(ns.drop_last()) + ns.last()
    }
}

/// The count a meter holds after absorbing the marks `ns` one call at a
/// time, starting from `start`: each `mark(n)` adds exactly `n`, per its
/// contract.
pub open spec fn count_after_marks(start: int, ns: Seq<int>) -> int
    decreases ns.len(),
{
    if ns.len() == 0 {
        start
    } else {
        count_after_marks(start, ns.drop_last()) + ns.last()
    }
}

/// Law: a sequence of `mark(n_1), ..., mark(n_k)` calls leaves the count at
/// its starting value plus the sum of the marks; from a fresh meter, whose
/// count is zero, the count is exactly the sum.
pub proof fn lemma_count_after_marks(start: int, ns: Seq<int>)
    ensures
        count_after_marks(start, ns) == start + sum_of(ns),
    decreases ns.len(),
{
    if ns.len() > 0 {
        lemma_count_after_marks(start, ns.drop_last());
    }
}

/// Law: marks are never negative, so the running total never shrinks and a
/// fresh meter's count stays non-negative.
pub proof fn lemma_sum_of_nonneg(ns: Seq<int>)
    requires
        forall|i: int| 0 <= i < ns.len() ==> 0 <= #[trigger] ns[i],
    ensures
        0 <= sum_of(ns),
    decreases ns.len(),
{
    if ns.len() > 0 {
        lemma_sum_of_nonneg(ns.drop_last());
    }
}

} // verus!
