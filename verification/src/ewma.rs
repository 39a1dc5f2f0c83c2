//! Exponentially-weighted moving-average engine for one fixed time window,
//! advanced on a fixed tick cadence.
//!
//! Rates are fixed-point integers in parts-per-million (see [`crate::SCALE`]):
//! a stored value of 1_000_000 means one event per second.

use vstd::prelude::*;
use crate::SCALE;

verus! {

/// Largest rate value (in parts-per-million) an engine can hold: a full
/// pending counter divided by a one-second tick interval.
pub const RATE_PPM_MAX: u128 = 18_446_744_073_709_551_615 * 1_000_000;

/// One decaying average over one window. `alpha_ppm` is the smoothing
/// constant in parts-per-million, fixed at construction; `rate_ppm` is the
/// decayed estimate of events per second, scaled by `SCALE`; `pending`
/// accumulates events seen since the last tick.
#[derive(Clone, Copy, Debug)]
pub struct EwmaEngine {
    pub alpha_ppm: u64,
    pub tick_seconds: u64,
    pub rate_ppm: u128,
    pub pending: u64,
    pub initialized: bool,
}

/// The instantaneous rate a tick observes: pending events per second,
/// scaled to parts-per-million.
pub open spec fn instant_ppm(pending: int, tick_seconds: int) -> int
    recommends
        1 <= tick_seconds,
{
    pending * (SCALE as int) / tick_seconds
}

/// One decay step: move the current rate toward the instantaneous rate by
/// the fraction `alpha / SCALE`, in fixed-point arithmetic.
pub open spec fn decayed_ppm(rate: int, instant: int, alpha: int) -> int {
    if instant >= rate {
        rate + alpha * (instant - rate) / (SCALE as int)
    } else {
        rate - alpha * (rate - instant) / (SCALE as int)
    }
}

proof fn lemma_mul_div_le(a: int, d: int, s: int)
    requires
        0 <= a <= s,
        0 <= d,
        1 <= s,
    ensures
        0 <= a * d / s <= d,
{
    assert(0 <= a * d / s <= d) by (nonlinear_arith)
        requires
            0 <= a <= s,
            0 <= d,
            1 <= s,
    ;
}

impl EwmaEngine {
    /// Basic well-formedness: the smoothing constant is a fraction of one,
    /// the cadence is at least a second, and the rate is in range.
    pub open spec fn wf(self) -> bool {
        &&& self.alpha_ppm <= SCALE
        &&& 1 <= self.tick_seconds
        &&& self.rate_ppm <= RATE_PPM_MAX
    }

    /// A fresh engine: nothing pending, no rate until the first tick.
    pub fn new(alpha_ppm: u64, tick_seconds: u64) -> (e: EwmaEngine)
        requires
            alpha_ppm <= SCALE,
            1 <= tick_seconds,
        ensures
            e.wf(),
            e.alpha_ppm == alpha_ppm,
            e.tick_seconds == tick_seconds,
            e.rate_ppm == 0,
            e.pending == 0,
            !e.initialized,
    {
        EwmaEngine { alpha_ppm, tick_seconds, rate_ppm: 0, pending: 0, initialized: false }
    }

    /// Record `n` events since the last tick. Purely accumulates; never
    /// touches the decayed rate.
    pub fn update(&mut self, n: u64)
        requires
            old(self).pending + n <= u64::MAX,
        ensures
            final(self).pending == old(self).pending + n,
            final(self).alpha_ppm == old(self).alpha_ppm,
            final(self).tick_seconds == old(self).tick_seconds,
            final(self).rate_ppm == old(self).rate_ppm,
            final(self).initialized == old(self).initialized,
    {
        self.pending = self.pending + n;
    }

    /// Advance one tick: fold the pending events into the decayed rate and
    /// reset the pending counter. The first tick bootstraps the rate with
    /// the instantaneous value instead of decaying from zero.
    pub fn tick(&mut self)
        requires
            old(self).wf(),
        ensures
            final(self).wf(),
            final(self).pending == 0,
            final(self).initialized,
            final(self).alpha_ppm == old(self).alpha_ppm,
            final(self).tick_seconds == old(self).tick_seconds,
            final(self).rate_ppm == if old(self).initialized {
                decayed_ppm(
                    old(self).rate_ppm as int,
                    instant_ppm(old(self).pending as int, old(self).tick_seconds as int),
                    old(self).alpha_ppm as int,
                )
            } else {
                instant_ppm(old(self).pending as int, old(self).tick_seconds as int)
            },
    {
        let instant: u128 = (self.pending as u128) * (SCALE as u128) / (self.tick_seconds as u128);
        assert(instant <= RATE_PPM_MAX) by {
            let p = self.pending as int;
            let t = self.tick_seconds as int;
            assert(p * (SCALE as int) <= RATE_PPM_MAX);
            assert(p * (SCALE as int) / t <= p * (SCALE as int)) by (nonlinear_arith)
                requires
                    1 <= t,
                    0 <= p,
            ;
        }
        if !self.initialized {
            self.rate_ppm = instant;
            self.initialized = true;
        } else if instant >= self.rate_ppm {
            let diff: u128 = instant - self.rate_ppm;
            proof {
                lemma_mul_div_le(self.alpha_ppm as int, diff as int, SCALE as int);
                assert((self.alpha_ppm as int) * (diff as int) <= (SCALE as int) * (diff as int))
                    by (nonlinear_arith)
                    requires
                        self.alpha_ppm <= SCALE,
                        0 <= diff,
                ;
            }
            self.rate_ppm = self.rate_ppm + (self.alpha_ppm as u128) * diff / (SCALE as u128);
        } else {
            let diff: u128 = self.rate_ppm - instant;
            proof {
                lemma_mul_div_le(self.alpha_ppm as int, diff as int, SCALE as int);
                assert((self.alpha_ppm as int) * (diff as int) <= (SCALE as int) * (diff as int))
                    by (nonlinear_arith)
                    requires
                        self.alpha_ppm <= SCALE,
                        0 <= diff,
                ;
            }
            self.rate_ppm = self.rate_ppm - (self.alpha_ppm as u128) * diff / (SCALE as u128);
        }
        self.pending = 0;
    }

    /// The decayed rate scaled to a per-minute figure, still in
    /// parts-per-million.
    pub fn rate_per_minute(&self) -> (r: u128)
        requires
            self.wf(),
        ensures
            r == self.rate_ppm * 60,
    {
        self.rate_ppm * 60
    }
}

/// Law: a tick that observes no pending events decays the rate toward zero
/// geometrically. The new rate is the old rate scaled by
/// `(SCALE - alpha) / SCALE`, rounded up to the fixed-point grid: it is the
/// unique value `d` with `(SCALE - alpha) * rate <= d * SCALE` and
/// `d * SCALE < (SCALE - alpha) * rate + SCALE`.
pub proof fn lemma_decay_geometric(rate: int, alpha: int)
    requires
        0 <= rate,
        0 <= alpha <= SCALE,
    ensures
        decayed_ppm(rate, 0, alpha) == rate - alpha * rate / (SCALE as int),
        ((SCALE - alpha) as int) * rate <= decayed_ppm(rate, 0, alpha) * (SCALE as int),
        decayed_ppm(rate, 0, alpha) * (SCALE as int) < ((SCALE - alpha) as int) * rate + SCALE,
        0 <= decayed_ppm(rate, 0, alpha) <= rate,
{
    let s = SCALE as int;
    if rate == 0 {
        assert(decayed_ppm(0, 0, alpha) == 0);
    } else {
        assert(decayed_ppm(rate, 0, alpha) == rate - alpha * rate / s);
    }
    lemma_mul_div_le(alpha, rate, s);
    let q = alpha * rate / s;
    let d = rate - q;
    assert((s - alpha) * rate <= d * s < (s - alpha) * rate + s) by (nonlinear_arith)
        requires
            0 <= rate,
            0 <= alpha <= s,
            1 <= s,
            q == alpha * rate / s,
            d == rate - q,
    ;
}

} // verus!
