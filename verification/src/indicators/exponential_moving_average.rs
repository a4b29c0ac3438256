//! Exponentially weighted moving average: a single running value, no
//! window buffer.

use vstd::prelude::*;
use crate::arith::{lemma_rdiv_bound, lemma_rdiv_nonneg, rdiv, rdiv_i128, INPUT_LIMIT,
    PERIOD_LIMIT};
use crate::errors::TaError;
use crate::fixed::Fixed;

verus! {

/// Largest magnitude the smoothing engine accepts and maintains; twice
/// the common input limit, so a difference of two in-range values (a
/// gain or a loss) is still an acceptable input.
pub const SMOOTH_LIMIT: i128 = 2_000_000_000_000_000;

/// One smoothing step with `alpha = 2 / (period + 1)`: the exact convex
/// combination `alpha * x + (1 - alpha) * prev`, rounded to the nearest
/// millionth.
pub open spec fn ema_step(prev: int, x: int, period: int) -> int
    recommends
        period >= 1,
{
    rdiv(2 * x + (period - 1) * prev, period + 1)
}

/// What one update returns (and stores): the input itself on the first,
/// seeding update, and a smoothing step afterwards.
pub open spec fn ema_next_value(e: ExponentialMovingAverage, x: int) -> int
    recommends
        e.wf(),
{
    if e.is_seeded() {
        ema_step(e.spec_current(), x, e.spec_period())
    } else {
        x
    }
}

/// Exponentially weighted moving average with smoothing constant
/// `2 / (period + 1)`; the first update seeds the running value with
/// the input itself.
pub struct ExponentialMovingAverage {
    period: usize,
    current: i128,
    seeded: bool,
}

impl ExponentialMovingAverage {
    /// The fixed smoothing period chosen at construction.
    pub closed spec fn spec_period(self) -> int {
        self.period as int
    }

    /// The running value; meaningful only once seeded.
    pub closed spec fn spec_current(self) -> int {
        self.current as int
    }

    /// Whether a first update has seeded the running value.
    pub closed spec fn is_seeded(self) -> bool {
        self.seeded
    }

    pub closed spec fn wf(self) -> bool {
        &&& 1 <= self.spec_period() <= PERIOD_LIMIT
        &&& -SMOOTH_LIMIT <= self.spec_current() <= SMOOTH_LIMIT
        &&& (!self.seeded ==> self.current == 0)
    }

    pub(crate) fn with_period(period: usize) -> (r: Self)
        requires
            1 <= period <= PERIOD_LIMIT,
        ensures
            r.wf(),
            r.spec_period() == period,
            !r.is_seeded(),
            r.spec_current() == 0,
    {
        ExponentialMovingAverage { period, current: 0, seeded: false }
    }

    /// Fails with `InvalidParameter` exactly when `period` is zero.
    pub fn new(period: usize) -> (r: Result<Self, TaError>)
        requires
            period <= PERIOD_LIMIT,
        ensures
            r is Err <==> period == 0,
            r matches Err(e) ==> e == TaError::InvalidParameter,
            r matches Ok(s) ==> s.wf() && s.spec_period() == period && !s.is_seeded()
                && s.spec_current() == 0,
    {
        if period == 0 {
            Err(TaError::InvalidParameter)
        } else {
            Ok(Self::with_period(period))
        }
    }

    /// One smoothing update: seed with the input on the first call,
    /// otherwise move the running value toward the input by the
    /// smoothing constant. The result never exceeds the magnitudes of
    /// the input and the previous running value, and stays non-negative
    /// when both are.
    pub fn next(&mut self, value: Fixed) -> (r: Fixed)
        requires
            old(self).wf(),
            -SMOOTH_LIMIT <= value.micros() <= SMOOTH_LIMIT,
        ensures
            final(self).wf(),
            final(self).spec_period() == old(self).spec_period(),
            final(self).is_seeded(),
            r.micros() == ema_next_value(*old(self), value.micros()),
            final(self).spec_current() == r.micros(),
            -SMOOTH_LIMIT <= r.micros() <= SMOOTH_LIMIT,
            value.micros() >= 0 && old(self).spec_current() >= 0 ==> r.micros() >= 0,
    {
        if self.seeded {
            let x = value.to_micros();
            proof {
                let p = self.spec_period();
                let s = self.spec_current();
                let xi = value.micros();
                assert(-((p + 1) * SMOOTH_LIMIT) <= 2 * xi + (p - 1) * s <= (p + 1)
                    * SMOOTH_LIMIT) by (nonlinear_arith)
                    requires
                        1 <= p,
                        -SMOOTH_LIMIT <= s <= SMOOTH_LIMIT,
                        -SMOOTH_LIMIT <= xi <= SMOOTH_LIMIT,
                {
                }
                assert((p + 1) * SMOOTH_LIMIT <= 1_000_001 * SMOOTH_LIMIT) by (nonlinear_arith)
                    requires
                        1 <= p <= 1_000_000,
                {
                }
                lemma_rdiv_bound(2 * xi + (p - 1) * s, p + 1, SMOOTH_LIMIT as int);
                if xi >= 0 && s >= 0 {
                    assert(2 * xi + (p - 1) * s >= 0) by (nonlinear_arith)
                        requires
                            1 <= p,
                            xi >= 0,
                            s >= 0,
                    {
                    }
                    lemma_rdiv_nonneg(2 * xi + (p - 1) * s, p + 1);
                }
            }
            let numerator = 2 * x + (self.period as i128 - 1) * self.current;
            self.current = rdiv_i128(numerator, self.period as i128 + 1);
        } else {
            self.current = value.to_micros();
            self.seeded = true;
        }
        Fixed::from_micros(self.current)
    }

    /// Restore the state a fresh instance with the same period has: the
    /// seeded flag cleared, so the next update reseeds.
    pub fn reset(&mut self)
        requires
            old(self).wf(),
        ensures
            final(self).wf(),
            final(self).spec_period() == old(self).spec_period(),
            !final(self).is_seeded(),
            final(self).spec_current() == 0,
    {
        self.current = 0;
        self.seeded = false;
    }
}

impl Default for ExponentialMovingAverage {
    /// The common nine-observation preset.
    fn default() -> (r: Self)
        ensures
            r.wf(),
            r.spec_period() == 9,
            !r.is_seeded(),
            r.spec_current() == 0,
    {
        Self::with_period(9)
    }
}

} // verus!
