//! Population standard deviation over a count-bounded window, maintained
//! with running sums of values and of squares.

use vstd::prelude::*;
use crate::arith::{
    isqrt_i128, lemma_rdiv_bound, lemma_rdiv_le, lemma_rdiv_nonneg, lemma_sqrt_floor_unique, rdiv,
    rdiv_i128, sqrt_floor, INPUT_LIMIT, PERIOD_LIMIT,
};
use crate::errors::TaError;
use crate::fixed::Fixed;
use crate::window::{
    all_in_limit, lemma_sum_bound, lemma_sum_drop_first, lemma_sum_sq_bound,
    lemma_sum_sq_drop_first, slide, sum_of, sum_sq_of, CountWindow,
};

verus! {

/// Population variance of a non-empty window, in squared millionths: the
/// rounded mean of squares minus the square of the rounded mean, clamped
/// to zero so that rounding can never drive it negative.
pub open spec fn variance_of(s: Seq<i128>) -> int
    recommends
        s.len() > 0,
{
    let n = s.len() as int;
    let mean = rdiv(sum_of(s), n);
    let mean_sq = rdiv(sum_sq_of(s), n);
    if mean_sq - mean * mean >= 0 {
        mean_sq - mean * mean
    } else {
        0
    }
}

/// Population standard deviation of the most recent `period`
/// observations.
pub struct StandardDeviation {
    window: CountWindow,
    sum: i128,
    sum_sq: i128,
}

impl StandardDeviation {
    /// The fixed window length chosen at construction.
    pub closed spec fn spec_period(self) -> int {
        self.window.spec_period()
    }

    /// The observations currently held, oldest first.
    pub closed spec fn spec_window(self) -> Seq<i128> {
        self.window.contents()
    }

    /// The window is bounded and in range, and the running aggregates
    /// equal the sum and the sum of squares of the window.
    pub closed spec fn wf(self) -> bool {
        &&& self.window.wf()
        &&& self.sum == sum_of(self.window.contents())
        &&& self.sum_sq == sum_sq_of(self.window.contents())
    }

    pub(crate) fn with_period(period: usize) -> (r: Self)
        requires
            1 <= period <= PERIOD_LIMIT,
        ensures
            r.wf(),
            r.spec_period() == period,
            r.spec_window() =~= Seq::<i128>::empty(),
    {
        StandardDeviation { window: CountWindow::new(period), sum: 0, sum_sq: 0 }
    }

    /// Fails with `InvalidParameter` exactly when `period` is zero.
    pub fn new(period: usize) -> (r: Result<Self, TaError>)
        requires
            period <= PERIOD_LIMIT,
        ensures
            r is Err <==> period == 0,
            r matches Err(e) ==> e == TaError::InvalidParameter,
            r matches Ok(s) ==> s.wf() && s.spec_period() == period && s.spec_window()
                =~= Seq::<i128>::empty(),
    {
        if period == 0 {
            Err(TaError::InvalidParameter)
        } else {
            Ok(Self::with_period(period))
        }
    }

    /// Slide the window over `value` and return the population standard
    /// deviation of the current contents: the integer square root of the
    /// clamped variance. The output is never negative.
    pub fn next(&mut self, value: Fixed) -> (r: Fixed)
        requires
            old(self).wf(),
            value.in_range(),
        ensures
            final(self).wf(),
            final(self).spec_period() == old(self).spec_period(),
            final(self).spec_window() =~= slide(
                old(self).spec_window(),
                old(self).spec_period(),
                value.micros() as i128,
            ),
            1 <= final(self).spec_window().len() <= final(self).spec_period(),
            r.micros() == sqrt_floor(variance_of(final(self).spec_window())),
            0 <= r.micros() <= INPUT_LIMIT,
    {
        proof {
            if old(self).spec_window().len() >= 1 {
                lemma_sum_drop_first(old(self).spec_window());
                lemma_sum_sq_drop_first(old(self).spec_window());
            }
            lemma_sum_bound(old(self).spec_window(), INPUT_LIMIT as int);
            lemma_sum_sq_bound(old(self).spec_window(), INPUT_LIMIT as int);
            let len0 = old(self).spec_window().len() as int;
            assert(len0 * INPUT_LIMIT <= 1_000_000 * INPUT_LIMIT && len0 * (INPUT_LIMIT
                * INPUT_LIMIT) <= 1_000_000 * (INPUT_LIMIT * INPUT_LIMIT)) by (nonlinear_arith)
                requires
                    0 <= len0 <= 1_000_000,
            {
            }
        }
        let v = value.to_micros();
        let evicted = self.window.insert(v);
        proof {
            let w = self.window.contents();
            assert(w.drop_last() =~= if old(self).spec_window().len()
                == old(self).spec_period() {
                old(self).spec_window().subrange(1, old(self).spec_window().len() as int)
            } else {
                old(self).spec_window()
            });
            assert(sum_of(w) == sum_of(w.drop_last()) + w.last());
            assert(sum_sq_of(w) == sum_sq_of(w.drop_last()) + w.last() * w.last());
            assert(-(INPUT_LIMIT * INPUT_LIMIT) <= v * v <= INPUT_LIMIT * INPUT_LIMIT)
                by (nonlinear_arith)
                requires
                    -INPUT_LIMIT <= v <= INPUT_LIMIT,
            {
            }
        }
        match evicted {
            Some(e) => {
                proof {
                    assert(-(INPUT_LIMIT * INPUT_LIMIT) <= e * e <= INPUT_LIMIT * INPUT_LIMIT)
                        by (nonlinear_arith)
                        requires
                            -INPUT_LIMIT <= e <= INPUT_LIMIT,
                    {
                    }
                }
                self.sum = self.sum - e + v;
                self.sum_sq = self.sum_sq - e * e + v * v;
            },
            None => {
                self.sum = self.sum + v;
                self.sum_sq = self.sum_sq + v * v;
            },
        }
        let n = self.window.len();
        proof {
            lemma_sum_bound(self.window.contents(), INPUT_LIMIT as int);
            lemma_sum_sq_bound(self.window.contents(), INPUT_LIMIT as int);
            let len1 = self.window.contents().len() as int;
            assert(len1 * INPUT_LIMIT <= 1_000_000 * INPUT_LIMIT && len1 * (INPUT_LIMIT
                * INPUT_LIMIT) <= 1_000_000 * (INPUT_LIMIT * INPUT_LIMIT)) by (nonlinear_arith)
                requires
                    0 <= len1 <= 1_000_000,
            {
            }
            lemma_rdiv_bound(self.sum as int, n as int, INPUT_LIMIT as int);
            lemma_rdiv_le(self.sum_sq as int, n as int, INPUT_LIMIT * INPUT_LIMIT);
        }
        let mean = rdiv_i128(self.sum, n as i128);
        let mean_sq = rdiv_i128(self.sum_sq, n as i128);
        proof {
            assert(0 <= mean * mean <= INPUT_LIMIT * INPUT_LIMIT) by (nonlinear_arith)
                requires
                    -INPUT_LIMIT <= mean <= INPUT_LIMIT,
            {
            }
        }
        let raw = mean_sq - mean * mean;
        let variance = if raw >= 0 {
            raw
        } else {
            0
        };
        let root = isqrt_i128(variance);
        proof {
            lemma_sqrt_floor_unique(variance as int, root as int);
            assert(root <= INPUT_LIMIT) by (nonlinear_arith)
                requires
                    0 <= root,
                    root * root <= INPUT_LIMIT * INPUT_LIMIT,
            {
            }
        }
        Fixed::from_micros(root)
    }

    /// Restore the state a fresh instance with the same period has: an
    /// empty window and zeroed aggregates.
    pub fn reset(&mut self)
        requires
            old(self).wf(),
        ensures
            final(self).wf(),
            final(self).spec_period() == old(self).spec_period(),
            final(self).spec_window() =~= Seq::<i128>::empty(),
    {
        self.window.clear();
        self.sum = 0;
        self.sum_sq = 0;
    }
}

impl Default for StandardDeviation {
    /// The common nine-observation preset.
    fn default() -> (r: Self)
        ensures
            r.wf(),
            r.spec_period() == 9,
            r.spec_window() =~= Seq::<i128>::empty(),
    {
        Self::with_period(9)
    }
}

} // verus!
