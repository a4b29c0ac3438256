//! Simple moving average over a count-bounded window, maintained with a
//! running sum.

use vstd::prelude::*;
use crate::arith::{lemma_rdiv_bound, rdiv, rdiv_i128, INPUT_LIMIT, PERIOD_LIMIT};
use crate::errors::TaError;
use crate::fixed::Fixed;
use crate::window::{
    all_in_limit, lemma_sum_bound, lemma_sum_drop_first, mean_of, slide, sum_of, CountWindow,
};

verus! {

/// Mean of the most recent `period` observations; while the window is
/// still filling, the mean of what has arrived so far.
pub struct SimpleMovingAverage {
    window: CountWindow,
    sum: i128,
}

impl SimpleMovingAverage {
    /// The fixed window length chosen at construction.
    pub closed spec fn spec_period(self) -> int {
        self.window.spec_period()
    }

    /// The observations currently held, oldest first.
    pub closed spec fn spec_window(self) -> Seq<i128> {
        self.window.contents()
    }

    /// The window is bounded by the period, its elements are in range,
    /// and the running sum equals the sum of the window.
    pub closed spec fn wf(self) -> bool {
        &&& self.window.wf()
        &&& self.sum == sum_of(self.window.contents())
    }

    /// A well-formed engine never holds more observations than its period.
    pub proof fn lemma_window_bounded(self)
        requires
            self.wf(),
        ensures
            1 <= self.spec_period() <= PERIOD_LIMIT,
            self.spec_window().len() <= self.spec_period(),
            all_in_limit(self.spec_window(), INPUT_LIMIT as int),
    {
    }

    pub(crate) fn with_period(period: usize) -> (r: Self)
        requires
            1 <= period <= PERIOD_LIMIT,
        ensures
            r.wf(),
            r.spec_period() == period,
            r.spec_window() =~= Seq::<i128>::empty(),
    {
        SimpleMovingAverage { window: CountWindow::new(period), sum: 0 }
    }

    /// Fails with `InvalidParameter` exactly when `period` is zero.
    pub fn new(period: usize) -> (r: Result<Self, TaError>)
        requires
            period <= PERIOD_LIMIT,
        ensures
            r is Err <==> period == 0,
            r matches Err(e) ==> e == TaError::InvalidParameter,
            r matches Ok(s) ==> s.wf() && s.spec_period() == period && s.spec_window()
                =~= Seq::<i128>::empty(),
    {
        if period == 0 {
            Err(TaError::InvalidParameter)
        } else {
            Ok(Self::with_period(period))
        }
    }

    /// Slide the window over `value` and return the mean of the current
    /// contents, rounded to the nearest millionth.
    pub fn next(&mut self, value: Fixed) -> (r: Fixed)
        requires
            old(self).wf(),
            value.in_range(),
        ensures
            final(self).wf(),
            final(self).spec_period() == old(self).spec_period(),
            final(self).spec_window() =~= slide(
                old(self).spec_window(),
                old(self).spec_period(),
                value.micros() as i128,
            ),
            1 <= final(self).spec_window().len() <= final(self).spec_period(),
            r.micros() == mean_of(final(self).spec_window()),
            r.in_range(),
    {
        proof {
            if old(self).spec_window().len() >= 1 {
                lemma_sum_drop_first(old(self).spec_window());
            }
            lemma_sum_bound(old(self).spec_window(), INPUT_LIMIT as int);
            let len0 = old(self).spec_window().len() as int;
            assert(len0 * INPUT_LIMIT <= 1_000_000 * INPUT_LIMIT) by (nonlinear_arith)
                requires
                    0 <= len0 <= 1_000_000,
            {
            }
        }
        let v = value.to_micros();
        let evicted = self.window.insert(v);
        proof {
            let w = self.window.contents();
            assert(w.drop_last() =~= if old(self).spec_window().len()
                == old(self).spec_period() {
                old(self).spec_window().subrange(1, old(self).spec_window().len() as int)
            } else {
                old(self).spec_window()
            });
            assert(sum_of(w) == sum_of(w.drop_last()) + w.last());
        }
        match evicted {
            Some(e) => {
                self.sum = self.sum - e + v;
            },
            None => {
                self.sum = self.sum + v;
            },
        }
        let n = self.window.len();
        proof {
            lemma_sum_bound(self.window.contents(), INPUT_LIMIT as int);
            assert(n as int * INPUT_LIMIT <= 1_000_000 * INPUT_LIMIT) by (nonlinear_arith)
                requires
                    0 <= n as int <= 1_000_000,
            {
            }
            lemma_rdiv_bound(self.sum as int, n as int, INPUT_LIMIT as int);
        }
        Fixed::from_micros(rdiv_i128(self.sum, n as i128))
    }

    /// Restore the state a fresh instance with the same period has: an
    /// empty window and a zero running sum. Replaying any input sequence
    /// afterwards therefore reproduces the outputs of a fresh instance.
    pub fn reset(&mut self)
        requires
            old(self).wf(),
        ensures
            final(self).wf(),
            final(self).spec_period() == old(self).spec_period(),
            final(self).spec_window() =~= Seq::<i128>::empty(),
    {
        self.window.clear();
        self.sum = 0;
    }
}

impl Default for SimpleMovingAverage {
    /// The common nine-observation preset.
    fn default() -> (r: Self)
        ensures
            r.wf(),
            r.spec_period() == 9,
            r.spec_window() =~= Seq::<i128>::empty(),
    {
        Self::with_period(9)
    }
}

} // verus!
