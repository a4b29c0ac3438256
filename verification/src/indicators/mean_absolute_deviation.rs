//! Mean absolute deviation over a count-bounded window: one full pass
//! per update, since the mean moves with every insertion and eviction.

use vstd::prelude::*;
use crate::arith::{lemma_rdiv_bound, rdiv, rdiv_i128, INPUT_LIMIT, PERIOD_LIMIT};
use crate::errors::TaError;
use crate::fixed::Fixed;
use crate::window::{
    abs_dev_sum_of, lemma_sum_bound, lemma_sum_drop_first, mean_of, slide, sum_of,
    CountWindow,
};

verus! {

/// Mean absolute deviation of the most recent `period` observations
/// from their rounded mean.
pub struct MeanAbsoluteDeviation {
    window: CountWindow,
    sum: i128,
}

impl MeanAbsoluteDeviation {
    /// The fixed window length chosen at construction.
    pub closed spec fn spec_period(self) -> int {
        self.window.spec_period()
    }

    /// The observations currently held, oldest first.
    pub closed spec fn spec_window(self) -> Seq<i128> {
        self.window.contents()
    }

    pub closed spec fn wf(self) -> bool {
        &&& self.window.wf()
        &&& self.sum == sum_of(self.window.contents())
    }

    pub(crate) fn with_period(period: usize) -> (r: Self)
        requires
            1 <= period <= PERIOD_LIMIT,
        ensures
            r.wf(),
            r.spec_period() == period,
            r.spec_window() =~= Seq::<i128>::empty(),
    {
        MeanAbsoluteDeviation { window: CountWindow::new(period), sum: 0 }
    }

    /// Fails with `InvalidParameter` exactly when `period` is zero.
    pub fn new(period: usize) -> (r: Result<Self, TaError>)
        requires
            period <= PERIOD_LIMIT,
        ensures
            r is Err <==> period == 0,
            r matches Err(e) ==> e == TaError::InvalidParameter,
            r matches Ok(s) ==> s.wf() && s.spec_period() == period && s.spec_window()
                =~= Seq::<i128>::empty(),
    {
        if period == 0 {
            Err(TaError::InvalidParameter)
        } else {
            Ok(Self::with_period(period))
        }
    }

    /// Slide the window over `value` and return the mean of the absolute
    /// deviations of the current contents from their rounded mean.
    pub fn next(&mut self, value: Fixed) -> (r: Fixed)
        requires
            old(self).wf(),
            value.in_range(),
        ensures
            final(self).wf(),
            final(self).spec_period() == old(self).spec_period(),
            final(self).spec_window() =~= slide(
                old(self).spec_window(),
                old(self).spec_period(),
                value.micros() as i128,
            ),
            1 <= final(self).spec_window().len() <= final(self).spec_period(),
            r.micros() == rdiv(
                abs_dev_sum_of(final(self).spec_window(), mean_of(final(self).spec_window())),
                final(self).spec_window().len() as int,
            ),
            r.micros() >= 0,
    {
        proof {
            if old(self).spec_window().len() >= 1 {
                lemma_sum_drop_first(old(self).spec_window());
            }
            lemma_sum_bound(old(self).spec_window(), INPUT_LIMIT as int);
            let len0 = old(self).spec_window().len() as int;
            assert(len0 * INPUT_LIMIT <= 1_000_000 * INPUT_LIMIT) by (nonlinear_arith)
                requires
                    0 <= len0 <= 1_000_000,
            {
            }
        }
        let v = value.to_micros();
        let evicted = self.window.insert(v);
        proof {
            let w = self.window.contents();
            assert(w.drop_last() =~= if old(self).spec_window().len()
                == old(self).spec_period() {
                old(self).spec_window().subrange(1, old(self).spec_window().len() as int)
            } else {
                old(self).spec_window()
            });
            assert(sum_of(w) == sum_of(w.drop_last()) + w.last());
        }
        match evicted {
            Some(e) => {
                self.sum = self.sum - e + v;
            },
            None => {
                self.sum = self.sum + v;
            },
        }
        let ghost w = self.window.contents();
        let n = self.window.len();
        proof {
            lemma_sum_bound(w, INPUT_LIMIT as int);
            let len1 = w.len() as int;
            assert(len1 * INPUT_LIMIT <= 1_000_000 * INPUT_LIMIT) by (nonlinear_arith)
                requires
                    0 <= len1 <= 1_000_000,
            {
            }
            lemma_rdiv_bound(self.sum as int, n as int, INPUT_LIMIT as int);
        }
        let mean = rdiv_i128(self.sum, n as i128);
        let mut acc: i128 = 0;
        let mut i: usize = 0;
        proof {
            assert(w.subrange(0, 0) =~= Seq::<i128>::empty());
        }
        while i < n
            invariant
                0 <= i <= n,
                n == self.window.contents().len(),
                w == self.window.contents(),
                self.window.wf(),
                -INPUT_LIMIT <= mean <= INPUT_LIMIT,
                acc == abs_dev_sum_of(w.subrange(0, i as int), mean as int),
                0 <= acc <= i * (2 * INPUT_LIMIT),
            decreases n - i,
        {
            let c = self.window.get(i);
            proof {
                let pre = w.subrange(0, i as int);
                let ext = w.subrange(0, i + 1);
                assert(ext.drop_last() =~= pre);
                assert(ext.last() == w[i as int]);
                let leni = i as int;
                assert((leni + 1) * (2 * INPUT_LIMIT) == leni * (2 * INPUT_LIMIT) + 2
                    * INPUT_LIMIT) by (nonlinear_arith)
                    requires
                        0 <= leni,
                {
                }
                assert(leni * (2 * INPUT_LIMIT) <= 1_000_000 * (2 * INPUT_LIMIT))
                    by (nonlinear_arith)
                    requires
                        0 <= leni <= 1_000_000,
                {
                }
            }
            let dev = if c >= mean {
                c - mean
            } else {
                mean - c
            };
            acc = acc + dev;
            i += 1;
        }
        proof {
            assert(w.subrange(0, n as int) =~= w);
            assert(n as int * (2 * INPUT_LIMIT) <= 1_000_000 * (2 * INPUT_LIMIT))
                by (nonlinear_arith)
                requires
                    0 <= n as int <= 1_000_000,
            {
            }
            lemma_rdiv_bound(acc as int, n as int, 2 * INPUT_LIMIT);
            crate::arith::lemma_rdiv_nonneg(acc as int, n as int);
        }
        Fixed::from_micros(rdiv_i128(acc, n as i128))
    }

    /// Restore the state a fresh instance with the same period has.
    pub fn reset(&mut self)
        requires
            old(self).wf(),
        ensures
            final(self).wf(),
            final(self).spec_period() == old(self).spec_period(),
            final(self).spec_window() =~= Seq::<i128>::empty(),
    {
        self.window.clear();
        self.sum = 0;
    }
}

impl Default for MeanAbsoluteDeviation {
    /// The common nine-observation preset.
    fn default() -> (r: Self)
        ensures
            r.wf(),
            r.spec_period() == 9,
            r.spec_window() =~= Seq::<i128>::empty(),
    {
        Self::with_period(9)
    }
}

} // verus!
