//! Least value in a count-bounded window, recomputed by a window scan
//! because an eviction can remove the current extreme.

use vstd::prelude::*;
use crate::arith::{INPUT_LIMIT, PERIOD_LIMIT};
use crate::errors::TaError;
use crate::fixed::Fixed;
use crate::window::{lemma_min_is_extreme, min_of, slide, CountWindow};

verus! {

/// Minimum of the most recent `period` observations.
pub struct Minimum {
    window: CountWindow,
}

impl Minimum {
    /// The fixed window length chosen at construction.
    pub closed spec fn spec_period(self) -> int {
        self.window.spec_period()
    }

    /// The observations currently held, oldest first.
    pub closed spec fn spec_window(self) -> Seq<i128> {
        self.window.contents()
    }

    pub closed spec fn wf(self) -> bool {
        self.window.wf()
    }

    pub(crate) fn with_period(period: usize) -> (r: Self)
        requires
            1 <= period <= PERIOD_LIMIT,
        ensures
            r.wf(),
            r.spec_period() == period,
            r.spec_window() =~= Seq::<i128>::empty(),
    {
        Minimum { window: CountWindow::new(period) }
    }

    /// Fails with `InvalidParameter` exactly when `period` is zero.
    pub fn new(period: usize) -> (r: Result<Self, TaError>)
        requires
            period <= PERIOD_LIMIT,
        ensures
            r is Err <==> period == 0,
            r matches Err(e) ==> e == TaError::InvalidParameter,
            r matches Ok(s) ==> s.wf() && s.spec_period() == period && s.spec_window()
                =~= Seq::<i128>::empty(),
    {
        if period == 0 {
            Err(TaError::InvalidParameter)
        } else {
            Ok(Self::with_period(period))
        }
    }

    /// Slide the window over `value` and return the true minimum of the
    /// current contents, found by scanning the window.
    pub fn next(&mut self, value: Fixed) -> (r: Fixed)
        requires
            old(self).wf(),
            value.in_range(),
        ensures
            final(self).wf(),
            final(self).spec_period() == old(self).spec_period(),
            final(self).spec_window() =~= slide(
                old(self).spec_window(),
                old(self).spec_period(),
                value.micros() as i128,
            ),
            1 <= final(self).spec_window().len() <= final(self).spec_period(),
            r.micros() == min_of(final(self).spec_window()),
            forall|i: int| 0 <= i < final(self).spec_window().len()
                ==> r.micros() <= #[trigger] final(self).spec_window()[i],
            exists|i: int| 0 <= i < final(self).spec_window().len()
                && r.micros() == #[trigger] final(self).spec_window()[i],
            r.in_range(),
    {
        let _ = self.window.insert(value.to_micros());
        let ghost w = self.window.contents();
        let n = self.window.len();
        let mut best: i128 = self.window.get(0);
        proof {
            assert(best == min_of(w.subrange(0, 1)));
        }
        let mut i: usize = 1;
        while i < n
            invariant
                1 <= i <= n,
                n == self.window.contents().len(),
                w == self.window.contents(),
                self.window.wf(),
                best == min_of(w.subrange(0, i as int)),
            decreases n - i,
        {
            let c = self.window.get(i);
            proof {
                let pre = w.subrange(0, i as int);
                let ext = w.subrange(0, i + 1);
                assert(ext.drop_last() =~= pre);
                assert(ext.last() == w[i as int]);
            }
            if c < best {
                best = c;
            }
            i += 1;
        }
        proof {
            assert(w.subrange(0, n as int) =~= w);
            lemma_min_is_extreme(w);
        }
        Fixed::from_micros(best)
    }

    /// Restore the state a fresh instance with the same period has.
    pub fn reset(&mut self)
        requires
            old(self).wf(),
        ensures
            final(self).wf(),
            final(self).spec_period() == old(self).spec_period(),
            final(self).spec_window() =~= Seq::<i128>::empty(),
    {
        self.window.clear();
    }
}

impl Default for Minimum {
    /// The common fourteen-observation preset.
    fn default() -> (r: Self)
        ensures
            r.wf(),
            r.spec_period() == 14,
            r.spec_window() =~= Seq::<i128>::empty(),
    {
        Self::with_period(14)
    }
}

} // verus!
