//! Percentage change of the current value against the value `period`
//! steps back, or against the oldest sample available while the window
//! is still filling.

use vstd::prelude::*;
use crate::arith::{rdiv_signed, rdiv_signed_i128, PERIOD_LIMIT, SCALE};
use crate::errors::TaError;
use crate::fixed::Fixed;
use crate::window::{slide, CountWindow};

verus! {

/// The rate-of-change output: zero when the reference value is zero
/// (there is no meaningful percentage against a zero base), otherwise
/// `100 * (current - reference) / reference`, rounded to the nearest
/// millionth.
pub open spec fn roc_output(reference: int, current: int) -> int {
    if reference == 0 {
        0
    } else {
        rdiv_signed(100 * (SCALE as int) * (current - reference), reference)
    }
}

/// Rate of change against the observation `period` steps back. The
/// window holds up to `period + 1` samples so that the reference is the
/// value from `period` steps ago once the window has filled; until then
/// the reference is the oldest sample available, and on the very first
/// update (when the oldest sample is the current one) the output is
/// zero.
pub struct RateOfChange {
    period: usize,
    window: CountWindow,
}

impl RateOfChange {
    /// The fixed look-back distance chosen at construction.
    pub closed spec fn spec_period(self) -> int {
        self.period as int
    }

    /// The observations currently held, oldest first.
    pub closed spec fn spec_window(self) -> Seq<i128> {
        self.window.contents()
    }

    pub closed spec fn wf(self) -> bool {
        &&& self.window.wf()
        &&& self.window.spec_period() == self.spec_period() + 1
        &&& 1 <= self.spec_period()
    }

    pub(crate) fn with_period(period: usize) -> (r: Self)
        requires
            1 <= period < PERIOD_LIMIT,
        ensures
            r.wf(),
            r.spec_period() == period,
            r.spec_window() =~= Seq::<i128>::empty(),
    {
        RateOfChange { period, window: CountWindow::new(period + 1) }
    }

    /// Fails with `InvalidParameter` exactly when `period` is zero.
    pub fn new(period: usize) -> (r: Result<Self, TaError>)
        requires
            period < PERIOD_LIMIT,
        ensures
            r is Err <==> period == 0,
            r matches Err(e) ==> e == TaError::InvalidParameter,
            r matches Ok(s) ==> s.wf() && s.spec_period() == period && s.spec_window()
                =~= Seq::<i128>::empty(),
    {
        if period == 0 {
            Err(TaError::InvalidParameter)
        } else {
            Ok(Self::with_period(period))
        }
    }

    /// Slide the window over `value` and return the percentage change of
    /// `value` against the oldest sample still held.
    pub fn next(&mut self, value: Fixed) -> (r: Fixed)
        requires
            old(self).wf(),
            value.in_range(),
        ensures
            final(self).wf(),
            final(self).spec_period() == old(self).spec_period(),
            final(self).spec_window() =~= slide(
                old(self).spec_window(),
                old(self).spec_period() + 1,
                value.micros() as i128,
            ),
            1 <= final(self).spec_window().len() <= old(self).spec_period() + 1,
            r.micros() == roc_output(final(self).spec_window()[0] as int, value.micros()),
    {
        let v = value.to_micros();
        let _ = self.window.insert(v);
        let reference = self.window.get(0);
        if reference == 0 {
            Fixed::from_micros(0)
        } else {
            let diff = v - reference;
            Fixed::from_micros(rdiv_signed_i128(diff * 100_000_000, reference))
        }
    }

    /// Restore the state a fresh instance with the same period has.
    pub fn reset(&mut self)
        requires
            old(self).wf(),
        ensures
            final(self).wf(),
            final(self).spec_period() == old(self).spec_period(),
            final(self).spec_window() =~= Seq::<i128>::empty(),
    {
        self.window.clear();
    }
}

impl Default for RateOfChange {
    /// The common nine-step preset.
    fn default() -> (r: Self)
        ensures
            r.wf(),
            r.spec_period() == 9,
            r.spec_window() =~= Seq::<i128>::empty(),
    {
        Self::with_period(9)
    }
}

} // verus!
