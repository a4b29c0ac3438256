//! Bollinger Bands: a simple moving average and a population standard
//! deviation over the same period, with a fixed band multiplier.

use vstd::prelude::*;
use crate::arith::{
    lemma_rdiv_bound, lemma_rdiv_nonneg, rdiv, rdiv_i128, sqrt_floor, INPUT_LIMIT, PERIOD_LIMIT,
    SCALE,
};
use crate::errors::TaError;
use crate::fixed::Fixed;
use crate::indicators::simple_moving_average::SimpleMovingAverage;
use crate::indicators::standard_deviation::{variance_of, StandardDeviation};
use crate::window::{mean_of, slide};

verus! {

/// One Bollinger Bands output: `middle` is the moving average, and the
/// bands sit `multiplier` standard deviations away on either side.
#[derive(Clone, Copy, PartialEq, Eq, Structural, Debug)]
pub struct BollingerBandsOutput {
    pub lower: Fixed,
    pub middle: Fixed,
    pub upper: Fixed,
}

/// The band half-width: `multiplier` times the standard deviation,
/// rounded to the nearest millionth.
pub open spec fn band_width(window: Seq<i128>, multiplier: int) -> int
    recommends
        window.len() > 0,
{
    rdiv(multiplier * sqrt_floor(variance_of(window)), SCALE as int)
}

/// Bollinger Bands over the most recent `period` observations, with a
/// fixed non-negative-by-convention multiplier (commonly two).
pub struct BollingerBands {
    sma: SimpleMovingAverage,
    sd: StandardDeviation,
    multiplier: i128,
}

impl BollingerBands {
    /// The fixed window length chosen at construction.
    pub closed spec fn spec_period(self) -> int {
        self.sma.spec_period()
    }

    /// The observations currently held, oldest first.
    pub closed spec fn spec_window(self) -> Seq<i128> {
        self.sma.spec_window()
    }

    /// The fixed band multiplier, in millionths.
    pub closed spec fn spec_multiplier(self) -> int {
        self.multiplier as int
    }

    /// Both sub-engines are well formed, share the period, and have
    /// seen exactly the same observations.
    pub closed spec fn wf(self) -> bool {
        &&& self.sma.wf()
        &&& self.sd.wf()
        &&& self.sma.spec_period() == self.sd.spec_period()
        &&& self.sma.spec_window() == self.sd.spec_window()
        &&& -INPUT_LIMIT <= self.multiplier <= INPUT_LIMIT
    }

    pub(crate) fn with_params(period: usize, multiplier: Fixed) -> (r: Self)
        requires
            1 <= period <= PERIOD_LIMIT,
            multiplier.in_range(),
        ensures
            r.wf(),
            r.spec_period() == period,
            r.spec_multiplier() == multiplier.micros(),
            r.spec_window() =~= Seq::<i128>::empty(),
    {
        BollingerBands {
            sma: SimpleMovingAverage::with_period(period),
            sd: StandardDeviation::with_period(period),
            multiplier: multiplier.to_micros(),
        }
    }

    /// Fails with `InvalidParameter` exactly when `period` is zero.
    pub fn new(period: usize, multiplier: Fixed) -> (r: Result<Self, TaError>)
        requires
            period <= PERIOD_LIMIT,
            multiplier.in_range(),
        ensures
            r is Err <==> period == 0,
            r matches Err(e) ==> e == TaError::InvalidParameter,
            r matches Ok(s) ==> s.wf() && s.spec_period() == period && s.spec_multiplier()
                == multiplier.micros() && s.spec_window() =~= Seq::<i128>::empty(),
    {
        if period == 0 {
            Err(TaError::InvalidParameter)
        } else {
            Ok(Self::with_params(period, multiplier))
        }
    }

    /// Feed `value` to both sub-engines and return the bands around the
    /// new average. With a non-negative multiplier the bands are always
    /// ordered: lower, middle, upper.
    pub fn next(&mut self, value: Fixed) -> (r: BollingerBandsOutput)
        requires
            old(self).wf(),
            value.in_range(),
        ensures
            final(self).wf(),
            final(self).spec_period() == old(self).spec_period(),
            final(self).spec_multiplier() == old(self).spec_multiplier(),
            final(self).spec_window() =~= slide(
                old(self).spec_window(),
                old(self).spec_period(),
                value.micros() as i128,
            ),
            r.middle.micros() == mean_of(final(self).spec_window()),
            r.upper.micros() == r.middle.micros() + band_width(
                final(self).spec_window(),
                old(self).spec_multiplier(),
            ),
            r.lower.micros() == r.middle.micros() - band_width(
                final(self).spec_window(),
                old(self).spec_multiplier(),
            ),
            old(self).spec_multiplier() >= 0 ==> r.lower.micros() <= r.middle.micros()
                <= r.upper.micros(),
    {
        let middle = self.sma.next(value);
        let deviation = self.sd.next(value);
        let s = deviation.to_micros();
        proof {
            let k = self.multiplier as int;
            assert(-(INPUT_LIMIT * INPUT_LIMIT) <= k * s <= INPUT_LIMIT * INPUT_LIMIT)
                by (nonlinear_arith)
                requires
                    -INPUT_LIMIT <= k <= INPUT_LIMIT,
                    0 <= s <= INPUT_LIMIT,
            {
            }
            lemma_rdiv_bound(k * s, SCALE as int, 1_000_000_000_000_000_000_000_000);
            if k >= 0 {
                assert(k * s >= 0) by (nonlinear_arith)
                    requires
                        k >= 0,
                        s >= 0,
                {
                }
                lemma_rdiv_nonneg(k * s, SCALE as int);
            }
        }
        let band = rdiv_i128(self.multiplier * s, SCALE);
        let m = middle.to_micros();
        BollingerBandsOutput {
            lower: Fixed::from_micros(m - band),
            middle,
            upper: Fixed::from_micros(m + band),
        }
    }

    /// Restore the state a fresh instance with the same parameters has.
    pub fn reset(&mut self)
        requires
            old(self).wf(),
        ensures
            final(self).wf(),
            final(self).spec_period() == old(self).spec_period(),
            final(self).spec_multiplier() == old(self).spec_multiplier(),
            final(self).spec_window() =~= Seq::<i128>::empty(),
    {
        self.sma.reset();
        self.sd.reset();
    }
}

impl Default for BollingerBands {
    /// The common preset: twenty observations, multiplier two.
    fn default() -> (r: Self)
        ensures
            r.wf(),
            r.spec_period() == 20,
            r.spec_multiplier() == 2 * SCALE,
            r.spec_window() =~= Seq::<i128>::empty(),
    {
        Self::with_params(20, Fixed::from_int(2))
    }
}

} // verus!
