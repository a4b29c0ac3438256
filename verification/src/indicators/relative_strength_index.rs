//! Relative strength index: exponentially smoothed gains against losses,
//! with a time-based sample log that bounds memory to the configured
//! look-back duration.

use vstd::prelude::*;
use std::collections::VecDeque;
use crate::arith::{lemma_rdiv_le, rdiv, rdiv_i128, INPUT_LIMIT, PERIOD_LIMIT, SCALE};
use crate::errors::TaError;
use crate::fixed::Fixed;
use crate::indicators::exponential_moving_average::{
    ema_next_value, ExponentialMovingAverage,
};

verus! {

/// Seconds in one day: the granularity the look-back duration is
/// expressed in.
pub const SECS_PER_DAY: i64 = 86_400;

/// Largest timestamp magnitude accepted, in seconds; keeps the eviction
/// cutoff inside `i64`.
pub const TIMESTAMP_LIMIT: i64 = 1_000_000_000_000_000;

/// The balanced gain and loss (one tenth of a unit each) fed to the two
/// smoothing engines on the very first update, when no previous value
/// exists. Seeding both sides equally and away from zero makes the first
/// output exactly the neutral fifty while keeping later outputs
/// responsive to the first real gain or loss.
pub const FIRST_SEED: i128 = 100_000;

/// The smoothed-gain input of one update: the rise over the previous
/// value, zero on a fall, and the balanced seed when no previous value
/// exists.
pub open spec fn spec_gain(prev: Option<i128>, v: int) -> int {
    match prev {
        None => FIRST_SEED as int,
        Some(p) => if v > p {
            v - p
        } else {
            0
        },
    }
}

/// The smoothed-loss input of one update, mirroring `spec_gain`.
pub open spec fn spec_loss(prev: Option<i128>, v: int) -> int {
    match prev {
        None => FIRST_SEED as int,
        Some(p) => if v > p {
            0
        } else {
            p - v
        },
    }
}

/// The indicator output for smoothed gain `up` and smoothed loss
/// `down`: the neutral fifty when both are zero (no division by zero),
/// otherwise `100 * up / (up + down)`, rounded to the nearest millionth.
pub open spec fn rsi_output(up: int, down: int) -> int
    recommends
        up >= 0,
        down >= 0,
{
    if up + down == 0 {
        50 * (SCALE as int)
    } else {
        rdiv(100 * (SCALE as int) * up, up + down)
    }
}

/// The sample log after evicting from the front every entry whose
/// timestamp is at or before `cutoff`.
pub open spec fn evict_older(s: Seq<(i64, i128)>, cutoff: int) -> Seq<(i64, i128)>
    decreases s.len(),
{
    if s.len() == 0 {
        s
    } else if s[0].0 <= cutoff {
        evict_older(s.subrange(1, s.len() as int), cutoff)
    } else {
        s
    }
}

/// Law: on a log whose timestamps arrived in non-decreasing order (as
/// the input feed is assumed to deliver them), eviction leaves no entry
/// at or before the cutoff: the window never holds a sample older than
/// the look-back duration.
pub proof fn lemma_eviction_clears_stale_entries(s: Seq<(i64, i128)>, cutoff: int)
    requires
        forall|i: int, j: int| 0 <= i < j < s.len() ==> (#[trigger] s[i]).0 <= (#[trigger] s[j]).0,
    ensures
        forall|k: int|
            0 <= k < evict_older(s, cutoff).len() ==> (#[trigger] evict_older(s, cutoff)[k]).0
                > cutoff,
    decreases s.len(),
{
    if s.len() > 0 {
        if s[0].0 <= cutoff {
            let t = s.subrange(1, s.len() as int);
            assert(forall|i: int, j: int|
                0 <= i < j < t.len() ==> (#[trigger] t[i]).0 <= (#[trigger] t[j]).0);
            lemma_eviction_clears_stale_entries(t, cutoff);
            assert(evict_older(s, cutoff) == evict_older(t, cutoff));
            assert forall|k: int|
                0 <= k < evict_older(s, cutoff).len() implies (#[trigger] evict_older(
                s,
                cutoff,
            )[k]).0 > cutoff by {
                assert((evict_older(t, cutoff)[k]).0 > cutoff);
            }
        } else {
            assert forall|k: int|
                0 <= k < evict_older(s, cutoff).len() implies (#[trigger] evict_older(
                s,
                cutoff,
            )[k]).0 > cutoff by {
                if k > 0 {
                    assert(s[0].0 <= s[k].0);
                }
            }
        }
    }
}

/// Law: whenever the smoothed gain and loss are equal — as they are
/// from the first update on under a flat input sequence, whose gains
/// and losses are all zero — the output is exactly the neutral fifty.
pub proof fn lemma_balanced_output_is_neutral(up: int, down: int)
    requires
        up == down,
        up >= 0,
    ensures
        rsi_output(up, down) == 50 * (SCALE as int),
{
    if up + down != 0 {
        assert(100 * (SCALE as int) * up == (50 * (SCALE as int)) * (up + down))
            by (nonlinear_arith)
            requires
                up == down,
        {
        }
        crate::arith::lemma_rdiv_exact(50 * (SCALE as int), up + down);
    }
}

/// Relative strength index over a look-back duration of a whole number
/// of days: two exponential smoothing engines fed by the gain/loss
/// decomposition of consecutive values, and a time-ordered sample log
/// evicted by timestamp.
pub struct RelativeStrengthIndex {
    days: i64,
    up_ema: ExponentialMovingAverage,
    down_ema: ExponentialMovingAverage,
    window: VecDeque<(i64, i128)>,
    prev_value: Option<i128>,
}

/// Drop leading log entries at or before `cutoff`; each entry is popped
/// from the front of the deque, so eviction is constant time per entry.
fn remove_old_data(window: &mut VecDeque<(i64, i128)>, cutoff: i64)
    ensures
        final(window)@ == evict_older(old(window)@, cutoff as int),
{
    loop
        invariant
            evict_older(window@, cutoff as int) == evict_older(old(window)@, cutoff as int),
        ensures
            window@ == evict_older(old(window)@, cutoff as int),
        decreases window@.len(),
    {
        if window.len() == 0 {
            break;
        }
        let first = window[0];
        if first.0 > cutoff {
            break;
        }
        let _ = window.pop_front();
    }
}

impl RelativeStrengthIndex {
    /// The look-back duration, in whole days; also the period of both
    /// smoothing engines.
    pub closed spec fn spec_days(self) -> int {
        self.days as int
    }

    /// The smoothing engine over the gains.
    pub closed spec fn spec_up(self) -> ExponentialMovingAverage {
        self.up_ema
    }

    /// The smoothing engine over the losses.
    pub closed spec fn spec_down(self) -> ExponentialMovingAverage {
        self.down_ema
    }

    /// The time-ordered sample log, oldest first.
    pub closed spec fn spec_window(self) -> Seq<(i64, i128)> {
        self.window@
    }

    /// The previous raw value, absent before the first update.
    pub closed spec fn spec_prev(self) -> Option<i128> {
        self.prev_value
    }

    /// Both engines share the day count as period, are seeded together
    /// (exactly when a previous value exists), and never hold a negative
    /// smoothed value, since gains and losses are never negative.
    pub closed spec fn wf(self) -> bool {
        &&& 1 <= self.spec_days() <= PERIOD_LIMIT as int
        &&& self.up_ema.wf()
        &&& self.down_ema.wf()
        &&& self.up_ema.spec_period() == self.spec_days()
        &&& self.down_ema.spec_period() == self.spec_days()
        &&& self.up_ema.is_seeded() == self.down_ema.is_seeded()
        &&& self.up_ema.is_seeded() <==> self.prev_value is Some
        &&& self.up_ema.spec_current() >= 0
        &&& self.down_ema.spec_current() >= 0
        &&& (self.prev_value matches Some(p) ==> -INPUT_LIMIT <= p <= INPUT_LIMIT)
    }

    pub(crate) fn with_days(days: i64) -> (r: Self)
        requires
            1 <= days <= PERIOD_LIMIT as i64,
        ensures
            r.wf(),
            r.spec_days() == days,
            r.spec_window() =~= Seq::<(i64, i128)>::empty(),
            r.spec_prev() is None,
            !r.spec_up().is_seeded(),
            !r.spec_down().is_seeded(),
            r.spec_up().spec_period() == days,
            r.spec_down().spec_period() == days,
    {
        RelativeStrengthIndex {
            days,
            up_ema: ExponentialMovingAverage::with_period(days as usize),
            down_ema: ExponentialMovingAverage::with_period(days as usize),
            window: VecDeque::new(),
            prev_value: None,
        }
    }

    /// The look-back duration, in whole days.
    pub fn days(&self) -> (r: i64)
        ensures
            r == self.spec_days(),
    {
        self.days
    }

    /// Fails with `InvalidParameter` exactly when the duration is zero
    /// or negative.
    pub fn new(days: i64) -> (r: Result<Self, TaError>)
        requires
            days <= PERIOD_LIMIT as i64,
        ensures
            r is Err <==> days <= 0,
            r matches Err(e) ==> e == TaError::InvalidParameter,
            r matches Ok(s) ==> {
                &&& s.wf()
                &&& s.spec_days() == days
                &&& s.spec_window() =~= Seq::<(i64, i128)>::empty()
                &&& s.spec_prev() is None
                &&& !s.spec_up().is_seeded()
                &&& !s.spec_down().is_seeded()
                &&& s.spec_up().spec_period() == days
                &&& s.spec_down().spec_period() == days
            },
    {
        if days <= 0 {
            Err(TaError::InvalidParameter)
        } else {
            Ok(Self::with_days(days))
        }
    }

    /// One update with a timestamped value: evict log entries older than
    /// the duration, log the sample, decompose the move against the
    /// previous value into a gain and a loss, smooth both, and return
    /// `100 * up / (up + down)` — the neutral fifty when both smoothed
    /// sides are zero. The output always lies in `[0, 100]`.
    pub fn next(&mut self, timestamp: i64, value: Fixed) -> (r: Fixed)
        requires
            old(self).wf(),
            value.in_range(),
            -TIMESTAMP_LIMIT <= timestamp <= TIMESTAMP_LIMIT,
        ensures
            final(self).wf(),
            final(self).spec_days() == old(self).spec_days(),
            final(self).spec_window() =~= evict_older(
                old(self).spec_window(),
                timestamp - old(self).spec_days() * SECS_PER_DAY,
            ).push((timestamp, value.micros() as i128)),
            final(self).spec_prev() == Some(value.micros() as i128),
            final(self).spec_up().spec_current() == ema_next_value(
                old(self).spec_up(),
                spec_gain(old(self).spec_prev(), value.micros()),
            ),
            final(self).spec_down().spec_current() == ema_next_value(
                old(self).spec_down(),
                spec_loss(old(self).spec_prev(), value.micros()),
            ),
            final(self).spec_up().is_seeded(),
            final(self).spec_down().is_seeded(),
            final(self).spec_up().spec_period() == old(self).spec_days(),
            final(self).spec_down().spec_period() == old(self).spec_days(),
            (forall|i: int, j: int| 0 <= i < j < old(self).spec_window().len()
                ==> (#[trigger] old(self).spec_window()[i]).0
                    <= (#[trigger] old(self).spec_window()[j]).0)
                ==> forall|k: int| 0 <= k < final(self).spec_window().len()
                    ==> (#[trigger] final(self).spec_window()[k]).0
                        > timestamp - old(self).spec_days() * SECS_PER_DAY,
            r.micros() == rsi_output(
                ema_next_value(old(self).spec_up(), spec_gain(old(self).spec_prev(), value.micros())),
                ema_next_value(old(self).spec_down(), spec_loss(old(self).spec_prev(), value.micros())),
            ),
            0 <= r.micros() <= 100 * (SCALE as int),
    {
        let cutoff = timestamp - self.days * SECS_PER_DAY;
        remove_old_data(&mut self.window, cutoff);
        let v = value.to_micros();
        self.window.push_back((timestamp, v));
        proof {
            let w0 = old(self).spec_window();
            if forall|i: int, j: int|
                0 <= i < j < w0.len() ==> (#[trigger] w0[i]).0 <= (#[trigger] w0[j]).0 {
                lemma_eviction_clears_stale_entries(w0, cutoff as int);
                let kept = evict_older(w0, cutoff as int);
                assert forall|k: int|
                    0 <= k < self.window@.len() implies (#[trigger] self.window@[k]).0
                    > cutoff as int by {
                    if k < self.window@.len() - 1 {
                        assert(self.window@[k] == kept[k]);
                    }
                }
            }
        }

        let (gain, loss): (i128, i128) = match self.prev_value {
            Some(p) => if v > p {
                (v - p, 0)
            } else {
                (0, p - v)
            },
            None => (FIRST_SEED, FIRST_SEED),
        };
        self.prev_value = Some(v);

        let up_avg = self.up_ema.next(Fixed::from_micros(gain));
        let down_avg = self.down_ema.next(Fixed::from_micros(loss));
        let up = up_avg.to_micros();
        let down = down_avg.to_micros();

        if up + down == 0 {
            Fixed::from_micros(50 * SCALE)
        } else {
            proof {
                assert(100 * SCALE * up <= (up + down) * (100 * SCALE)) by (nonlinear_arith)
                    requires
                        up >= 0,
                        down >= 0,
                {
                }
                lemma_rdiv_le(100 * SCALE * up, up + down, 100 * SCALE);
            }
            Fixed::from_micros(rdiv_i128(100 * SCALE * up, up + down))
        }
    }

    /// Restore the state a fresh instance with the same duration has:
    /// the log cleared, the previous value forgotten, both smoothing
    /// engines unseeded. Replaying any input sequence afterwards
    /// therefore reproduces the outputs of a fresh instance.
    pub fn reset(&mut self)
        requires
            old(self).wf(),
        ensures
            final(self).wf(),
            final(self).spec_days() == old(self).spec_days(),
            final(self).spec_window() =~= Seq::<(i64, i128)>::empty(),
            final(self).spec_prev() is None,
            !final(self).spec_up().is_seeded(),
            !final(self).spec_down().is_seeded(),
            final(self).spec_up().spec_period() == old(self).spec_days(),
            final(self).spec_down().spec_period() == old(self).spec_days(),
    {
        self.window.clear();
        self.prev_value = None;
        self.up_ema.reset();
        self.down_ema.reset();
    }
}

impl Default for RelativeStrengthIndex {
    /// The common fourteen-day preset.
    fn default() -> (r: Self)
        ensures
            r.wf(),
            r.spec_days() == 14,
            r.spec_window() =~= Seq::<(i64, i128)>::empty(),
            r.spec_prev() is None,
            !r.spec_up().is_seeded(),
            !r.spec_down().is_seeded(),
            r.spec_up().spec_period() == 14,
            r.spec_down().spec_period() == 14,
    {
        Self::with_days(14)
    }
}

} // verus!
