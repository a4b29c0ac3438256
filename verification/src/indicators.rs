//! The indicators: each one a standalone state machine with a `next`
//! update and a `reset` that restores the freshly-constructed state.

mod bollinger_bands;
mod exponential_moving_average;
mod maximum;
mod mean_absolute_deviation;
mod minimum;
mod rate_of_change;
mod relative_strength_index;
mod simple_moving_average;
mod standard_deviation;

pub use self::bollinger_bands::{band_width, BollingerBands, BollingerBandsOutput};
pub use self::exponential_moving_average::{
    ema_next_value, ema_step, ExponentialMovingAverage, SMOOTH_LIMIT,
};
pub use self::maximum::Maximum;
pub use self::mean_absolute_deviation::MeanAbsoluteDeviation;
pub use self::minimum::Minimum;
pub use self::rate_of_change::{roc_output, RateOfChange};
pub use self::relative_strength_index::{
    evict_older, lemma_balanced_output_is_neutral, lemma_eviction_clears_stale_entries,
    rsi_output, spec_gain, spec_loss, RelativeStrengthIndex, FIRST_SEED, SECS_PER_DAY,
    TIMESTAMP_LIMIT,
};
pub use self::simple_moving_average::SimpleMovingAverage;
pub use self::standard_deviation::{variance_of, StandardDeviation};
