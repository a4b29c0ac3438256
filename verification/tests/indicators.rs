use ta::indicators::{
    BollingerBands, ExponentialMovingAverage, Maximum, MeanAbsoluteDeviation, Minimum,
    RateOfChange, SimpleMovingAverage, StandardDeviation,
};
use ta::window::CountWindow;
use ta::{Fixed, TaError};

#[test]
fn zero_period_is_rejected_everywhere() {
    assert_eq!(SimpleMovingAverage::new(0).err(), Some(TaError::InvalidParameter));
    assert_eq!(ExponentialMovingAverage::new(0).err(), Some(TaError::InvalidParameter));
    assert_eq!(StandardDeviation::new(0).err(), Some(TaError::InvalidParameter));
    assert_eq!(MeanAbsoluteDeviation::new(0).err(), Some(TaError::InvalidParameter));
    assert_eq!(Minimum::new(0).err(), Some(TaError::InvalidParameter));
    assert_eq!(Maximum::new(0).err(), Some(TaError::InvalidParameter));
    assert_eq!(RateOfChange::new(0).err(), Some(TaError::InvalidParameter));
    assert_eq!(
        BollingerBands::new(0, Fixed::from_int(2)).err(),
        Some(TaError::InvalidParameter)
    );
}

#[test]
fn count_window_never_exceeds_its_period() {
    let mut window = CountWindow::new(3);
    for i in 0..20 {
        window.insert(i as i128);
        assert!(window.len() <= 3);
    }
    assert_eq!(window.len(), 3);
    // Oldest first: the last three insertions remain.
    assert_eq!(window.get(0), 17);
    assert_eq!(window.get(1), 18);
    assert_eq!(window.get(2), 19);
}

#[test]
fn sma_partial_then_sliding_window() {
    let mut sma = SimpleMovingAverage::new(3).unwrap();
    assert_eq!(sma.next(Fixed::from_int(1)), Fixed::from_int(1));
    assert_eq!(sma.next(Fixed::from_int(2)), Fixed::from_micros(1_500_000));
    assert_eq!(sma.next(Fixed::from_int(3)), Fixed::from_int(2));
    assert_eq!(sma.next(Fixed::from_int(4)), Fixed::from_int(3));
}

#[test]
fn sma_replay_after_reset_matches_fresh_instance() {
    let inputs: Vec<i64> = vec![7, 3, 9, 4, 4, 11];
    let mut seasoned = SimpleMovingAverage::new(3).unwrap();
    for v in &inputs {
        seasoned.next(Fixed::from_int(*v));
    }
    seasoned.reset();
    let mut fresh = SimpleMovingAverage::new(3).unwrap();
    for v in &inputs {
        assert_eq!(seasoned.next(Fixed::from_int(*v)), fresh.next(Fixed::from_int(*v)));
    }
}

#[test]
fn roc_percent_change() {
    let mut roc = RateOfChange::new(1).unwrap();
    // A window of size one: the change against itself is zero.
    assert_eq!(roc.next(Fixed::from_int(10)), Fixed::from_int(0));
    assert_eq!(roc.next(Fixed::from_int(12)), Fixed::from_int(20));
}

#[test]
fn roc_against_zero_reference_is_zero() {
    let mut roc = RateOfChange::new(2).unwrap();
    assert_eq!(roc.next(Fixed::from_int(0)), Fixed::from_int(0));
    assert_eq!(roc.next(Fixed::from_int(5)), Fixed::from_int(0));
    // Reference moves off zero: ordinary percentage again.
    assert_eq!(roc.next(Fixed::from_int(10)), Fixed::from_int(0));
    assert_eq!(roc.next(Fixed::from_int(10)), Fixed::from_int(100));
}

#[test]
fn minimum_and_maximum_track_the_window() {
    let mut min = Minimum::new(3).unwrap();
    let mut max = Maximum::new(3).unwrap();
    let inputs: Vec<i64> = vec![4, 2, 7, 5, 9, 1];
    let expected_min: Vec<i64> = vec![4, 2, 2, 2, 5, 1];
    let expected_max: Vec<i64> = vec![4, 4, 7, 7, 9, 9];
    for i in 0..inputs.len() {
        assert_eq!(min.next(Fixed::from_int(inputs[i])), Fixed::from_int(expected_min[i]));
        assert_eq!(max.next(Fixed::from_int(inputs[i])), Fixed::from_int(expected_max[i]));
    }
}

#[test]
fn ema_seeds_then_smooths() {
    // Period three: the smoothing constant is one half.
    let mut ema = ExponentialMovingAverage::new(3).unwrap();
    assert_eq!(ema.next(Fixed::from_int(2)), Fixed::from_int(2));
    assert_eq!(ema.next(Fixed::from_int(4)), Fixed::from_int(3));
    assert_eq!(ema.next(Fixed::from_int(8)), Fixed::from_micros(5_500_000));
}

#[test]
fn ema_reset_reseeds() {
    let mut ema = ExponentialMovingAverage::new(3).unwrap();
    ema.next(Fixed::from_int(2));
    ema.next(Fixed::from_int(4));
    ema.reset();
    assert_eq!(ema.next(Fixed::from_int(100)), Fixed::from_int(100));
}

#[test]
fn stddev_exact_values() {
    let mut sd = StandardDeviation::new(4).unwrap();
    // One observation: no dispersion.
    assert_eq!(sd.next(Fixed::from_int(10)), Fixed::from_int(0));
    // Two observations 10 and 20: the population deviation is exactly 5.
    assert_eq!(sd.next(Fixed::from_int(20)), Fixed::from_int(5));
}

#[test]
fn stddev_is_never_negative() {
    let mut sd = StandardDeviation::new(3).unwrap();
    let values: Vec<i128> = vec![
        1_000_000, 999_999, 1_000_001, -5, 0, 7, 123_456_789, 123_456_788,
    ];
    for v in values {
        let out = sd.next(Fixed::from_micros(v));
        assert!(out.to_micros() >= 0);
    }
}

#[test]
fn mad_full_window_pass() {
    let mut mad = MeanAbsoluteDeviation::new(3).unwrap();
    assert_eq!(mad.next(Fixed::from_int(10)), Fixed::from_int(0));
    // Mean 15, deviations 5 and 5.
    assert_eq!(mad.next(Fixed::from_int(20)), Fixed::from_int(5));
    // Mean 20, deviations 10, 0, 10: the average rounds to the nearest
    // millionth.
    assert_eq!(mad.next(Fixed::from_int(30)), Fixed::from_micros(6_666_667));
}

#[test]
fn bollinger_bands_around_the_average() {
    let mut bb = BollingerBands::new(2, Fixed::from_int(2)).unwrap();
    let first = bb.next(Fixed::from_int(10));
    assert_eq!(first.middle, Fixed::from_int(10));
    assert_eq!(first.lower, Fixed::from_int(10));
    assert_eq!(first.upper, Fixed::from_int(10));
    // Window {10, 20}: average 15, population deviation 5, bands two
    // deviations away.
    let second = bb.next(Fixed::from_int(20));
    assert_eq!(second.middle, Fixed::from_int(15));
    assert_eq!(second.lower, Fixed::from_int(5));
    assert_eq!(second.upper, Fixed::from_int(25));
}

#[test]
fn bollinger_bands_are_always_ordered() {
    let mut bb = BollingerBands::new(4, Fixed::from_micros(1_500_000)).unwrap();
    let values: Vec<i64> = vec![10, 50, -3, 0, 0, 17, 2, 900, 901, -900];
    for v in values {
        let out = bb.next(Fixed::from_int(v));
        assert!(out.lower.to_micros() <= out.middle.to_micros());
        assert!(out.middle.to_micros() <= out.upper.to_micros());
    }
}

#[test]
fn bollinger_reset_replay_matches_fresh_instance() {
    let inputs: Vec<i64> = vec![10, 20, 30, 5, 5];
    let mut seasoned = BollingerBands::new(3, Fixed::from_int(2)).unwrap();
    for v in &inputs {
        seasoned.next(Fixed::from_int(*v));
    }
    seasoned.reset();
    let mut fresh = BollingerBands::new(3, Fixed::from_int(2)).unwrap();
    for v in &inputs {
        assert_eq!(seasoned.next(Fixed::from_int(*v)), fresh.next(Fixed::from_int(*v)));
    }
}

#[test]
fn dispersion_replay_after_reset_matches_fresh_instance() {
    let inputs: Vec<i64> = vec![3, 1, 4, 1, 5, 9, 2, 6];
    let mut sd = StandardDeviation::new(4).unwrap();
    let mut mad = MeanAbsoluteDeviation::new(4).unwrap();
    for v in &inputs {
        sd.next(Fixed::from_int(*v));
        mad.next(Fixed::from_int(*v));
    }
    sd.reset();
    mad.reset();
    let mut sd_fresh = StandardDeviation::new(4).unwrap();
    let mut mad_fresh = MeanAbsoluteDeviation::new(4).unwrap();
    for v in &inputs {
        assert_eq!(sd.next(Fixed::from_int(*v)), sd_fresh.next(Fixed::from_int(*v)));
        assert_eq!(mad.next(Fixed::from_int(*v)), mad_fresh.next(Fixed::from_int(*v)));
    }
}

#[test]
fn extremes_replay_after_reset_matches_fresh_instance() {
    let inputs: Vec<i64> = vec![4, 2, 7, 5, 9, 1];
    let mut min = Minimum::new(3).unwrap();
    let mut max = Maximum::new(3).unwrap();
    let mut roc = RateOfChange::new(2).unwrap();
    let mut ema = ExponentialMovingAverage::new(5).unwrap();
    for v in &inputs {
        min.next(Fixed::from_int(*v));
        max.next(Fixed::from_int(*v));
        roc.next(Fixed::from_int(*v));
        ema.next(Fixed::from_int(*v));
    }
    min.reset();
    max.reset();
    roc.reset();
    ema.reset();
    let mut min_f = Minimum::new(3).unwrap();
    let mut max_f = Maximum::new(3).unwrap();
    let mut roc_f = RateOfChange::new(2).unwrap();
    let mut ema_f = ExponentialMovingAverage::new(5).unwrap();
    for v in &inputs {
        assert_eq!(min.next(Fixed::from_int(*v)), min_f.next(Fixed::from_int(*v)));
        assert_eq!(max.next(Fixed::from_int(*v)), max_f.next(Fixed::from_int(*v)));
        assert_eq!(roc.next(Fixed::from_int(*v)), roc_f.next(Fixed::from_int(*v)));
        assert_eq!(ema.next(Fixed::from_int(*v)), ema_f.next(Fixed::from_int(*v)));
    }
}

#[test]
fn defaults_have_their_documented_presets() {
    let mut sma = SimpleMovingAverage::default();
    let mut ema = ExponentialMovingAverage::default();
    let mut sd = StandardDeviation::default();
    let mut mad = MeanAbsoluteDeviation::default();
    let mut min = Minimum::default();
    let mut max = Maximum::default();
    let mut roc = RateOfChange::default();
    let mut bb = BollingerBands::default();
    // Each default accepts updates immediately.
    assert_eq!(sma.next(Fixed::from_int(7)), Fixed::from_int(7));
    assert_eq!(ema.next(Fixed::from_int(7)), Fixed::from_int(7));
    assert_eq!(sd.next(Fixed::from_int(7)), Fixed::from_int(0));
    assert_eq!(mad.next(Fixed::from_int(7)), Fixed::from_int(0));
    assert_eq!(min.next(Fixed::from_int(7)), Fixed::from_int(7));
    assert_eq!(max.next(Fixed::from_int(7)), Fixed::from_int(7));
    assert_eq!(roc.next(Fixed::from_int(7)), Fixed::from_int(0));
    let bands = bb.next(Fixed::from_int(7));
    assert_eq!(bands.middle, Fixed::from_int(7));
}
