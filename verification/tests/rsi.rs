use chrono::{Duration, TimeZone, Utc};
use ta::indicators::RelativeStrengthIndex;
use ta::Fixed;

#[test]
fn test_new() {
    assert!(RelativeStrengthIndex::new(0).is_err());
    assert!(RelativeStrengthIndex::new(1).is_ok());
}

#[test]
fn test_next() {
    let mut rsi = RelativeStrengthIndex::new(3).unwrap();
    let timestamp = Utc.with_ymd_and_hms(2020, 1, 1, 0, 0, 0).unwrap();
    assert_eq!(
        rsi.next(timestamp.timestamp(), Fixed::from_int(10)),
        Fixed::from_int(50)
    );
    assert_eq!(
        rsi.next(
            (timestamp + Duration::days(1)).timestamp(),
            Fixed::from_micros(10_500_000)
        )
        .round(),
        Fixed::from_int(86)
    );
    assert_eq!(
        rsi.next((timestamp + Duration::days(2)).timestamp(), Fixed::from_int(10))
            .round(),
        Fixed::from_int(35)
    );
    assert_eq!(
        rsi.next(
            (timestamp + Duration::days(3)).timestamp(),
            Fixed::from_micros(9_500_000)
        )
        .round(),
        Fixed::from_int(16)
    );
}

#[test]
fn test_reset() {
    let mut rsi = RelativeStrengthIndex::new(3).unwrap();
    let timestamp = Utc.with_ymd_and_hms(2020, 1, 1, 0, 0, 0).unwrap();
    assert_eq!(
        rsi.next(timestamp.timestamp(), Fixed::from_int(10)),
        Fixed::from_int(50)
    );
    assert_eq!(
        rsi.next(
            (timestamp + Duration::days(1)).timestamp(),
            Fixed::from_micros(10_500_000)
        )
        .round(),
        Fixed::from_int(86)
    );

    rsi.reset();
    assert_eq!(
        rsi.next(timestamp.timestamp(), Fixed::from_int(10)).round(),
        Fixed::from_int(50)
    );
    assert_eq!(
        rsi.next(
            (timestamp + Duration::days(1)).timestamp(),
            Fixed::from_micros(10_500_000)
        )
        .round(),
        Fixed::from_int(86)
    );
}

#[test]
fn test_default() {
    RelativeStrengthIndex::default();
}

#[test]
fn rsi_flat_sequence_stays_neutral() {
    // A constant input has zero gains and zero losses, so the two
    // smoothed sides stay balanced and every output is exactly fifty.
    let mut rsi = RelativeStrengthIndex::new(3).unwrap();
    let mut day: i64 = 0;
    for _ in 0..40 {
        let out = rsi.next(day * 86_400, Fixed::from_int(42));
        assert_eq!(out, Fixed::from_int(50));
        day += 1;
    }
}

#[test]
fn rsi_output_is_always_in_percent_range() {
    let mut rsi = RelativeStrengthIndex::new(5).unwrap();
    let values: Vec<i64> = vec![10, 12, 8, 8, 25, 1, 1, 300, 0, -5, -5, 17];
    let mut day: i64 = 0;
    for v in values {
        let out = rsi.next(day * 86_400, Fixed::from_int(v));
        let micros = out.to_micros();
        assert!(0 <= micros && micros <= 100_000_000);
        day += 1;
    }
}

#[test]
fn rsi_replay_after_reset_matches_fresh_instance() {
    let inputs: Vec<(i64, i128)> = vec![
        (0, 10_000_000),
        (86_400, 10_500_000),
        (172_800, 10_000_000),
        (259_200, 9_500_000),
        (345_600, 12_000_000),
    ];
    let mut seasoned = RelativeStrengthIndex::new(3).unwrap();
    for (t, v) in &inputs {
        seasoned.next(*t, Fixed::from_micros(*v));
    }
    seasoned.reset();

    let mut fresh = RelativeStrengthIndex::new(3).unwrap();
    for (t, v) in &inputs {
        let replayed = seasoned.next(*t, Fixed::from_micros(*v));
        let baseline = fresh.next(*t, Fixed::from_micros(*v));
        assert_eq!(replayed, baseline);
    }
}
