use ta::{DataItem, Fixed, TaError};

fn build(record: (i128, i128, i128, i128, i128)) -> Result<DataItem, TaError> {
    let (open, high, low, close, volume) = record;
    DataItem::builder()
        .open(Fixed::from_micros(open))
        .high(Fixed::from_micros(high))
        .low(Fixed::from_micros(low))
        .close(Fixed::from_micros(close))
        .volume(Fixed::from_micros(volume))
        .build()
}

#[test]
fn test_builder() {
    let valid_records = vec![
        // open, high, low, close, volume (in millionths of a unit)
        (20_000_000, 25_000_000, 15_000_000, 21_000_000, 7_500_000_000),
        (10_000_000, 10_000_000, 10_000_000, 10_000_000, 10_000_000),
        (0, 0, 0, 0, 0),
    ];
    for record in valid_records {
        assert!(build(record).is_ok());
    }

    let invalid_records = vec![
        // open, high, low, close, volume (in millionths of a unit)
        (-1_000_000, 25_000_000, 15_000_000, 21_000_000, 7_500_000_000),
        (20_000_000, -1_000_000, 15_000_000, 21_000_000, 7_500_000_000),
        (20_000_000, 25_000_000, 15_000_000, -1_000_000, 7_500_000_000),
        (20_000_000, 25_000_000, 15_000_000, 21_000_000, -1_000_000),
        (14_900_000, 25_000_000, 15_000_000, 21_000_000, 7_500_000_000),
        (25_100_000, 25_000_000, 15_000_000, 21_000_000, 7_500_000_000),
        (20_000_000, 25_000_000, 15_000_000, 14_900_000, 7_500_000_000),
        (20_000_000, 25_000_000, 15_000_000, 25_100_000, 7_500_000_000),
        (20_000_000, 15_000_000, 25_000_000, 21_000_000, 7_500_000_000),
    ];
    for record in invalid_records {
        assert_eq!(build(record), Err(TaError::DataItemInvalid));
    }
}

#[test]
fn builder_missing_field_is_incomplete() {
    // All fields but volume are set.
    let result = DataItem::builder()
        .open(Fixed::from_int(20))
        .high(Fixed::from_int(25))
        .low(Fixed::from_int(15))
        .close(Fixed::from_int(21))
        .build();
    assert_eq!(result, Err(TaError::DataItemIncomplete));

    let nothing_set = DataItem::builder().build();
    assert_eq!(nothing_set, Err(TaError::DataItemIncomplete));
}

#[test]
fn builder_keeps_the_latest_value_of_a_field() {
    let item = DataItem::builder()
        .open(Fixed::from_int(999))
        .open(Fixed::from_int(20))
        .high(Fixed::from_int(25))
        .low(Fixed::from_int(15))
        .close(Fixed::from_int(21))
        .volume(Fixed::from_int(7500))
        .build()
        .unwrap();
    assert_eq!(item.open(), Fixed::from_int(20));
    assert_eq!(item.high(), Fixed::from_int(25));
    assert_eq!(item.low(), Fixed::from_int(15));
    assert_eq!(item.close(), Fixed::from_int(21));
    assert_eq!(item.volume(), Fixed::from_int(7500));
}
