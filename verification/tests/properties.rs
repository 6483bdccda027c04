use decimal_array::array_decimal::DecimalArray;
use decimal_array::datatypes::{validate_decimal_precision, DataType};

#[test]
fn test_rendering_precision_23_scale_6() {
    let arr = DecimalArray::from_iter_values(vec![8887000000, -8887000000])
        .with_precision_and_scale(23, 6)
        .unwrap();
    assert_eq!("8887.000000", arr.value_as_string(0));
    assert_eq!("-8887.000000", arr.value_as_string(1));
}

#[test]
fn test_rendering_scale_zero() {
    let arr = DecimalArray::from_iter_values(vec![0, -5, 8887000000])
        .with_precision_and_scale(38, 0)
        .unwrap();
    assert_eq!("0", arr.value_as_string(0));
    assert_eq!("-5", arr.value_as_string(1));
    assert_eq!("8887000000", arr.value_as_string(2));
}

#[test]
fn test_round_trip_extremes() {
    let data = vec![
        Some(1),
        None,
        Some(-1),
        Some(i128::MAX),
        Some(i128::MIN),
        Some(0),
    ];
    let array = DecimalArray::from_iter(data.clone());
    assert_eq!(array.len(), data.len());
    for (i, expected) in data.iter().enumerate() {
        match expected {
            Some(v) => {
                assert!(!array.is_null(i));
                assert_eq!(*v, array.value(i).as_i128());
            }
            None => assert!(array.is_null(i)),
        }
    }
    let mut iter = array.iter();
    let mut collected = Vec::new();
    while let Some(item) = iter.next() {
        collected.push(item);
    }
    assert_eq!(data, collected);
}

#[test]
fn test_round_trip_empty() {
    let array = DecimalArray::from_iter(Vec::new());
    assert_eq!(array.len(), 0);
    let mut iter = array.iter();
    assert_eq!(iter.size_hint(), (0, Some(0)));
    assert!(iter.next().is_none());

    let no_nulls = DecimalArray::from_iter_values(Vec::new());
    assert_eq!(no_nulls.len(), 0);
}

#[test]
fn test_widening_keeps_values() {
    let arr = DecimalArray::from_iter_values(vec![12345, -99999])
        .with_precision_and_scale(5, 2)
        .unwrap();
    let widened = arr.with_precision_and_scale(10, 4).unwrap();
    assert_eq!(widened.precision(), 10);
    assert_eq!(widened.scale(), 4);
    assert_eq!(widened.data_type(), &DataType::Decimal(10, 4));
    assert_eq!(12345, widened.value(0).as_i128());
    assert_eq!(-99999, widened.value(1).as_i128());
    assert_eq!("1.2345", widened.value_as_string(0));
}

#[test]
fn test_narrowing_messages() {
    let err = DecimalArray::from_iter_values(vec![12345, 456, 7890, -123223423432432])
        .with_precision_and_scale(5, 2)
        .unwrap_err();
    assert_eq!(
        "-123223423432432 is too small to store in a Decimal of precision 5. Min is -99999",
        err.message().as_str()
    );
    assert_eq!(
        "Invalid argument error: -123223423432432 is too small to store in a Decimal of precision 5. Min is -99999",
        err.to_text()
    );

    let err = DecimalArray::from_iter_values(vec![123456])
        .with_precision_and_scale(5, 2)
        .unwrap_err();
    assert_eq!(
        "123456 is too large to store in a Decimal of precision 5. Max is 99999",
        err.message().as_str()
    );
}

#[test]
fn test_narrowing_skips_nulls() {
    let arr = DecimalArray::from_iter(vec![Some(99), None, Some(-99)])
        .with_precision_and_scale(2, 0)
        .unwrap();
    assert_eq!(arr.precision(), 2);
    assert!(arr.is_null(1));
}

#[test]
fn test_bound_check_messages() {
    let err = DecimalArray::from_iter_values(vec![1])
        .with_precision_and_scale(40, 2)
        .unwrap_err();
    assert_eq!("precision 40 is greater than max 38", err.message().as_str());

    let err = DecimalArray::from_iter_values(vec![1])
        .with_precision_and_scale(20, 40)
        .unwrap_err();
    assert_eq!("scale 40 is greater than max 38", err.message().as_str());

    let err = DecimalArray::from_iter_values(vec![1])
        .with_precision_and_scale(4, 10)
        .unwrap_err();
    assert_eq!("scale 10 is greater than precision 4", err.message().as_str());
}

#[test]
fn test_validate_decimal_precision_bounds() {
    assert!(validate_decimal_precision(99999, 5).is_ok());
    assert!(validate_decimal_precision(-99999, 5).is_ok());
    assert!(validate_decimal_precision(100000, 5).is_err());
    assert!(validate_decimal_precision(-100000, 5).is_err());
    assert!(validate_decimal_precision(0, 1).is_ok());
    assert!(validate_decimal_precision(99999999999999999999999999999999999999, 38).is_ok());
    assert!(validate_decimal_precision(i128::MAX, 38).is_err());
}

#[test]
fn test_cursor_exhaustion_and_restart() {
    let array = DecimalArray::from_iter(vec![Some(-100), None, Some(101)]);
    let mut iter = array.iter();
    assert_eq!(iter.size_hint(), (3, Some(3)));
    assert_eq!(Some(Some(-100)), iter.next());
    assert_eq!(iter.size_hint(), (2, Some(2)));
    assert_eq!(Some(None), iter.next());
    assert_eq!(Some(Some(101)), iter.next());
    assert_eq!(iter.size_hint(), (0, Some(0)));
    assert!(iter.next().is_none());
    assert!(iter.next().is_none());
    assert!(iter.next().is_none());
    assert_eq!(iter.size_hint(), (0, Some(0)));

    // a fresh cursor is unaffected by the exhausted one
    let mut fresh = array.iter();
    assert_eq!(fresh.size_hint(), (3, Some(3)));
    assert_eq!(Some(Some(-100)), fresh.next());
}

#[test]
fn test_value_geometry() {
    let array = DecimalArray::from_iter_values(vec![1, 2, 3]);
    assert_eq!(0, array.value_offset(0));
    assert_eq!(32, array.value_offset(2));
    assert_eq!(16, array.value_length());
    let buf = array.value_data();
    assert_eq!(48, buf.len());
    assert_eq!(1, buf.byte(0));
    assert_eq!(2, buf.byte(16));
}
