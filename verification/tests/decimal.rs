use decimal_array::array_data::{ArrayData, FixedSizeListArray};
use decimal_array::array_decimal::DecimalArray;
use decimal_array::buffer::Buffer;
use decimal_array::datatypes::{DataType, Field};

fn le_bytes_of(values: &[i128]) -> Vec<u8> {
    let mut out = Vec::new();
    for v in values {
        out.extend_from_slice(&v.to_le_bytes());
    }
    out
}

#[test]
fn test_decimal_array() {
    // let val_8887: [u8; 16] = [192, 219, 180, 17, 2, 0, 0, 0, 0, 0, 0, 0, 0, 0, 0, 0];
    // let val_neg_8887: [u8; 16] = [64, 36, 75, 238, 255, 255, 255, 255, 255, 255, 255, 255, 255, 255, 255, 255];
    let values: [u8; 32] = [
        192, 219, 180, 17, 2, 0, 0, 0, 0, 0, 0, 0, 0, 0, 0, 0, 64, 36, 75, 238, 253, 255, 255,
        255, 255, 255, 255, 255, 255, 255, 255, 255,
    ];
    let array_data = ArrayData::builder(DataType::Decimal(38, 6))
        .len(2)
        .add_buffer(Buffer::from_vec(values.to_vec()))
        .build()
        .unwrap();
    let decimal_array = DecimalArray::from(array_data);
    assert_eq!(8_887_000_000_i128, decimal_array.value(0).as_i128());
    assert_eq!(-8_887_000_000_i128, decimal_array.value(1).as_i128());
    assert_eq!(16, decimal_array.value_length());
}

#[test]
fn test_decimal_from_iter_values() {
    let array = DecimalArray::from_iter_values(vec![-100, 0, 101]);
    assert_eq!(array.len(), 3);
    assert_eq!(array.data_type(), &DataType::Decimal(38, 10));
    assert_eq!(-100_i128, array.value(0).as_i128());
    assert!(!array.is_null(0));
    assert_eq!(0_i128, array.value(1).as_i128());
    assert!(!array.is_null(1));
    assert_eq!(101_i128, array.value(2).as_i128());
    assert!(!array.is_null(2));
}

#[test]
fn test_decimal_from_iter() {
    let array = DecimalArray::from_iter(vec![Some(-100), None, Some(101)]);
    assert_eq!(array.len(), 3);
    assert_eq!(array.data_type(), &DataType::Decimal(38, 10));
    assert_eq!(-100_i128, array.value(0).as_i128());
    assert!(!array.is_null(0));
    assert!(array.is_null(1));
    assert_eq!(101_i128, array.value(2).as_i128());
    assert!(!array.is_null(2));
}

#[test]
fn test_decimal_iter() {
    let data = vec![Some(-100), None, Some(101)];
    let array = DecimalArray::from_iter(data.clone());

    let mut iter = array.iter();
    let mut collected = Vec::new();
    while let Some(item) = iter.next() {
        collected.push(item);
    }
    assert_eq!(data, collected);
}

#[test]
fn test_decimal_into_iter() {
    let data = vec![Some(-100), None, Some(101)];
    let array = DecimalArray::from_iter(data.clone());

    let mut iter = array.iter();
    let mut collected = Vec::new();
    while let Some(item) = iter.next() {
        collected.push(item);
    }
    assert_eq!(data, collected);
}

#[test]
fn test_decimal_iter_sized() {
    let data = vec![Some(-100), None, Some(101)];
    let array = DecimalArray::from_iter(data);
    let mut iter = array.iter();

    // is exact sized
    assert_eq!(array.len(), 3);

    // size_hint is reported correctly
    assert_eq!(iter.size_hint(), (3, Some(3)));
    iter.next().unwrap();
    assert_eq!(iter.size_hint(), (2, Some(2)));
    iter.next().unwrap();
    iter.next().unwrap();
    assert_eq!(iter.size_hint(), (0, Some(0)));
    assert!(iter.next().is_none());
    assert_eq!(iter.size_hint(), (0, Some(0)));
}

#[test]
fn test_decimal_array_value_as_string() {
    let arr = DecimalArray::from_iter(
        [123450, -123450, 100, -100, 10, -10, 0]
            .iter()
            .map(|v| Some(*v))
            .collect::<Vec<_>>(),
    )
    .with_precision_and_scale(6, 3)
    .unwrap();

    assert_eq!("123.450", arr.value_as_string(0));
    assert_eq!("-123.450", arr.value_as_string(1));
    assert_eq!("0.100", arr.value_as_string(2));
    assert_eq!("-0.100", arr.value_as_string(3));
    assert_eq!("0.010", arr.value_as_string(4));
    assert_eq!("-0.010", arr.value_as_string(5));
    assert_eq!("0.000", arr.value_as_string(6));
}

#[test]
fn test_decimal_array_with_precision_and_scale() {
    let arr = DecimalArray::from_iter_values(vec![12345, 456, 7890, -123223423432432])
        .with_precision_and_scale(20, 2)
        .unwrap();

    assert_eq!(arr.data_type(), &DataType::Decimal(20, 2));
    assert_eq!(arr.precision(), 20);
    assert_eq!(arr.scale(), 2);

    let actual: Vec<_> = (0..arr.len()).map(|i| arr.value_as_string(i)).collect();
    let expected = vec!["123.45", "4.56", "78.90", "-1232234234324.32"];

    assert_eq!(actual, expected);
}

#[test]
#[should_panic(
    expected = "-123223423432432 is too small to store in a Decimal of precision 5. Min is -99999"
)]
fn test_decimal_array_with_precision_and_scale_out_of_range() {
    DecimalArray::from_iter_values(vec![12345, 456, 7890, -123223423432432])
        // precision is too small to hold value
        .with_precision_and_scale(5, 2)
        .unwrap();
}

#[test]
#[should_panic(expected = "precision 40 is greater than max 38")]
fn test_decimal_array_with_precision_and_scale_invalid_precision() {
    DecimalArray::from_iter_values(vec![12345, 456])
        .with_precision_and_scale(40, 2)
        .unwrap();
}

#[test]
#[should_panic(expected = "scale 40 is greater than max 38")]
fn test_decimal_array_with_precision_and_scale_invalid_scale() {
    DecimalArray::from_iter_values(vec![12345, 456])
        .with_precision_and_scale(20, 40)
        .unwrap();
}

#[test]
#[should_panic(expected = "scale 10 is greater than precision 4")]
fn test_decimal_array_with_precision_and_scale_invalid_precision_and_scale() {
    DecimalArray::from_iter_values(vec![12345, 456])
        .with_precision_and_scale(4, 10)
        .unwrap();
}

#[test]
fn test_decimal_array_fmt_debug() {
    let arr = DecimalArray::from_iter(vec![Some(8887000000), Some(-8887000000), None])
        .with_precision_and_scale(23, 6)
        .unwrap();

    assert_eq!(
        "DecimalArray<23, 6>\n[\n  8887.000000,\n  -8887.000000,\n  null,\n]",
        arr.debug_string()
    );
}

#[test]
fn test_decimal_array_from_fixed_size_list() {
    let value_data = ArrayData::builder(DataType::UInt8)
        .offset(16)
        .len(48)
        .add_buffer(Buffer::from_vec(le_bytes_of(&[99999_i128, 12, 34, 56])))
        .build()
        .unwrap();

    let null_buffer = Buffer::from_vec(vec![0b101]);

    // Construct a list array from the above two
    let list_data_type =
        DataType::FixedSizeList(Box::new(Field::new("item", DataType::UInt8, false)), 16);
    let list_data = ArrayData::builder(list_data_type)
        .len(2)
        .null_bit_buffer(Some(null_buffer))
        .offset(1)
        .add_child_data(value_data)
        .build()
        .unwrap();
    let list_array = FixedSizeListArray::from(list_data);
    let decimal = DecimalArray::from_fixed_size_list_array(list_array, 38, 0);

    assert_eq!(decimal.len(), 2);
    assert!(decimal.is_null(0));
    assert_eq!(decimal.value_as_string(1), "56".to_string());
}
