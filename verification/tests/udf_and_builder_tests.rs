use greatest_udf::greatest;
use greatest_udf::make_builder;
use greatest_udf::Column;
use greatest_udf::ColumnarValue;
use greatest_udf::ErrorKind;
use greatest_udf::GreatestUDF;
use greatest_udf::IntervalUnit;
use greatest_udf::ScalarValue;
use greatest_udf::Signature;
use greatest_udf::TimeUnit;
use greatest_udf::TypeDescriptor;
use greatest_udf::TypeSignature;
use greatest_udf::Volatility;

fn int64_column(data: Vec<Option<i64>>) -> Column {
    let mut builder = make_builder(&TypeDescriptor::Int64, data.len()).unwrap();
    for v in data {
        builder.append_scalar_value(ScalarValue::Int64(v)).unwrap();
    }
    builder.finish()
}

fn utf8_column(data: Vec<Option<&str>>) -> Column {
    let mut builder = make_builder(&TypeDescriptor::Utf8, data.len()).unwrap();
    for v in data {
        builder
            .append_scalar_value(ScalarValue::Utf8(v.map(|s| s.to_string())))
            .unwrap();
    }
    builder.finish()
}

fn supported_descriptors() -> Vec<TypeDescriptor> {
    vec![
        TypeDescriptor::Null,
        TypeDescriptor::Boolean,
        TypeDescriptor::Int8,
        TypeDescriptor::Int16,
        TypeDescriptor::Int32,
        TypeDescriptor::Int64,
        TypeDescriptor::UInt8,
        TypeDescriptor::UInt16,
        TypeDescriptor::UInt32,
        TypeDescriptor::UInt64,
        TypeDescriptor::Float16,
        TypeDescriptor::Float32,
        TypeDescriptor::Float64,
        TypeDescriptor::Binary,
        TypeDescriptor::LargeBinary,
        TypeDescriptor::FixedSizeBinary(3),
        TypeDescriptor::Decimal128(10, 2),
        TypeDescriptor::Decimal256(40, 4),
        TypeDescriptor::Utf8,
        TypeDescriptor::LargeUtf8,
        TypeDescriptor::Date32,
        TypeDescriptor::Date64,
        TypeDescriptor::Time32(TimeUnit::Second),
        TypeDescriptor::Time32(TimeUnit::Millisecond),
        TypeDescriptor::Time64(TimeUnit::Microsecond),
        TypeDescriptor::Time64(TimeUnit::Nanosecond),
        TypeDescriptor::Timestamp(TimeUnit::Second, None),
        TypeDescriptor::Timestamp(TimeUnit::Millisecond, Some("UTC".to_string())),
        TypeDescriptor::Timestamp(TimeUnit::Microsecond, None),
        TypeDescriptor::Timestamp(TimeUnit::Nanosecond, Some("+02:00".to_string())),
        TypeDescriptor::Interval(IntervalUnit::YearMonth),
        TypeDescriptor::Interval(IntervalUnit::DayTime),
        TypeDescriptor::Interval(IntervalUnit::MonthDayNano),
        TypeDescriptor::Duration(TimeUnit::Second),
        TypeDescriptor::Duration(TimeUnit::Millisecond),
        TypeDescriptor::Duration(TimeUnit::Microsecond),
        TypeDescriptor::Duration(TimeUnit::Nanosecond),
        TypeDescriptor::List(Box::new(TypeDescriptor::Int64)),
        TypeDescriptor::LargeList(Box::new(TypeDescriptor::Utf8)),
        TypeDescriptor::FixedSizeList(Box::new(TypeDescriptor::Int32), 2),
        TypeDescriptor::List(Box::new(TypeDescriptor::List(Box::new(TypeDescriptor::Boolean)))),
    ]
}

#[test]
fn test_udf_name_and_signature() {
    let udf = GreatestUDF;
    assert_eq!(udf.name(), "greatest");
    assert_eq!(
        udf.signature(),
        Signature { type_signature: TypeSignature::VariadicAny, volatility: Volatility::Immutable }
    );
}

#[test]
fn test_udf_return_type() {
    let udf = GreatestUDF;
    let types = vec![TypeDescriptor::Int64, TypeDescriptor::Int64, TypeDescriptor::Int64];
    let result = udf.return_type(&types);
    assert_eq!(result.unwrap(), TypeDescriptor::Int64);
}

#[test]
fn test_udf_return_type_mismatch() {
    let udf = GreatestUDF;
    let types = vec![TypeDescriptor::Int64, TypeDescriptor::Utf8, TypeDescriptor::Int64];
    let result = udf.return_type(&types);
    assert!(result.is_err());
    let err = result.unwrap_err();
    assert!(matches!(err, ErrorKind::TypeConsistencyError));
    assert_eq!(
        err.message(),
        "greatest() requires all arguments to have the same type".to_string()
    );
}

#[test]
fn test_udf_return_type_arity() {
    let udf = GreatestUDF;
    let result = udf.return_type(&[TypeDescriptor::Int64]);
    assert!(matches!(result.unwrap_err(), ErrorKind::ArityError));
    let result = udf.return_type(&[]);
    assert!(matches!(result.unwrap_err(), ErrorKind::ArityError));
}

#[test]
fn test_udf_invoke() {
    let udf = GreatestUDF;
    let input = vec![
        ColumnarValue::Column(int64_column(vec![Some(1), Some(9)])),
        ColumnarValue::Column(int64_column(vec![Some(5), Some(3)])),
    ];
    let result = udf.invoke(&input).unwrap();
    assert_eq!(result, int64_column(vec![Some(5), Some(9)]));
}

#[test]
fn test_empty_builder_roundtrip() {
    let expected = supported_descriptors();
    for (descriptor, expected) in supported_descriptors().iter().zip(expected) {
        let builder = make_builder(descriptor, 7).unwrap();
        let column = builder.finish();
        assert_eq!(column.len(), 0);
        assert_eq!(column.dtype, expected);
    }
}

#[test]
fn test_unsupported_type() {
    for descriptor in [
        TypeDescriptor::Time32(TimeUnit::Microsecond),
        TypeDescriptor::Time32(TimeUnit::Nanosecond),
        TypeDescriptor::Time64(TimeUnit::Second),
        TypeDescriptor::Time64(TimeUnit::Millisecond),
        TypeDescriptor::List(Box::new(TypeDescriptor::Time32(TimeUnit::Nanosecond))),
    ] {
        match make_builder(&descriptor, 4) {
            Err(ErrorKind::UnsupportedType(u)) => {
                assert!(matches!(u, TypeDescriptor::Time32(_) | TypeDescriptor::Time64(_)));
            }
            _ => panic!("expected an unsupported-type error"),
        }
    }
    match make_builder(&TypeDescriptor::Time32(TimeUnit::Nanosecond), 1) {
        Err(e) => {
            assert_eq!(e.message(), "Data type Time32 is not currently supported".to_string());
        }
        Ok(_) => panic!("expected an unsupported-type error"),
    }
}

fn int64_list_column(rows: Vec<Vec<Option<i64>>>) -> Column {
    let mut builder =
        make_builder(&TypeDescriptor::List(Box::new(TypeDescriptor::Int64)), rows.len()).unwrap();
    for row in rows {
        let row_col = int64_column(row);
        builder
            .append_scalar_value(ScalarValue::List(Box::new(TypeDescriptor::Int64), Some(row_col)))
            .unwrap();
    }
    builder.finish()
}

#[test]
fn test_greatest_list_null_elements_win() {
    let input = vec![
        ColumnarValue::Column(int64_list_column(vec![vec![None]])),
        ColumnarValue::Column(int64_list_column(vec![vec![Some(0)]])),
    ];
    let result = greatest(&input).unwrap();
    assert_eq!(result, int64_list_column(vec![vec![None]]));

    let input = vec![
        ColumnarValue::Column(int64_list_column(vec![vec![Some(2), None]])),
        ColumnarValue::Column(int64_list_column(vec![vec![Some(2), Some(9)]])),
    ];
    let result = greatest(&input).unwrap();
    assert_eq!(result, int64_list_column(vec![vec![Some(2), None]]));
}

#[test]
fn test_greatest_nested_lists_incomparable() {
    let nested_column = |inner: Vec<i64>| -> Column {
        let elem = || TypeDescriptor::List(Box::new(TypeDescriptor::Int64));
        let mut builder = make_builder(&TypeDescriptor::List(Box::new(elem())), 1).unwrap();
        let inner_row = int64_list_column(vec![inner.into_iter().map(Some).collect()]);
        builder
            .append_scalar_value(ScalarValue::List(Box::new(elem()), Some(inner_row)))
            .unwrap();
        builder.finish()
    };
    let input = vec![
        ColumnarValue::Column(nested_column(vec![1])),
        ColumnarValue::Column(nested_column(vec![2])),
    ];
    let result = greatest(&input).unwrap();
    assert_eq!(result, nested_column(vec![1]));
}

#[test]
fn test_greatest_decimals_ignore_precision() {
    let input = vec![
        ColumnarValue::Scalar(ScalarValue::Decimal128(Some(150), 10, 2)),
        ColumnarValue::Scalar(ScalarValue::Decimal128(Some(201), 24, 2)),
    ];
    let result = greatest(&input).unwrap();
    let mut builder = make_builder(&TypeDescriptor::Decimal128(10, 2), 1).unwrap();
    builder.append_scalar_value(ScalarValue::Decimal128(Some(201), 10, 2)).unwrap();
    assert_eq!(result, builder.finish());
}

#[test]
fn test_builder_type_mismatch() {
    let mut builder = make_builder(&TypeDescriptor::Int64, 2).unwrap();
    let err = builder
        .append_scalar_value(ScalarValue::Utf8(Some("seven".to_string())))
        .unwrap_err();
    assert!(matches!(err, ErrorKind::TypeMismatch));
    assert_eq!(err.message(), "Invalid scalar value for builder".to_string());
    builder.append_scalar_value(ScalarValue::Int64(Some(7))).unwrap();
    let column = builder.finish();
    assert_eq!(column, int64_column(vec![Some(7)]));
}

#[test]
fn test_greatest_mixed_input_types() {
    let input = vec![
        ColumnarValue::Column(int64_column(vec![None])),
        ColumnarValue::Column(utf8_column(vec![Some("one")])),
    ];
    let result = greatest(&input);
    assert!(matches!(result, Err(ErrorKind::TypeMismatch)));
}

#[test]
fn test_greatest_strings() {
    let input = vec![
        ColumnarValue::Column(utf8_column(vec![Some("apple"), Some("zebra"), None])),
        ColumnarValue::Column(utf8_column(vec![Some("banana"), Some("yellow"), Some("ant")])),
    ];
    let result = greatest(&input).unwrap();
    assert_eq!(result, utf8_column(vec![Some("banana"), Some("zebra"), Some("ant")]));
}

#[test]
fn test_greatest_scalar_arguments() {
    let input = vec![
        ColumnarValue::Scalar(ScalarValue::Int64(Some(5))),
        ColumnarValue::Column(int64_column(vec![Some(1), Some(7), None])),
    ];
    let result = greatest(&input).unwrap();
    assert_eq!(result, int64_column(vec![Some(5), Some(7), Some(5)]));
}

#[test]
fn test_greatest_idempotent_inputs() {
    let input = vec![
        ColumnarValue::Column(int64_column(vec![Some(4), None, Some(-2)])),
        ColumnarValue::Column(int64_column(vec![Some(4), None, Some(-2)])),
        ColumnarValue::Column(int64_column(vec![Some(4), None, Some(-2)])),
    ];
    let result = greatest(&input).unwrap();
    assert_eq!(result, int64_column(vec![Some(4), None, Some(-2)]));
}

#[test]
fn test_greatest_equal_values() {
    let input = vec![
        ColumnarValue::Column(int64_column(vec![Some(5)])),
        ColumnarValue::Column(int64_column(vec![Some(5)])),
    ];
    let result = greatest(&input).unwrap();
    assert_eq!(result, int64_column(vec![Some(5)]));
}

#[test]
fn test_greatest_negative_floats() {
    let float_column = |data: Vec<f64>| -> Column {
        let mut builder = make_builder(&TypeDescriptor::Float64, data.len()).unwrap();
        for v in data {
            builder
                .append_scalar_value(ScalarValue::Float64(Some(v.to_bits())))
                .unwrap();
        }
        builder.finish()
    };
    let input = vec![
        ColumnarValue::Column(float_column(vec![-1.0, -3.0, -0.0])),
        ColumnarValue::Column(float_column(vec![2.0, -2.0, 0.0])),
    ];
    let result = greatest(&input).unwrap();
    assert_eq!(result, float_column(vec![2.0, -2.0, 0.0]));
}

#[test]
fn test_greatest_binary() {
    let binary_column = |data: Vec<Vec<u8>>| -> Column {
        let mut builder = make_builder(&TypeDescriptor::Binary, data.len()).unwrap();
        for v in data {
            builder
                .append_scalar_value(ScalarValue::Binary(Some(v)))
                .unwrap();
        }
        builder.finish()
    };
    let input = vec![
        ColumnarValue::Column(binary_column(vec![vec![1, 2], vec![9]])),
        ColumnarValue::Column(binary_column(vec![vec![1, 3], vec![9, 0]])),
    ];
    let result = greatest(&input).unwrap();
    assert_eq!(result, binary_column(vec![vec![1, 3], vec![9, 0]]));
}

#[test]
fn test_greatest_decimals() {
    let decimal_column = |data: Vec<Option<i128>>| -> Column {
        let mut builder = make_builder(&TypeDescriptor::Decimal128(10, 2), data.len()).unwrap();
        for v in data {
            builder
                .append_scalar_value(ScalarValue::Decimal128(v, 10, 2))
                .unwrap();
        }
        builder.finish()
    };
    let input = vec![
        ColumnarValue::Column(decimal_column(vec![Some(150), None])),
        ColumnarValue::Column(decimal_column(vec![Some(99), Some(-5)])),
    ];
    let result = greatest(&input).unwrap();
    assert_eq!(result, decimal_column(vec![Some(150), Some(-5)]));
}

#[test]
fn test_greatest_timestamps_keep_timezone() {
    let ts_column = |data: Vec<Option<i64>>| -> Column {
        let dtype = TypeDescriptor::Timestamp(TimeUnit::Second, Some("UTC".to_string()));
        let mut builder = make_builder(&dtype, data.len()).unwrap();
        for v in data {
            builder
                .append_scalar_value(ScalarValue::TimestampSecond(v, Some("UTC".to_string())))
                .unwrap();
        }
        builder.finish()
    };
    let input = vec![
        ColumnarValue::Column(ts_column(vec![Some(10)])),
        ColumnarValue::Column(ts_column(vec![Some(20)])),
    ];
    let result = greatest(&input).unwrap();
    assert_eq!(
        result.dtype,
        TypeDescriptor::Timestamp(TimeUnit::Second, Some("UTC".to_string()))
    );
    assert_eq!(result, ts_column(vec![Some(20)]));
}

#[test]
fn test_fixed_size_binary_length_check() {
    let mut builder = make_builder(&TypeDescriptor::FixedSizeBinary(2), 2).unwrap();
    let err = builder
        .append_scalar_value(ScalarValue::FixedSizeBinary(2, Some(vec![1, 2, 3])))
        .unwrap_err();
    assert!(matches!(err, ErrorKind::TypeMismatch));
    builder
        .append_scalar_value(ScalarValue::FixedSizeBinary(2, Some(vec![1, 2])))
        .unwrap();
    assert_eq!(builder.finish().len(), 1);
}

#[test]
fn test_builder_finish_cloned_snapshot() {
    let mut builder = make_builder(&TypeDescriptor::Int64, 2).unwrap();
    builder.append_scalar_value(ScalarValue::Int64(Some(3))).unwrap();
    let snapshot = builder.finish_cloned();
    builder.append_scalar_value(ScalarValue::Int64(None)).unwrap();
    let finished = builder.finish();
    assert_eq!(snapshot, int64_column(vec![Some(3)]));
    assert_eq!(finished, int64_column(vec![Some(3), None]));
}

#[test]
fn test_greatest_fixed_size_lists() {
    let fsl_column = |rows: Vec<Vec<i32>>| -> Column {
        let dtype = TypeDescriptor::FixedSizeList(Box::new(TypeDescriptor::Int32), 2);
        let mut builder = make_builder(&dtype, rows.len()).unwrap();
        for row in rows {
            let mut elems = make_builder(&TypeDescriptor::Int32, row.len()).unwrap();
            for v in row {
                elems.append_scalar_value(ScalarValue::Int32(Some(v))).unwrap();
            }
            builder
                .append_scalar_value(ScalarValue::FixedSizeList(
                    Box::new(TypeDescriptor::Int32),
                    2,
                    Some(elems.finish()),
                ))
                .unwrap();
        }
        builder.finish()
    };
    let input = vec![
        ColumnarValue::Column(fsl_column(vec![vec![3, 1]])),
        ColumnarValue::Column(fsl_column(vec![vec![3, 2]])),
    ];
    let result = greatest(&input).unwrap();
    assert_eq!(result, fsl_column(vec![vec![3, 2]]));
}
