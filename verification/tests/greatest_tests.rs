use greatest_udf::greatest;
use greatest_udf::make_builder;
use greatest_udf::Column;
use greatest_udf::ColumnarValue;
use greatest_udf::ErrorKind;
use greatest_udf::ScalarValue;
use greatest_udf::TypeDescriptor;

fn create_array(data: Vec<Option<i64>>) -> Column {
    let mut builder = make_builder(&TypeDescriptor::Int64, data.len()).unwrap();
    for v in data {
        builder.append_scalar_value(ScalarValue::Int64(v)).unwrap();
    }
    builder.finish()
}

fn create_column_values(data: Vec<Vec<Option<i64>>>) -> Vec<ColumnarValue> {
    data.into_iter()
        .map(|data| ColumnarValue::Column(create_array(data)))
        .collect()
}

fn create_float_array(data: Vec<f64>) -> Column {
    let mut builder = make_builder(&TypeDescriptor::Float64, data.len()).unwrap();
    for v in data {
        builder
            .append_scalar_value(ScalarValue::Float64(Some(v.to_bits())))
            .unwrap();
    }
    builder.finish()
}

fn create_list_array(rows: Vec<Vec<i64>>) -> Column {
    let mut builder =
        make_builder(&TypeDescriptor::List(Box::new(TypeDescriptor::Int64)), rows.len()).unwrap();
    for row in rows {
        let row_col = create_array(row.into_iter().map(Some).collect());
        builder
            .append_scalar_value(ScalarValue::List(Box::new(TypeDescriptor::Int64), Some(row_col)))
            .unwrap();
    }
    builder.finish()
}

#[test]
fn test_greatest_basics() {
    let input = create_column_values(vec![vec![Some(100)], vec![Some(1)]]);

    let result = greatest(&input);
    assert!(result.is_ok());
    let result = result.unwrap();

    let answer = create_array(vec![Some(100)]);

    assert_eq!(&result, &answer);
}

#[test]
fn test_greatest_basics2() {
    let input = create_column_values(vec![
        vec![Some(1), Some(4), Some(7)],
        vec![Some(2), Some(5), Some(8)],
        vec![Some(3), Some(6), Some(9)],
    ]);

    let result = greatest(&input);
    assert!(result.is_ok());
    let result = result.unwrap();

    let answer = create_array(vec![Some(3), Some(6), Some(9)]);

    assert_eq!(&result, &answer);
}

#[test]
fn test_greatest_basics3() {
    let input = vec![vec![1.0, 50.0, 100.0], vec![2.0, 25.0, 100.0]];
    let input = input
        .into_iter()
        .map(|data| ColumnarValue::Column(create_float_array(data)))
        .collect::<Vec<_>>();

    let result = greatest(&input);
    assert!(result.is_ok());
    let result = result.unwrap();

    let answer = create_float_array(vec![2.0, 50.0, 100.0]);

    assert_eq!(&result, &answer);
}

#[test]
fn test_greatest_args_validation1() {
    let input = create_column_values(vec![vec![Some(1), Some(4), Some(7)]]);

    let result = greatest(&input);
    assert!(result.is_err());
    let result = result.unwrap_err();

    assert!(matches!(result, ErrorKind::ArityError));

    let answer = "greatest() requires at least two argument".to_string();

    assert_eq!(result.message(), answer);
}

#[test]
fn test_greatest_args_validation2() {
    let result = greatest(&[]);
    assert!(result.is_err());
    let result = result.unwrap_err();

    assert!(matches!(result, ErrorKind::ArityError));

    let answer = "greatest() requires at least two argument".to_string();

    assert_eq!(result.message(), answer);
}

#[test]
fn test_greatest_nulls() {
    let input = create_column_values(vec![
        vec![None, Some(4), Some(7)],
        vec![Some(2), None, Some(8)],
        vec![Some(3), Some(6), None],
    ]);

    let result = greatest(&input);
    assert!(result.is_ok());
    let result = result.unwrap();

    let answer = create_array(vec![Some(3), Some(6), Some(8)]);

    assert_eq!(&result, &answer);
}

#[test]
fn test_greatest_null_rows() {
    let input = create_column_values(vec![
        vec![None, Some(4), Some(7)],
        vec![Some(2), None, Some(8)],
        vec![None, None, None],
    ]);

    let result = greatest(&input);
    assert!(result.is_ok());
    let result = result.unwrap();

    let answer = create_array(vec![Some(2), Some(4), Some(8)]);

    assert_eq!(&result, &answer);
}

#[test]
fn test_greatest_all_nulls() {
    let input = create_column_values(vec![
        vec![None, None, None],
        vec![None, None, None],
        vec![None, None, None],
    ]);

    let result = greatest(&input);
    assert!(result.is_ok());
    let result = result.unwrap();

    let answer = create_array(vec![None, None, None]);

    assert_eq!(&result, &answer);
}

#[test]
fn test_greatest_lists() {
    let input = vec![
        ColumnarValue::Column(create_list_array(vec![vec![2, 1]])),
        ColumnarValue::Column(create_list_array(vec![vec![1, 4]])),
    ];

    let result = greatest(&input);
    assert!(result.is_ok());
    let result = result.unwrap();

    let answer = create_list_array(vec![vec![2, 1]]);

    assert_eq!(&result, &answer);
}
