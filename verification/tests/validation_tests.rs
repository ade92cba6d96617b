use clamsform::validation::{
    ValidationError, validate_dataframe, validate_dataframe_parallel, validate_infinite_values,
    validate_missing_values, validate_nan_values, validate_not_empty_df, validate_numeric_columns,
};
use clamsform::validation::ValidationError::{
    EmptyDataFrameError, InfiniteValuesError, MissingValuesError, NanValuesError, NonNumericError,
};
use polars::prelude::{Column, DataFrame, NamedFrom, Series};

fn frame(cols: Vec<Column>) -> DataFrame {
    DataFrame::new_infer_height(cols).unwrap()
}

fn create_invalid_df() -> DataFrame {
    frame(vec![
        Series::new("float_valid".into(), &[1.0f64, 2.0, 3.0]).into(),
        Series::new("float_nan".into(), &[1.0f64, f64::NAN, 3.0]).into(),
        Series::new("float_inf".into(), &[1.0f64, f64::INFINITY, 3.0]).into(),
        Series::new("int_col".into(), &[1i32, 2, 3]).into(),
        Series::new("nulls".into(), &[Some(1.0f64), None, Some(3.0)]).into(),
    ])
}

fn create_valid_df() -> DataFrame {
    frame(vec![
        Series::new("col1".into(), &[1.0f32, 2.0, 3.0]).into(),
        Series::new("col2".into(), &[4.0f64, 5.0, 6.0]).into(),
    ])
}

#[test]
fn test_validate_not_empty_df() {
    let invalid_df = DataFrame::default();
    let result = validate_not_empty_df(&invalid_df);
    assert!(matches!(
        result,
        Err(ValidationError::EmptyDataFrameError { rows: _, columns: _ })
    ));

    let valid_df = create_valid_df();
    assert!(validate_not_empty_df(&valid_df).is_ok());
}

#[test]
fn test_validate_numeric_columns() {
    let invalid_df = create_invalid_df();
    let result = validate_numeric_columns(&invalid_df);
    assert!(matches!(result, Err(ValidationError::NonNumericError(_))));

    let valid_df = create_valid_df();
    assert!(validate_numeric_columns(&valid_df).is_ok());
}

#[test]
fn test_validate_nan_values() {
    let invalid_df = create_invalid_df();
    let result = validate_nan_values(&invalid_df);
    assert!(matches!(result, Err(ValidationError::NanValuesError(_))));

    let valid_df = create_valid_df();
    assert!(validate_nan_values(&valid_df).is_ok());
}

#[test]
fn test_validate_infinite_values() {
    let invalid_df = create_invalid_df();
    let result = validate_infinite_values(&invalid_df);
    assert!(matches!(result, Err(ValidationError::InfiniteValuesError(_))));

    let valid_df = create_valid_df();
    assert!(validate_infinite_values(&valid_df).is_ok());
}

#[test]
fn test_validate_missing_values() {
    let invalid_df = create_invalid_df();
    let result = validate_missing_values(&invalid_df);
    assert!(matches!(result, Err(ValidationError::MissingValuesError(_))));

    let valid_df = create_valid_df();
    assert!(validate_missing_values(&valid_df).is_ok());
}

#[test]
fn test_validate_dataframe() {
    let invalid_df = create_invalid_df();
    let result = validate_dataframe(&invalid_df);
    assert!(result.is_err());

    let valid_df = create_valid_df();
    assert!(validate_dataframe(&valid_df).is_ok());
}

#[test]
fn test_offending_columns_are_named() {
    let invalid_df = create_invalid_df();
    match validate_numeric_columns(&invalid_df) {
        Err(ValidationError::NonNumericError(cols)) => assert_eq!(cols, "int_col"),
        other => panic!("expected NonNumericError, got {:?}", other),
    }
    match validate_nan_values(&invalid_df) {
        Err(ValidationError::NanValuesError(cols)) => assert_eq!(cols, "float_nan"),
        other => panic!("expected NanValuesError, got {:?}", other),
    }
    match validate_infinite_values(&invalid_df) {
        Err(ValidationError::InfiniteValuesError(cols)) => assert_eq!(cols, "float_inf"),
        other => panic!("expected InfiniteValuesError, got {:?}", other),
    }
    match validate_missing_values(&invalid_df) {
        Err(ValidationError::MissingValuesError(cols)) => assert_eq!(cols, "nulls"),
        other => panic!("expected MissingValuesError, got {:?}", other),
    }
}

#[test]
fn test_multiple_offenders_joined_in_order() {
    let df = frame(vec![
        Series::new("a".into(), &[1i32, 2]).into(),
        Series::new("mid".into(), &[1.0f64, 2.0]).into(),
        Series::new("b".into(), &["x", "y"]).into(),
    ]);
    match validate_numeric_columns(&df) {
        Err(ValidationError::NonNumericError(cols)) => assert_eq!(cols, "a, b"),
        other => panic!("expected NonNumericError, got {:?}", other),
    }
}

#[test]
fn test_empty_table_priority() {
    // Zero rows wins over every other defect: an empty frame with a
    // non-numeric column still reports the empty-table error.
    let df = frame(vec![
        Series::new("words".into(), &[""; 0]).into(),
        Series::new("numbers".into(), &[0.0f64; 0]).into(),
    ]);
    match validate_dataframe(&df) {
        Err(ValidationError::EmptyDataFrameError { rows, columns }) => {
            assert_eq!(rows, 0);
            assert_eq!(columns, 2);
        }
        other => panic!("expected EmptyDataFrameError, got {:?}", other),
    }
    match validate_dataframe_parallel(&df) {
        Err(ValidationError::EmptyDataFrameError { rows, columns }) => {
            assert_eq!(rows, 0);
            assert_eq!(columns, 2);
        }
        other => panic!("expected EmptyDataFrameError, got {:?}", other),
    }
}

fn assert_same_verdict(a: Result<(), ValidationError>, b: Result<(), ValidationError>) {
    match (a, b) {
        (Ok(()), Ok(())) => {}
        (
            Err(EmptyDataFrameError {
                rows: r1,
                columns: c1,
            }),
            Err(EmptyDataFrameError {
                rows: r2,
                columns: c2,
            }),
        ) => {
            assert_eq!(r1, r2);
            assert_eq!(c1, c2);
        }
        (Err(NonNumericError(s1)), Err(NonNumericError(s2))) => assert_eq!(s1, s2),
        (Err(NanValuesError(s1)), Err(NanValuesError(s2))) => assert_eq!(s1, s2),
        (Err(InfiniteValuesError(s1)), Err(InfiniteValuesError(s2))) => assert_eq!(s1, s2),
        (Err(MissingValuesError(s1)), Err(MissingValuesError(s2))) => assert_eq!(s1, s2),
        (x, y) => panic!("verdicts differ: {:?} vs {:?}", x, y),
    }
}

#[test]
fn test_sequential_parallel_equivalence() {
    let frames = vec![
        create_valid_df(),
        create_invalid_df(),
        DataFrame::default(),
        frame(vec![
            Series::new("text".into(), &["a", "b"]).into(),
            Series::new("vals".into(), &[1.0f64, f64::NAN]).into(),
        ]),
        frame(vec![
            Series::new("only_nan".into(), &[f64::NAN, 1.0]).into(),
        ]),
    ];
    for df in frames {
        assert_same_verdict(validate_dataframe(&df), validate_dataframe_parallel(&df));
    }
}

#[test]
fn test_validation_idempotent() {
    let frames = vec![create_valid_df(), create_invalid_df(), DataFrame::default()];
    for df in frames {
        assert_same_verdict(validate_dataframe(&df), validate_dataframe(&df));
        assert_same_verdict(
            validate_dataframe_parallel(&df),
            validate_dataframe_parallel(&df),
        );
    }
}

#[test]
fn test_predicate_failure_is_not_a_violation() {
    // The NaN and infinity scans cannot be evaluated for a text column;
    // those checks pass for it instead of failing the whole table.
    let df = frame(vec![Series::new("text".into(), &["a", "b"]).into()]);
    assert!(validate_nan_values(&df).is_ok());
    assert!(validate_infinite_values(&df).is_ok());
    assert!(matches!(
        validate_dataframe(&df),
        Err(ValidationError::NonNumericError(_))
    ));
}
