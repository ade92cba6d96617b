use clamsform::scaling::ScalingError;
use clamsform::validation::ValidationError;
use clamsform::z_score::{FeatureScaler, ZScoreScaler};
use polars::prelude::{Column, DataFrame, NamedFrom, Series};

fn frame(cols: Vec<Column>) -> DataFrame {
    DataFrame::new_infer_height(cols).unwrap()
}

fn create_valid_df() -> DataFrame {
    frame(vec![
        Series::new("feature1".into(), &[1.0f64, 2.0, 3.0, 4.0, 5.0]).into(),
        Series::new("feature2".into(), &[10.0f64, 20.0, 30.0, 40.0, 50.0]).into(),
    ])
}

fn create_standardized_df() -> DataFrame {
    frame(vec![
        Series::new("feature1".into(), &[-1.26f64, -0.63, 0.0, 0.63, 1.26]).into(),
        Series::new("feature2".into(), &[-1.26f64, -0.63, 0.0, 0.63, 1.26]).into(),
    ])
}

fn column_values(df: &DataFrame, name: &str) -> Vec<f64> {
    df.column(name)
        .unwrap()
        .as_materialized_series()
        .f64()
        .unwrap()
        .into_no_null_iter()
        .collect()
}

#[test]
fn test_new_constructor() {
    let z_score_scaler = ZScoreScaler::new();
    assert!(z_score_scaler.mean().is_none());
    assert!(z_score_scaler.std_dev().is_none());
}

#[test]
fn test_default_constructor() {
    let z_score_scaler = ZScoreScaler::default();
    assert!(z_score_scaler.mean().is_none());
    assert!(z_score_scaler.std_dev().is_none());
}

#[test]
fn test_getter_methods() {
    let mut z_score_scaler = ZScoreScaler::new();

    assert!(z_score_scaler.mean().is_none());
    assert!(z_score_scaler.std_dev().is_none());

    let expected_mean = frame(vec![
        Series::new("feature1".into(), &[3.0f64]).into(),
        Series::new("feature2".into(), &[30.0f64]).into(),
    ]);
    let expected_std = frame(vec![
        Series::new("feature1".into(), &[1.58f64]).into(),
        Series::new("feature2".into(), &[15.81f64]).into(),
    ]);

    let _ = z_score_scaler
        .standardize(&create_valid_df(), 2)
        .expect("Standardization failed");

    assert_eq!(z_score_scaler.mean().unwrap(), &expected_mean);
    assert_eq!(z_score_scaler.std_dev().unwrap(), &expected_std);
}

#[test]
fn test_standardization_method_mean() {
    let valid_df = create_valid_df();
    let mut z_score_scaler = ZScoreScaler::new();

    let expected_mean_df = frame(vec![
        Series::new("feature1".into(), &[3.0f64]).into(),
        Series::new("feature2".into(), &[30.0f64]).into(),
    ]);

    let _ = z_score_scaler
        .standardize(&valid_df, 2)
        .expect("Standardization failed");

    let actual_mean_df = z_score_scaler.mean().unwrap();

    assert_eq!(*actual_mean_df, expected_mean_df);
}

#[test]
fn test_standardization_method_std() {
    let valid_df = create_valid_df();
    let mut z_score_scaler = ZScoreScaler::new();

    let expected_std_df = frame(vec![
        Series::new("feature1".into(), &[1.58f64]).into(),
        Series::new("feature2".into(), &[15.81f64]).into(),
    ]);

    let _ = z_score_scaler
        .standardize(&valid_df, 2)
        .expect("Standardization failed");

    let actual_std_df = z_score_scaler.std_dev().unwrap();

    assert_eq!(*actual_std_df, expected_std_df);
}

#[test]
fn test_standardization_method() {
    let valid_df = create_valid_df();
    let mut z_score_scaler = ZScoreScaler::new();

    let expected_standardized_df = create_standardized_df();

    let actual_standardized_df = z_score_scaler
        .standardize(&valid_df, 2)
        .expect("Standardization failed");

    assert_eq!(actual_standardized_df, expected_standardized_df);
}

#[test]
fn test_reset_method() {
    let mut z_score_scaler = ZScoreScaler::new();

    let _ = z_score_scaler
        .standardize(&create_valid_df(), 2)
        .expect("Standardization failed");
    assert!(z_score_scaler.mean().is_some());
    assert!(z_score_scaler.std_dev().is_some());

    z_score_scaler.reset();
    assert!(z_score_scaler.mean().is_none());
    assert!(z_score_scaler.std_dev().is_none());
}

#[test]
fn test_concrete_statistics() {
    // feature1 = [1..5]: mean 3.0, sample std (ddof = 1) ~1.5811388;
    // feature2 = 10 * feature1: mean 30.0, sample std ~15.811388.
    let mut scaler = ZScoreScaler::new();
    let out = scaler
        .standardize(&create_valid_df(), 7)
        .expect("Standardization failed");

    let means = scaler.mean().unwrap();
    assert_eq!(column_values(means, "feature1"), vec![3.0]);
    assert_eq!(column_values(means, "feature2"), vec![30.0]);

    let stds = scaler.std_dev().unwrap();
    assert!((column_values(stds, "feature1")[0] - 1.5811388).abs() < 1e-6);
    assert!((column_values(stds, "feature2")[0] - 15.811388).abs() < 1e-6);

    let expected = [-1.2649111f64, -0.6324555, 0.0, 0.6324555, 1.2649111];
    for (actual, want) in column_values(&out, "feature1").iter().zip(expected.iter()) {
        assert!((actual - want).abs() < 1e-6, "{} vs {}", actual, want);
    }
}

#[test]
fn test_moments_of_standardized_output() {
    // With enough retained precision, each standardized column has mean
    // ~0 and sample standard deviation ~1.
    let df = frame(vec![
        Series::new("a".into(), &[1.5f64, 2.25, 8.0, -3.5, 0.75, 12.125]).into(),
        Series::new("b".into(), &[100.0f64, 80.0, 120.5, 95.25, 61.125, 99.875]).into(),
    ]);
    let mut scaler = ZScoreScaler::new();
    let out = scaler.standardize(&df, 10).expect("Standardization failed");

    for name in ["a", "b"] {
        let values = column_values(&out, name);
        let n = values.len() as f64;
        let mean = values.iter().sum::<f64>() / n;
        let var = values.iter().map(|v| (v - mean) * (v - mean)).sum::<f64>() / (n - 1.0);
        assert!(mean.abs() < 1e-6, "column {} mean {}", name, mean);
        assert!((var.sqrt() - 1.0).abs() < 1e-6, "column {} std {}", name, var.sqrt());
    }
}

#[test]
fn test_deterministic_output_under_rounding() {
    // Standardizing the same table twice with the same precision gives a
    // bit-identical table.
    let df = create_valid_df();
    let mut first = ZScoreScaler::new();
    let mut second = ZScoreScaler::new();
    let out1 = first.standardize(&df, 3).expect("Standardization failed");
    let out2 = second.standardize(&df, 3).expect("Standardization failed");
    assert_eq!(out1, out2);
    let bits1: Vec<u64> = column_values(&out1, "feature1").iter().map(|v| v.to_bits()).collect();
    let bits2: Vec<u64> = column_values(&out2, "feature1").iter().map(|v| v.to_bits()).collect();
    assert_eq!(bits1, bits2);
}

#[test]
fn test_scaler_lifecycle() {
    // transform before any fit fails; after reset it fails again; after
    // standardize it succeeds.
    let df = create_valid_df();
    let mut scaler = ZScoreScaler::new();

    assert!(matches!(
        scaler.transform(&df, 2),
        Err(ScalingError::UninitializedScaler(_))
    ));

    let _ = scaler.standardize(&df, 2).expect("Standardization failed");
    assert!(scaler.transform(&df, 2).is_ok());

    scaler.reset();
    assert!(matches!(
        scaler.transform(&df, 2),
        Err(ScalingError::UninitializedScaler(_))
    ));
}

#[test]
fn test_transform_uses_stored_statistics() {
    // Fit on one table, transform another: the stored mean 3.0 and std
    // ~1.58 are applied, not statistics of the new table.
    let mut scaler = ZScoreScaler::new();
    let _ = scaler
        .standardize(
            &frame(vec![
                Series::new("feature".into(), &[1.0f64, 2.0, 3.0, 4.0, 5.0]).into(),
            ]),
            7,
        )
        .expect("Standardization failed");

    let other = frame(vec![
        Series::new("feature".into(), &[3.0f64, 4.5811388]).into(),
    ]);
    let out = scaler.transform(&other, 7).expect("Transform failed");
    let values = column_values(&out, "feature");
    assert!(values[0].abs() < 1e-6);
    assert!((values[1] - 1.0).abs() < 1e-4);
}

#[test]
fn test_transform_revalidates_input() {
    let mut scaler = ZScoreScaler::new();
    let _ = scaler
        .standardize(&create_valid_df(), 2)
        .expect("Standardization failed");

    let bad = frame(vec![
        Series::new("feature1".into(), &[1.0f64, f64::NAN]).into(),
        Series::new("feature2".into(), &[1.0f64, 2.0]).into(),
    ]);
    assert!(matches!(
        scaler.transform(&bad, 2),
        Err(ScalingError::ValidationError(ValidationError::NanValuesError(_)))
    ));
}

#[test]
fn test_constant_column_rejected() {
    // A column with a single repeated value has standard deviation zero:
    // the scaler reports it by name, returns no output table, and stays
    // untrained — it is fitted only by a successful call.
    let df = frame(vec![
        Series::new("const_col".into(), &[5.0f64, 5.0, 5.0, 5.0]).into(),
        Series::new("moving".into(), &[1.0f64, 2.0, 3.0, 4.0]).into(),
    ]);
    let mut scaler = ZScoreScaler::new();
    match scaler.standardize(&df, 4) {
        Err(ScalingError::ZeroDenominatorError(metric, cols)) => {
            assert_eq!(metric, "standard deviation");
            assert_eq!(cols, "const_col");
        }
        other => panic!("expected ZeroDenominatorError, got {:?}", other),
    }
    assert!(scaler.mean().is_none());
    assert!(scaler.std_dev().is_none());
    assert!(matches!(
        scaler.transform(&df, 4),
        Err(ScalingError::UninitializedScaler(_))
    ));
}

#[test]
fn test_failed_standardize_keeps_previous_fit() {
    // A fitted scaler hit by a failing standardize keeps the statistics
    // of its last successful fit, and transform still applies them.
    let mut scaler = ZScoreScaler::new();
    let _ = scaler
        .standardize(&create_valid_df(), 2)
        .expect("Standardization failed");
    let mean_before = scaler.mean().unwrap().clone();
    let std_before = scaler.std_dev().unwrap().clone();

    let flat = frame(vec![
        Series::new("feature1".into(), &[7.0f64, 7.0]).into(),
        Series::new("feature2".into(), &[1.0f64, 2.0]).into(),
    ]);
    assert!(matches!(
        scaler.standardize(&flat, 2),
        Err(ScalingError::ZeroDenominatorError(..))
    ));
    assert_eq!(scaler.mean().unwrap(), &mean_before);
    assert_eq!(scaler.std_dev().unwrap(), &std_before);
    assert!(scaler.transform(&create_valid_df(), 2).is_ok());
}

#[test]
fn test_invalid_table_rejected_and_state_kept() {
    let mut scaler = ZScoreScaler::new();
    let bad = frame(vec![Series::new("ints".into(), &[1i32, 2, 3]).into()]);
    assert!(matches!(
        scaler.standardize(&bad, 2),
        Err(ScalingError::ValidationError(ValidationError::NonNumericError(_)))
    ));
    assert!(scaler.mean().is_none());
    assert!(scaler.std_dev().is_none());
}

#[test]
fn test_rounding_applies_to_output() {
    // The rounded standard deviation can collapse to zero even when the
    // exact one does not: the guard runs on the stored, rounded value.
    let df = frame(vec![
        Series::new("narrow".into(), &[0.000f64, 0.001, 0.002]).into(),
    ]);
    let mut scaler = ZScoreScaler::new();
    assert!(matches!(
        scaler.standardize(&df, 2),
        Err(ScalingError::ZeroDenominatorError(..))
    ));
    assert!(scaler.standardize(&df, 6).is_ok());
}

fn fit_with<S: FeatureScaler>(scaler: &mut S, df: &DataFrame) -> Result<DataFrame, ScalingError> {
    scaler.standardize(df, 2)
}

#[test]
fn test_feature_scaler_trait() {
    let mut scaler = ZScoreScaler::new();
    let out = fit_with(&mut scaler, &create_valid_df()).expect("Standardization failed");
    assert_eq!(out, create_standardized_df());
    FeatureScaler::reset(&mut scaler);
    assert!(scaler.mean().is_none());
}
