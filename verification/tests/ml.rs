use hardy_monitor::ml::cross_validation::{Fold, TimeSeriesSplit};
use hardy_monitor::ml::hyperparameter::HyperparameterSet;
use hardy_monitor::ml::ml_config::{
    default_cv_folds, default_cv_gap_hours, default_tune_hyperparameters, MlAlgorithm, MlConfig,
};
use hardy_monitor::ml::persistence::{hp_from_serialized, SerializedHyperparameters};
use hardy_monitor::ml::training::{
    check_sample_count, needs_retraining, prev_week_index, TrainingDataPreparer, TrainingError,
};

#[test]
fn test_config_defaults() {
    let config = MlConfig::default();
    assert!(config.enabled);
    assert_eq!(config.training_window_days, 56);
    assert_eq!(config.retrain_interval_hours, 24);
    assert_eq!(config.prediction_horizon_hours, 6);
    assert_eq!(config.min_samples_for_training, 500);
    assert!(config.fallback_on_error);
}

#[test]
fn test_ml_algorithm_default() {
    let algo = MlAlgorithm::default();
    assert_eq!(algo, MlAlgorithm::RandomForest);
}

#[test]
fn test_ml_config_new_fields_default() {
    let config = MlConfig::default();
    assert_eq!(config.algorithm, MlAlgorithm::RandomForest);
    assert_eq!(config.cv_folds, 4);
    assert_eq!(config.cv_gap_hours, 24);
    assert!(config.tune_hyperparameters);
}

fn create_test_hyperparameters() -> SerializedHyperparameters {
    SerializedHyperparameters { n_trees: 150, max_depth: 12, min_samples_leaf: 3, max_features: Some(8) }
}

#[test]
fn test_serialized_hyperparameters() {
    let hp = create_test_hyperparameters();
    assert_eq!(hp.n_trees, 150);
    assert_eq!(hp.max_depth, 12);
    assert_eq!(hp.min_samples_leaf, 3);
    assert_eq!(hp.max_features, Some(8));
}

#[test]
fn test_split_basic_4_folds() {
    let splitter = TimeSeriesSplit::new(4, 0);
    assert!(splitter.is_some());
    let folds = splitter.and_then(|s| s.split(1000));
    assert!(folds.is_some());
    let folds = folds.unwrap_or_default();
    assert_eq!(folds.len(), 4);
    for fold in &folds {
        assert!(fold.train_len() > 0);
        assert!(fold.val_len() > 0);
    }
}

#[test]
fn test_split_with_gap() {
    let splitter = TimeSeriesSplit::new(4, 50);
    assert!(splitter.is_some());
    let folds = splitter.and_then(|s| s.split(1000));
    assert!(folds.is_some());
    let folds = folds.unwrap_or_default();
    for fold in &folds {
        assert!(
            fold.val_start >= fold.train_end + 50,
            "Gap not respected: val_start={}, train_end={}",
            fold.val_start,
            fold.train_end
        );
    }
}

#[test]
fn test_split_minimum_k() {
    let splitter = TimeSeriesSplit::new(2, 0);
    assert!(splitter.is_some());
    let folds = splitter.and_then(|s| s.split(100));
    assert!(folds.is_some());
    assert_eq!(folds.unwrap_or_default().len(), 2);
}

#[test]
fn test_split_k_less_than_2() {
    assert!(TimeSeriesSplit::new(1, 0).is_none());
    assert!(TimeSeriesSplit::new(0, 0).is_none());
}

#[test]
fn test_split_insufficient_samples() {
    let splitter = TimeSeriesSplit::new(4, 5);
    assert!(splitter.is_some());
    let folds = splitter.and_then(|s| s.split(5));
    assert!(folds.is_none());
}

fn folds_4_1000(gap: usize) -> Vec<Fold> {
    TimeSeriesSplit::new(4, gap).and_then(|s| s.split(1000)).unwrap_or_default()
}

#[test]
fn test_fold_train_before_val() {
    for fold in &folds_4_1000(0) {
        assert!(fold.train_end <= fold.val_start);
    }
}

#[test]
fn test_fold_no_overlap() {
    for fold in &folds_4_1000(0) {
        assert!(fold.train_end <= fold.val_start);
    }
}

#[test]
fn test_fold_expanding_train() {
    let folds = folds_4_1000(0);
    for i in 1..folds.len() {
        assert!(folds[i].train_end >= folds[i - 1].train_end);
    }
}

#[test]
fn test_fold_gap_respected() {
    let gap = 50;
    for fold in &folds_4_1000(gap) {
        let actual_gap = fold.val_start - fold.train_end;
        assert!(actual_gap >= gap, "Gap not respected: expected >= {gap}, got {actual_gap}");
    }
}

#[test]
fn test_fold_complete_val_coverage() {
    let folds = folds_4_1000(0);
    for i in 1..folds.len() {
        assert_eq!(folds[i].val_start, folds[i - 1].val_end);
    }
    assert_eq!(folds.last().map(|f| f.val_end), Some(1000));
}

#[test]
fn test_default_grid_size() {
    assert_eq!(HyperparameterSet::default_grid().len(), 144);
}

#[test]
fn test_small_grid_size() {
    assert_eq!(HyperparameterSet::small_grid().len(), 16);
}

#[test]
fn test_default_grid_values() {
    let grid = HyperparameterSet::default_grid();
    assert_eq!(grid[0].n_trees, 100);
    assert_eq!(grid[0].max_depth, 8);
    assert_eq!(grid[0].min_samples_leaf, 2);
    assert_eq!(grid[0].max_features, Some(5));
    let last = &grid[143];
    assert_eq!(last.n_trees, 500);
    assert_eq!(last.max_depth, 0);
    assert_eq!(last.min_samples_leaf, 10);
    assert!(last.max_features.is_none());
}

// ---- further scenarios ----

#[test]
fn split_exact_layout() {
    let folds = TimeSeriesSplit::new(4, 50).and_then(|s| s.split(1000)).expect("split");
    // 1000 / 5 = 200 samples per segment.
    assert_eq!(folds[0], Fold { train_start: 0, train_end: 150, val_start: 200, val_end: 400 });
    assert_eq!(folds[3], Fold { train_start: 0, train_end: 750, val_start: 800, val_end: 1000 });
    // Segments of 203 with 1017 samples: the last fold takes the remainder.
    let folds = TimeSeriesSplit::new(4, 0).and_then(|s| s.split(1017)).expect("split");
    assert_eq!(folds[3].val_start, 812);
    assert_eq!(folds[3].val_end, 1017);
}

#[test]
fn split_boundary_of_gap() {
    let s = TimeSeriesSplit::new(3, 10).expect("k >= 2");
    assert_eq!(s.k(), 3);
    assert_eq!(s.gap_samples(), 10);
    // 40 / 4 = 10 = gap: no training sample left for the first fold.
    assert!(s.split(40).is_none());
    // 44 / 4 = 11 > gap.
    let folds = s.split(44).expect("split");
    assert_eq!(folds[0].train_end, 1);
    let copy = s.clone();
    assert_eq!(copy.split(44), Some(folds));
}

#[test]
fn small_grid_order() {
    let grid = HyperparameterSet::small_grid();
    assert_eq!(grid[0], HyperparameterSet { n_trees: 50, max_depth: 5, min_samples_leaf: 2, max_features: Some(5) });
    assert_eq!(grid[1].max_features, None);
    assert_eq!(grid[2].min_samples_leaf, 5);
    assert_eq!(grid[4].max_depth, 10);
    assert_eq!(grid[15], HyperparameterSet { n_trees: 100, max_depth: 10, min_samples_leaf: 5, max_features: None });
}

#[test]
fn default_grid_middle_entry() {
    let grid = HyperparameterSet::default_grid();
    // index 36*2 + 9*3 + 3*1 + 2 = 104
    assert_eq!(grid[104], HyperparameterSet { n_trees: 300, max_depth: 0, min_samples_leaf: 5, max_features: None });
}

#[test]
fn default_helpers_and_preparer() {
    assert_eq!(default_cv_folds(), 4);
    assert_eq!(default_cv_gap_hours(), 24);
    assert!(default_tune_hyperparameters());
    let _preparer = TrainingDataPreparer::new(MlConfig::default());
    let summary = hp_from_serialized(&create_test_hyperparameters());
    assert_eq!(summary.n_trees, 150);
    assert_eq!(summary.max_depth, 12);
    assert_eq!(summary.min_samples_leaf, 3);
    assert_eq!(summary.max_features, Some(8));
}

const HOUR_NANOS: i64 = 3_600_000_000_000;
/// 2024-06-01 06:00:00 UTC, in nanoseconds since the Unix epoch.
const BASE_NANOS: i64 = 1_717_221_600_000_000_000;

fn hourly_timestamps(hours: i64) -> Vec<i64> {
    (0..hours).map(|i| BASE_NANOS + i * HOUR_NANOS).collect()
}

#[test]
fn test_lookup_prev_week_found() {
    let logs = hourly_timestamps(336);
    let percentages: Vec<f64> = (0..336).map(|i| 30.0 + f64::from(i % 24)).collect();
    let target_time = BASE_NANOS + 174 * HOUR_NANOS;
    let result = prev_week_index(&logs, target_time).map(|i| percentages[i]);
    assert!(result.is_some(), "Should find a value from 7 days ago");
    assert!((result.unwrap_or(0.0) - 36.0).abs() < 1e-10);
}

#[test]
fn test_lookup_prev_week_not_found() {
    let logs = hourly_timestamps(24);
    let target_time = BASE_NANOS + 14 * 24 * HOUR_NANOS;
    assert!(prev_week_index(&logs, target_time).is_none());
}

#[test]
fn prev_week_prefers_closest_and_earlier_on_ties() {
    let week = 7 * 24 * HOUR_NANOS;
    let second = 1_000_000_000;
    let t = BASE_NANOS;
    // Readings 10 s before and 5 s after the instant one week back.
    let logs = vec![t - week - 10 * second, t - week + 5 * second];
    assert_eq!(prev_week_index(&logs, t), Some(1));
    // Equal whole seconds on both sides: the earlier reading wins.
    let logs = vec![t - week - 5 * second, t - week + 5 * second];
    assert_eq!(prev_week_index(&logs, t), Some(0));
    // Exactly one hour away still counts, one hour and one second does not.
    assert_eq!(prev_week_index(&[t - week - 3600 * second], t), Some(0));
    assert_eq!(prev_week_index(&[t - week + 3601 * second], t), None);
    assert_eq!(prev_week_index(&[], t), None);
}

#[test]
fn validation_ranges_cover_all_but_first_segment() {
    for (n, k, gap) in [(1000usize, 4usize, 0usize), (500, 5, 3), (101, 2, 10), (57, 7, 1)] {
        let folds = TimeSeriesSplit::new(k, gap).and_then(|s| s.split(n)).expect("split");
        let total: usize = folds.iter().map(|f| f.val_len()).sum();
        assert_eq!(total, n - n / (k + 1));
        assert!(folds.iter().all(|f| f.val_len() >= n / (k + 1)));
    }
}

#[test]
fn training_needs_enough_samples() {
    assert!(check_sample_count(100, 100).is_ok());
    assert!(check_sample_count(500, 100).is_ok());
    match check_sample_count(99, 100) {
        Err(TrainingError::InsufficientData(n)) => assert_eq!(n, 99),
        other => panic!("unexpected {other:?}"),
    }
}

#[test]
fn retraining_is_due_after_the_interval() {
    let hour: i64 = 3_600_000_000_000;
    let t = BASE_NANOS;
    assert!(needs_retraining(None, t, 24));
    assert!(!needs_retraining(Some(t), t + 23 * hour, 24));
    assert!(!needs_retraining(Some(t), t + 24 * hour - 1, 24));
    assert!(needs_retraining(Some(t), t + 24 * hour, 24));
    assert!(needs_retraining(Some(t), t + 30 * hour, 24));
    assert!(needs_retraining(Some(t + hour / 2), t, 0));
    assert!(!needs_retraining(Some(t + 2 * hour), t, 0));
}
