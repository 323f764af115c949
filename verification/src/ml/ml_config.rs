//! Configuration of the occupancy-prediction pipeline.

use vstd::prelude::*;

use std::path::PathBuf;

verus! {

#[verifier::external_type_specification]
#[verifier::external_body]
pub struct ExPathBuf(std::path::PathBuf);

/// Which learning algorithm predicts occupancy.
#[derive(Debug, Clone, Copy, PartialEq, Eq, Structural)]
pub enum MlAlgorithm {
    RandomForest,
    LinearRegression,
}

impl Default for MlAlgorithm {
    /// Random forest.
    fn default() -> (r: Self)
        ensures
            r == MlAlgorithm::RandomForest,
    {
        MlAlgorithm::RandomForest
    }
}

/// Configuration of the prediction pipeline.
#[derive(Debug, Clone)]
pub struct MlConfig {
    pub enabled: bool,
    pub training_window_days: i64,
    pub retrain_interval_hours: i64,
    pub prediction_horizon_hours: i64,
    pub min_samples_for_training: usize,
    pub model_path: Option<PathBuf>,
    pub fallback_on_error: bool,
    pub algorithm: MlAlgorithm,
    pub cv_folds: usize,
    pub cv_gap_hours: i64,
    pub tune_hyperparameters: bool,
}

/// Default number of cross-validation folds.
pub fn default_cv_folds() -> (r: usize)
    ensures
        r == 4,
{
    4
}

/// Default gap between training and validation data, in hours.
pub fn default_cv_gap_hours() -> (r: i64)
    ensures
        r == 24,
{
    24
}

/// Hyperparameters are tuned by default.
pub fn default_tune_hyperparameters() -> (r: bool)
    ensures
        r,
{
    true
}

impl Default for MlConfig {
    /// Enabled, 56-day training window, retraining every 24 h, predicting
    /// 6 h ahead, at least 500 samples, default model location, falling back
    /// to historical averages on error, random forest, 4 folds with a 24 h
    /// gap, tuned hyperparameters.
    fn default() -> (r: Self)
        ensures
            r.enabled,
            r.training_window_days == 56,
            r.retrain_interval_hours == 24,
            r.prediction_horizon_hours == 6,
            r.min_samples_for_training == 500,
            r.model_path is None,
            r.fallback_on_error,
            r.algorithm == MlAlgorithm::RandomForest,
            r.cv_folds == 4,
            r.cv_gap_hours == 24,
            r.tune_hyperparameters,
    {
        MlConfig {
            enabled: true,
            training_window_days: 56,
            retrain_interval_hours: 24,
            prediction_horizon_hours: 6,
            min_samples_for_training: 500,
            model_path: None,
            fallback_on_error: true,
            algorithm: MlAlgorithm::default(),
            cv_folds: default_cv_folds(),
            cv_gap_hours: default_cv_gap_hours(),
            tune_hyperparameters: default_tune_hyperparameters(),
        }
    }
}

} // verus!
