//! Integer parts of the occupancy-prediction pipeline: configuration,
//! cross-validation splits, hyperparameter grids and persisted summaries.

pub mod cross_validation;
pub mod hyperparameter;
pub mod ml_config;
pub mod persistence;
pub mod training;
