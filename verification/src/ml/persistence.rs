//! Integer records kept with a persisted model and the errors of model
//! persistence.

use vstd::prelude::*;

verus! {

/// Hyperparameters of a trained model as they are persisted.
#[derive(Debug, Clone, Copy, PartialEq, Eq, Structural)]
pub struct SerializedHyperparameters {
    pub n_trees: usize,
    pub max_depth: usize,
    pub min_samples_leaf: usize,
    pub max_features: Option<usize>,
}

/// Hyperparameters of the last training run, for display.
#[derive(Debug, Clone, Copy, PartialEq, Eq, Structural)]
pub struct HyperparametersSummary {
    pub n_trees: usize,
    pub max_depth: usize,
    pub min_samples_leaf: usize,
    pub max_features: Option<usize>,
}

/// Display summary of persisted hyperparameters: every field carried over.
pub fn hp_from_serialized(hp: &SerializedHyperparameters) -> (r: HyperparametersSummary)
    ensures
        r.n_trees == hp.n_trees,
        r.max_depth == hp.max_depth,
        r.min_samples_leaf == hp.min_samples_leaf,
        r.max_features == hp.max_features,
{
    HyperparametersSummary {
        n_trees: hp.n_trees,
        max_depth: hp.max_depth,
        min_samples_leaf: hp.min_samples_leaf,
        max_features: hp.max_features,
    }
}

/// Errors of model persistence.
#[derive(Debug, Clone)]
pub enum PersistenceError {
    /// File not found.
    FileNotFound(String),
    /// IO error.
    IoError(String),
    /// Serialization error.
    SerializeError(String),
    /// Deserialization error.
    DeserializeError(String),
    /// Version mismatch.
    VersionMismatch { expected: u32, found: u32 },
}

} // verus!
