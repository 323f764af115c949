//! Hyperparameter grids searched when tuning the random-forest model.

use vstd::prelude::*;

verus! {

/// A single hyperparameter configuration for grid search.
#[derive(Debug, Clone, Copy, PartialEq, Eq, Structural)]
pub struct HyperparameterSet {
    pub n_trees: usize,
    /// Maximum tree depth; 0 means unlimited.
    pub max_depth: usize,
    pub min_samples_leaf: usize,
    pub max_features: Option<usize>,
}

/// Entry `i` of the default grid: the configurations are enumerated with
/// the number of trees varying slowest, then the depth, the minimum leaf
/// size, and the feature limit fastest.
pub open spec fn default_grid_entry(i: int) -> HyperparameterSet {
    HyperparameterSet {
        n_trees: seq![100usize, 200, 300, 500][i / 36],
        max_depth: seq![8usize, 12, 16, 0][(i / 9) % 4],
        min_samples_leaf: seq![2usize, 5, 10][(i / 3) % 3],
        max_features: seq![Some(5usize), Some(11usize), None][i % 3],
    }
}

/// Entry `i` of the small grid, enumerated in the same order as the default
/// grid.
pub open spec fn small_grid_entry(i: int) -> HyperparameterSet {
    HyperparameterSet {
        n_trees: seq![50usize, 100][i / 8],
        max_depth: seq![5usize, 10][(i / 4) % 2],
        min_samples_leaf: seq![2usize, 5][(i / 2) % 2],
        max_features: seq![Some(5usize), None][i % 2],
    }
}

impl HyperparameterSet {
    /// The default grid: trees {100, 200, 300, 500} x depth {8, 12, 16,
    /// unlimited} x minimum leaf size {2, 5, 10} x feature limit {5, 11,
    /// none}, 144 configurations.
    pub fn default_grid() -> (grid: Vec<Self>)
        ensures
            grid.len() == 144,
            forall|i: int| 0 <= i < 144 ==> #[trigger] grid[i] == default_grid_entry(i),
    {
        let n_trees_values: [usize; 4] = [100, 200, 300, 500];
        let max_depth_values: [usize; 4] = [8, 12, 16, 0];
        let min_samples_leaf_values: [usize; 3] = [2, 5, 10];
        let max_features_values: [Option<usize>; 3] = [Some(5), Some(11), None];
        assert(n_trees_values@ == seq![100usize, 200, 300, 500]);
        assert(max_depth_values@ == seq![8usize, 12, 16, 0]);
        assert(min_samples_leaf_values@ == seq![2usize, 5, 10]);
        assert(max_features_values@ == seq![Some(5usize), Some(11usize), None]);

        let mut grid: Vec<Self> = Vec::with_capacity(144);
        let mut t: usize = 0;
        while t < 4
            invariant
                0 <= t <= 4,
                grid.len() == t * 36,
                n_trees_values@ == seq![100usize, 200, 300, 500],
                max_depth_values@ == seq![8usize, 12, 16, 0],
                min_samples_leaf_values@ == seq![2usize, 5, 10],
                max_features_values@ == seq![Some(5usize), Some(11usize), None],
                forall|i: int| 0 <= i < grid.len() ==> #[trigger] grid[i] == default_grid_entry(i),
            decreases 4 - t,
        {
            let mut d: usize = 0;
            while d < 4
                invariant
                    0 <= t < 4,
                    0 <= d <= 4,
                    grid.len() == t * 36 + d * 9,
                    n_trees_values@ == seq![100usize, 200, 300, 500],
                    max_depth_values@ == seq![8usize, 12, 16, 0],
                    min_samples_leaf_values@ == seq![2usize, 5, 10],
                    max_features_values@ == seq![Some(5usize), Some(11usize), None],
                    forall|i: int|
                        0 <= i < grid.len() ==> #[trigger] grid[i] == default_grid_entry(i),
                decreases 4 - d,
            {
                let mut s: usize = 0;
                while s < 3
                    invariant
                        0 <= t < 4,
                        0 <= d < 4,
                        0 <= s <= 3,
                        grid.len() == t * 36 + d * 9 + s * 3,
                        n_trees_values@ == seq![100usize, 200, 300, 500],
                        max_depth_values@ == seq![8usize, 12, 16, 0],
                        min_samples_leaf_values@ == seq![2usize, 5, 10],
                        max_features_values@ == seq![Some(5usize), Some(11usize), None],
                        forall|i: int|
                            0 <= i < grid.len() ==> #[trigger] grid[i] == default_grid_entry(i),
                    decreases 3 - s,
                {
                    let mut f: usize = 0;
                    while f < 3
                        invariant
                            0 <= t < 4,
                            0 <= d < 4,
                            0 <= s < 3,
                            0 <= f <= 3,
                            grid.len() == t * 36 + d * 9 + s * 3 + f,
                            n_trees_values@ == seq![100usize, 200, 300, 500],
                            max_depth_values@ == seq![8usize, 12, 16, 0],
                            min_samples_leaf_values@ == seq![2usize, 5, 10],
                            max_features_values@ == seq![Some(5usize), Some(11usize), None],
                            forall|i: int|
                                0 <= i < grid.len() ==> #[trigger] grid[i] == default_grid_entry(
                                    i,
                                ),
                        decreases 3 - f,
                    {
                        let ghost idx: int = grid.len() as int;
                        grid.push(
                            HyperparameterSet {
                                n_trees: n_trees_values[t],
                                max_depth: max_depth_values[d],
                                min_samples_leaf: min_samples_leaf_values[s],
                                max_features: max_features_values[f],
                            },
                        );
                        assert(idx / 36 == t && (idx / 9) % 4 == d && (idx / 3) % 3 == s && idx % 3
                            == f);
                        f = f + 1;
                    }
                    s = s + 1;
                }
                d = d + 1;
            }
            t = t + 1;
        }
        grid
    }

    /// A small grid for fast runs or scarce data: trees {50, 100} x depth
    /// {5, 10} x minimum leaf size {2, 5} x feature limit {5, none},
    /// 16 configurations.
    pub fn small_grid() -> (grid: Vec<Self>)
        ensures
            grid.len() == 16,
            forall|i: int| 0 <= i < 16 ==> #[trigger] grid[i] == small_grid_entry(i),
    {
        let n_trees_values: [usize; 2] = [50, 100];
        let max_depth_values: [usize; 2] = [5, 10];
        let min_samples_leaf_values: [usize; 2] = [2, 5];
        let max_features_values: [Option<usize>; 2] = [Some(5), None];
        assert(n_trees_values@ == seq![50usize, 100]);
        assert(max_depth_values@ == seq![5usize, 10]);
        assert(min_samples_leaf_values@ == seq![2usize, 5]);
        assert(max_features_values@ == seq![Some(5usize), None]);

        let mut grid: Vec<Self> = Vec::with_capacity(16);
        let mut t: usize = 0;
        while t < 2
            invariant
                0 <= t <= 2,
                grid.len() == t * 8,
                n_trees_values@ == seq![50usize, 100],
                max_depth_values@ == seq![5usize, 10],
                min_samples_leaf_values@ == seq![2usize, 5],
                max_features_values@ == seq![Some(5usize), None],
                forall|i: int| 0 <= i < grid.len() ==> #[trigger] grid[i] == small_grid_entry(i),
            decreases 2 - t,
        {
            let mut d: usize = 0;
            while d < 2
                invariant
                    0 <= t < 2,
                    0 <= d <= 2,
                    grid.len() == t * 8 + d * 4,
                    n_trees_values@ == seq![50usize, 100],
                    max_depth_values@ == seq![5usize, 10],
                    min_samples_leaf_values@ == seq![2usize, 5],
                    max_features_values@ == seq![Some(5usize), None],
                    forall|i: int|
                        0 <= i < grid.len() ==> #[trigger] grid[i] == small_grid_entry(i),
                decreases 2 - d,
            {
                let mut s: usize = 0;
                while s < 2
                    invariant
                        0 <= t < 2,
                        0 <= d < 2,
                        0 <= s <= 2,
                        grid.len() == t * 8 + d * 4 + s * 2,
                        n_trees_values@ == seq![50usize, 100],
                        max_depth_values@ == seq![5usize, 10],
                        min_samples_leaf_values@ == seq![2usize, 5],
                        max_features_values@ == seq![Some(5usize), None],
                        forall|i: int|
                            0 <= i < grid.len() ==> #[trigger] grid[i] == small_grid_entry(i),
                    decreases 2 - s,
                {
                    let mut f: usize = 0;
                    while f < 2
                        invariant
                            0 <= t < 2,
                            0 <= d < 2,
                            0 <= s < 2,
                            0 <= f <= 2,
                            grid.len() == t * 8 + d * 4 + s * 2 + f,
                            n_trees_values@ == seq![50usize, 100],
                            max_depth_values@ == seq![5usize, 10],
                            min_samples_leaf_values@ == seq![2usize, 5],
                            max_features_values@ == seq![Some(5usize), None],
                            forall|i: int|
                                0 <= i < grid.len() ==> #[trigger] grid[i] == small_grid_entry(i),
                        decreases 2 - f,
                    {
                        let ghost idx: int = grid.len() as int;
                        grid.push(
                            HyperparameterSet {
                                n_trees: n_trees_values[t],
                                max_depth: max_depth_values[d],
                                min_samples_leaf: min_samples_leaf_values[s],
                                max_features: max_features_values[f],
                            },
                        );
                        assert(idx / 8 == t && (idx / 4) % 2 == d && (idx / 2) % 2 == s && idx % 2
                            == f);
                        f = f + 1;
                    }
                    s = s + 1;
                }
                d = d + 1;
            }
            t = t + 1;
        }
        grid
    }
}

/// Every configuration of the default grid appears in it: for each choice
/// of trees, depth, leaf size and feature limit from the documented value
/// lists there is an index holding exactly that combination.
pub proof fn lemma_default_grid_complete(t: int, d: int, s: int, f: int)
    requires
        0 <= t < 4,
        0 <= d < 4,
        0 <= s < 3,
        0 <= f < 3,
    ensures
        0 <= t * 36 + d * 9 + s * 3 + f < 144,
        default_grid_entry(t * 36 + d * 9 + s * 3 + f) == (HyperparameterSet {
            n_trees: seq![100usize, 200, 300, 500][t],
            max_depth: seq![8usize, 12, 16, 0][d],
            min_samples_leaf: seq![2usize, 5, 10][s],
            max_features: seq![Some(5usize), Some(11usize), None][f],
        }),
{
    let idx = t * 36 + d * 9 + s * 3 + f;
    assert(idx / 36 == t && (idx / 9) % 4 == d && (idx / 3) % 3 == s && idx % 3 == f);
}

} // verus!
