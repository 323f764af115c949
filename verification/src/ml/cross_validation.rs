//! Expanding-window cross-validation splits for time-ordered samples.

use vstd::prelude::*;

verus! {

/// A single fold's train/validation index ranges (half-open: `start..end`).
#[derive(Debug, Clone, PartialEq, Eq, Structural)]
pub struct Fold {
    pub train_start: usize,
    pub train_end: usize,
    pub val_start: usize,
    pub val_end: usize,
}

impl Fold {
    /// The ranges are well ordered: `train_start <= train_end` and
    /// `val_start <= val_end`.
    pub open spec fn is_ordered(&self) -> bool {
        self.train_start <= self.train_end && self.val_start <= self.val_end
    }

    /// Number of training samples in this fold.
    pub fn train_len(&self) -> (r: usize)
        requires
            self.train_start <= self.train_end,
        ensures
            r == self.train_end - self.train_start,
    {
        self.train_end - self.train_start
    }

    /// Number of validation samples in this fold.
    pub fn val_len(&self) -> (r: usize)
        requires
            self.val_start <= self.val_end,
        ensures
            r == self.val_end - self.val_start,
    {
        self.val_end - self.val_start
    }
}

/// Size of each of the `k + 1` segments that `n` samples are cut into.
pub open spec fn segment_size(k: nat, n: nat) -> nat {
    n / (k + 1)
}

/// Fold `i` of a `k`-fold split of `n` samples with `gap` samples left out
/// between training and validation: the training range is every sample
/// before `(i + 1) * segment - gap`, the validation range is segment
/// `i + 1` (the last fold takes every remaining sample).
pub open spec fn fold_spec(k: nat, gap: nat, n: nat, i: nat) -> Fold {
    let seg = segment_size(k, n);
    let val_start = (i + 1) * seg;
    Fold {
        train_start: 0,
        train_end: (val_start - gap) as usize,
        val_start: val_start as usize,
        val_end: (if i + 1 == k {
            n
        } else {
            (i + 2) * seg
        }) as usize,
    }
}

/// A `k`-fold split of `n` samples with gap `gap` exists: each segment is
/// longer than the gap, so every fold keeps at least one training sample.
pub open spec fn split_exists(k: nat, gap: nat, n: nat) -> bool {
    segment_size(k, n) > gap
}

/// Expanding-window time-series cross-validation splitter with `k >= 2`
/// folds and a gap of `gap_samples` between training and validation data.
#[derive(Debug)]
pub struct TimeSeriesSplit {
    k: usize,
    gap_samples: usize,
}

impl Clone for TimeSeriesSplit {
    fn clone(&self) -> (r: Self)
        ensures
            r.k_spec() == self.k_spec(),
            r.gap_spec() == self.gap_spec(),
    {
        proof {
            use_type_invariant(self);
        }
        TimeSeriesSplit { k: self.k, gap_samples: self.gap_samples }
    }
}

impl TimeSeriesSplit {
    #[verifier::type_invariant]
    spec fn inv(self) -> bool {
        self.k >= 2
    }

    /// Number of folds.
    pub closed spec fn k_spec(self) -> nat {
        self.k as nat
    }

    /// Gap size in samples.
    pub closed spec fn gap_spec(self) -> nat {
        self.gap_samples as nat
    }

    /// Creates a splitter; `None` when `k < 2`, since meaningful
    /// cross-validation needs at least two folds.
    pub fn new(k: usize, gap_samples: usize) -> (r: Option<Self>)
        ensures
            r is Some <==> k >= 2,
            r matches Some(s) ==> s.k_spec() == k && s.gap_spec() == gap_samples,
    {
        if k < 2 {
            return None;
        }
        Some(TimeSeriesSplit { k, gap_samples })
    }

    /// Number of folds.
    pub fn k(&self) -> (r: usize)
        ensures
            r == self.k_spec(),
            r >= 2,
    {
        proof {
            use_type_invariant(self);
        }
        self.k
    }

    /// Gap size in samples.
    pub fn gap_samples(&self) -> (r: usize)
        ensures
            r == self.gap_spec(),
    {
        self.gap_samples
    }

    /// Fold index ranges for `n_samples` data points: the data is cut into
    /// `k + 1` segments of `n_samples / (k + 1)` samples; fold `i` trains on
    /// everything up to `gap_samples` before segment `i + 1` and validates
    /// on that segment, the last fold validating up to `n_samples`.
    /// `None` when a segment is not longer than the gap, i.e. some fold would
    /// have no training sample or no validation sample.
    pub fn split(&self, n_samples: usize) -> (r: Option<Vec<Fold>>)
        requires
            self.k_spec() + self.gap_spec() + 1 <= usize::MAX,
        ensures
            r is Some <==> split_exists(self.k_spec(), self.gap_spec(), n_samples as nat),
            r matches Some(folds) ==> {
                &&& folds.len() == self.k_spec()
                &&& forall|i: int|
                    0 <= i < folds.len() ==> #[trigger] folds[i] == fold_spec(
                        self.k_spec(),
                        self.gap_spec(),
                        n_samples as nat,
                        i as nat,
                    )
            },
    {
        proof {
            use_type_invariant(self);
        }
        let k = self.k;
        let gap = self.gap_samples;
        let segment_count = k + 1;
        let min_needed = 1 + gap + k;
        if n_samples < min_needed {
            proof {
                lemma_segment_bound(k as nat, gap as nat, n_samples as nat);
            }
            return None;
        }
        let seg_len = n_samples / segment_count;
        if seg_len == 0 {
            return None;
        }
        let ghost seg = seg_len as nat;
        proof {
            lemma_segments_fit(k as nat, n_samples as nat);
        }
        let mut folds: Vec<Fold> = Vec::new();
        let mut i: usize = 0;
        while i < k
            invariant
                k == self.k_spec(),
                gap == self.gap_spec(),
                k >= 2,
                seg == segment_size(k as nat, n_samples as nat),
                seg_len == seg,
                seg > 0,
                (k + 1) * seg <= n_samples,
                0 <= i <= k,
                i > 0 ==> seg > gap,
                folds.len() == i,
                forall|j: int|
                    0 <= j < i ==> #[trigger] folds[j] == fold_spec(
                        k as nat,
                        gap as nat,
                        n_samples as nat,
                        j as nat,
                    ),
            decreases k - i,
        {
            proof {
                lemma_mul_le(i as nat + 2, k as nat + 1, seg);
                lemma_mul_le(i as nat + 1, i as nat + 2, seg);
            }
            let val_start = (i + 1) * seg_len;
            let val_end = if i + 1 == k {
                n_samples
            } else {
                (i + 2) * seg_len
            };
            let train_end = val_start.saturating_sub(gap);
            if train_end == 0 || val_start >= val_end {
                proof {
                    if val_start >= val_end {
                        if i + 1 == k {
                            lemma_mul_le(k as nat, k as nat + 1, seg);
                            assert(k * seg + seg == (k + 1) * seg) by (nonlinear_arith);
                        } else {
                            assert((i + 2) * seg == (i + 1) * seg + seg) by (nonlinear_arith);
                        }
                    }
                    lemma_mul_le(1, i as nat + 1, seg);
                }
                return None;
            }
            proof {
                if i == 0 {
                    assert((i + 1) * seg == seg) by (nonlinear_arith)
                        requires
                            i == 0,
                    ;
                }
                lemma_mul_le(1, i as nat + 1, seg);
            }
            folds.push(Fold { train_start: 0, train_end, val_start, val_end });
            i = i + 1;
        }
        Some(folds)
    }
}

/// `a <= b` implies `a * c <= b * c` for naturals.
proof fn lemma_mul_le(a: nat, b: nat, c: nat)
    requires
        a <= b,
    ensures
        a * c <= b * c,
{
    assert(a * c <= b * c) by (nonlinear_arith)
        requires
            a <= b,
    ;
}

/// `k + 1` segments of `n / (k + 1)` samples fit into `n` samples.
proof fn lemma_segments_fit(k: nat, n: nat)
    ensures
        (k + 1) * (n / (k + 1)) <= n,
{
    assert((k + 1) * (n / (k + 1)) <= n) by (nonlinear_arith);
}

/// Too few samples for even one training and one validation sample per fold
/// leave every segment no longer than the gap.
proof fn lemma_segment_bound(k: nat, gap: nat, n: nat)
    requires
        n < 1 + gap + k,
    ensures
        n / (k + 1) <= gap,
{
    let seg = n / (k + 1);
    lemma_segments_fit(k, n);
    if seg > gap {
        assert((k + 1) * seg >= (k + 1) * (gap + 1)) by (nonlinear_arith)
            requires
                seg >= gap + 1,
        ;
        assert((k + 1) * (gap + 1) == k * gap + k + gap + 1) by (nonlinear_arith);
    }
}

/// Every fold of an existing split trains on a non-empty prefix, leaves
/// exactly `gap` samples out before validating on a non-empty range, and the
/// training range never overlaps the validation range.
pub proof fn lemma_fold_layout(k: nat, gap: nat, n: nat, i: nat)
    requires
        k >= 2,
        k + gap + 1 <= usize::MAX,
        n <= usize::MAX,
        split_exists(k, gap, n),
        i < k,
    ensures
        ({
            let f = fold_spec(k, gap, n, i);
            &&& f.train_start == 0
            &&& f.train_start < f.train_end
            &&& f.train_end + gap == f.val_start
            &&& f.val_start < f.val_end
            &&& f.val_end <= n
        }),
{
    let seg = segment_size(k, n);
    lemma_segments_fit(k, n);
    lemma_mul_le(1, i + 1, seg);
    lemma_mul_le(i + 2, k + 1, seg);
    assert((i + 2) * seg == (i + 1) * seg + seg) by (nonlinear_arith);
    assert((k + 1) * seg == k * seg + seg) by (nonlinear_arith);
    lemma_mul_le(i + 1, k, seg);
}

/// Training ranges expand: a later fold never trains on fewer samples.
pub proof fn lemma_folds_expand(k: nat, gap: nat, n: nat, i: nat, j: nat)
    requires
        k >= 2,
        k + gap + 1 <= usize::MAX,
        n <= usize::MAX,
        split_exists(k, gap, n),
        i <= j < k,
    ensures
        fold_spec(k, gap, n, i).train_end <= fold_spec(k, gap, n, j).train_end,
{
    let seg = segment_size(k, n);
    lemma_segments_fit(k, n);
    lemma_mul_le(1, i + 1, seg);
    lemma_mul_le(i + 1, j + 1, seg);
    lemma_mul_le(j + 1, k + 1, seg);
}

/// Validation ranges are contiguous: each fold's validation range starts
/// where the previous one ended, and the last one ends at `n`.
pub proof fn lemma_validation_contiguous(k: nat, gap: nat, n: nat, i: nat)
    requires
        k >= 2,
        k + gap + 1 <= usize::MAX,
        n <= usize::MAX,
        split_exists(k, gap, n),
        i + 1 < k,
    ensures
        fold_spec(k, gap, n, i).val_end == fold_spec(k, gap, n, i + 1).val_start,
        fold_spec(k, gap, n, (k - 1) as nat).val_end == n,
{
    let seg = segment_size(k, n);
    lemma_segments_fit(k, n);
    lemma_mul_le(i + 2, k + 1, seg);
}

/// Total number of validation samples in the first `m` folds.
pub open spec fn validation_total(k: nat, gap: nat, n: nat, m: nat) -> int
    decreases m,
{
    if m == 0 {
        0
    } else {
        let f = fold_spec(k, gap, n, (m - 1) as nat);
        validation_total(k, gap, n, (m - 1) as nat) + (f.val_end - f.val_start)
    }
}

/// The validation ranges of the first `m` folds cover exactly the samples
/// from the first segment's end to the `m`-th fold's validation end.
proof fn lemma_validation_prefix(k: nat, gap: nat, n: nat, m: nat)
    requires
        k >= 2,
        k + gap + 1 <= usize::MAX,
        n <= usize::MAX,
        split_exists(k, gap, n),
        1 <= m <= k,
    ensures
        validation_total(k, gap, n, m) == fold_spec(k, gap, n, (m - 1) as nat).val_end
            - segment_size(k, n),
    decreases m,
{
    lemma_fold_layout(k, gap, n, (m - 1) as nat);
    if m == 1 {
        let seg = segment_size(k, n);
        lemma_segments_fit(k, n);
        lemma_mul_le(1, k + 1, seg);
        assert(validation_total(k, gap, n, 0) == 0);
        assert((0nat + 1) * seg == seg) by (nonlinear_arith);
        assert(fold_spec(k, gap, n, 0).val_start == seg);
    } else {
        lemma_validation_prefix(k, gap, n, (m - 1) as nat);
        lemma_validation_contiguous(k, gap, n, (m - 2) as nat);
    }
}

/// Every validation range holds at least one segment (at least one
/// sample), and together they hold every sample after the first segment:
/// `n - n / (k + 1)` samples.
pub proof fn lemma_validation_total(k: nat, gap: nat, n: nat)
    requires
        k >= 2,
        k + gap + 1 <= usize::MAX,
        n <= usize::MAX,
        split_exists(k, gap, n),
    ensures
        validation_total(k, gap, n, k) == n - segment_size(k, n),
        forall|i: nat|
            i < k ==> #[trigger] fold_spec(k, gap, n, i).val_end - fold_spec(k, gap, n, i).val_start
                >= segment_size(k, n) > 0,
{
    lemma_validation_prefix(k, gap, n, k);
    lemma_validation_contiguous(k, gap, n, 0);
    assert forall|i: nat| i < k implies #[trigger] fold_spec(k, gap, n, i).val_end - fold_spec(
        k,
        gap,
        n,
        i,
    ).val_start >= segment_size(k, n) > 0 by {
        let seg = segment_size(k, n);
        lemma_fold_layout(k, gap, n, i);
        lemma_segments_fit(k, n);
        if i + 1 < k {
            lemma_mul_le(i + 2, k + 1, seg);
            assert((i + 2) * seg == (i + 1) * seg + seg) by (nonlinear_arith);
        } else {
            lemma_mul_le(i + 1, k, seg);
            assert((k + 1) * seg == k * seg + seg) by (nonlinear_arith);
        }
    }
}

} // verus!
