//! Training errors, the holder of the training configuration, and the
//! look-up of last week's reading for a training sample.

use vstd::prelude::*;

use crate::calendar::tdiv;
use crate::ml::ml_config::MlConfig;

verus! {

/// Errors that can occur during model training.
#[derive(Debug, Clone)]
pub enum TrainingError {
    InsufficientData(usize),
    MismatchedLengths { features: usize, targets: usize },
    ArrayError(String),
    FitError(String),
}

/// Prepares training data (features and targets) from occupancy logs under
/// a pipeline configuration.
pub struct TrainingDataPreparer {
    config: MlConfig,
}

impl TrainingDataPreparer {
    /// The configuration the preparer works with.
    pub closed spec fn config_spec(&self) -> MlConfig {
        self.config
    }

    /// Preparer for `config`.
    pub fn new(config: MlConfig) -> (r: Self)
        ensures
            r.config_spec() == config,
    {
        TrainingDataPreparer { config }
    }
}

/// One week, in nanoseconds.
pub const WEEK_NANOS: i64 = 604_800_000_000_000;

/// Largest distance, in whole seconds, at which a reading still counts as
/// "the same slot last week".
pub const PREV_WEEK_TOLERANCE_SECS: i128 = 3600;

/// Whole seconds between two instants given in nanoseconds (the distance
/// rounded down to a second).
pub open spec fn whole_seconds_apart(a: int, b: int) -> int {
    (if a >= b {
        a - b
    } else {
        b - a
    }) / 1_000_000_000
}

/// The timestamps never decrease.
pub open spec fn ascending(ts: Seq<i64>) -> bool {
    forall|i: int, j: int| 0 <= i <= j < ts.len() ==> ts[i] <= ts[j]
}

/// Whole seconds between `a` and `b` nanoseconds.
fn seconds_apart(a: i64, b: i64) -> (r: i128)
    ensures
        r == whole_seconds_apart(a as int, b as int),
{
    let d: i128 = if a >= b {
        a as i128 - b as i128
    } else {
        b as i128 - a as i128
    };
    d / 1_000_000_000
}

/// Rounding down to seconds keeps the order of distances.
proof fn lemma_seconds_monotone(x: int, y: int)
    requires
        0 <= x <= y,
    ensures
        x / 1_000_000_000 <= y / 1_000_000_000,
{
    vstd::arithmetic::div_mod::lemma_div_is_ordered(x, y, 1_000_000_000);
}

/// Index of the reading of last week's slot for a sample taken at
/// `target_nanos`: among the readings at `timestamps` (nanoseconds, in
/// ascending order) the one closest to `target_nanos` minus one week, if it
/// lies within `PREV_WEEK_TOLERANCE_SECS` whole seconds of it. Of the
/// readings around that instant, the last one before it wins over the first
/// one at or after it unless the latter is closer.
pub fn prev_week_index(timestamps: &[i64], target_nanos: i64) -> (r: Option<usize>)
    requires
        ascending(timestamps@),
        target_nanos - WEEK_NANOS >= i64::MIN,
    ensures
        ({
            let ts = timestamps@;
            let t = target_nanos - WEEK_NANOS;
            &&& r is None <==> forall|j: int|
                0 <= j < ts.len() ==> whole_seconds_apart(#[trigger] ts[j] as int, t) > 3600
            &&& r matches Some(i) ==> {
                &&& i < ts.len()
                &&& whole_seconds_apart(ts[i as int] as int, t) <= 3600
                &&& forall|j: int|
                    0 <= j < ts.len() ==> whole_seconds_apart(ts[i as int] as int, t)
                        <= whole_seconds_apart(#[trigger] ts[j] as int, t)
                &&& ts[i as int] < t ==> (i + 1 == ts.len() || ts[i + 1] >= t)
                &&& ts[i as int] >= t ==> (i == 0 || ts[i - 1] < t)
                &&& ts[i as int] >= t ==> forall|j: int|
                    0 <= j < ts.len() && #[trigger] ts[j] < t ==> whole_seconds_apart(
                        ts[j] as int,
                        t,
                    ) > whole_seconds_apart(ts[i as int] as int, t)
            }
        }),
{
    let t = target_nanos - WEEK_NANOS;
    let n = timestamps.len();
    let mut lo: usize = 0;
    let mut hi: usize = n;
    while lo < hi
        invariant
            0 <= lo <= hi <= n,
            n == timestamps@.len(),
            ascending(timestamps@),
            forall|j: int| 0 <= j < lo ==> #[trigger] timestamps@[j] < t,
            forall|j: int| hi <= j < n ==> #[trigger] timestamps@[j] >= t,
        decreases hi - lo,
    {
        let mid = lo + (hi - lo) / 2;
        if timestamps[mid] < t {
            lo = mid + 1;
        } else {
            hi = mid;
        }
    }
    let p = lo;
    let ghost ts = timestamps@;
    let mut best: Option<usize> = None;
    let mut best_gap: i128 = 0;
    if p > 0 {
        let g = seconds_apart(timestamps[p - 1], t);
        if g <= PREV_WEEK_TOLERANCE_SECS {
            best = Some(p - 1);
            best_gap = g;
        }
    }
    if p < n {
        let g = seconds_apart(timestamps[p], t);
        if g <= PREV_WEEK_TOLERANCE_SECS && (best.is_none() || g < best_gap) {
            best = Some(p);
        }
    }
    proof {
        assert forall|j: int| 0 <= j < ts.len() implies (p < n && j >= p ==> whole_seconds_apart(
            ts[p as int] as int,
            t as int,
        ) <= whole_seconds_apart(#[trigger] ts[j] as int, t as int)) && (p > 0 && j < p
            ==> whole_seconds_apart(ts[p - 1] as int, t as int) <= whole_seconds_apart(
            ts[j] as int,
            t as int,
        )) by {
            if j < p {
                lemma_seconds_monotone(t - ts[p - 1], t - ts[j]);
            } else {
                lemma_seconds_monotone(ts[p as int] - t, ts[j] - t);
            }
        }
    }
    best
}

/// The sample-count check of training-data preparation: `count` samples
/// are enough when there are at least `min_samples`; otherwise the error
/// reports how many there were.
pub fn check_sample_count(count: usize, min_samples: usize) -> (r: Result<(), TrainingError>)
    ensures
        r is Ok <==> count >= min_samples,
        r is Err ==> r == Err::<(), TrainingError>(TrainingError::InsufficientData(count)),
{
    if count < min_samples {
        Err(TrainingError::InsufficientData(count))
    } else {
        Ok(())
    }
}

/// One hour, in nanoseconds.
pub const HOUR_NANOS: i128 = 3_600_000_000_000;

/// Whether the prediction model is due for retraining at `now_nanos`: when
/// it was never trained, or when the whole hours since its training at
/// `last_training_nanos` (rounded toward zero) reach
/// `retrain_interval_hours`. Instants are nanoseconds since the Unix epoch.
pub fn needs_retraining(last_training_nanos: Option<i64>, now_nanos: i64, retrain_interval_hours: i64)
    -> (r: bool)
    ensures
        r == match last_training_nanos {
            None => true,
            Some(last) => tdiv(now_nanos - last, 3_600_000_000_000) >= retrain_interval_hours,
        },
{
    match last_training_nanos {
        None => true,
        Some(last) => {
            let elapsed: i128 = now_nanos as i128 - last as i128;
            let hours: i128 = elapsed / HOUR_NANOS;
            hours >= retrain_interval_hours as i128
        },
    }
}

} // verus!
