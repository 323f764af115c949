//! Planning steps of the occupancy-data repair: which records of a day are
//! deleted or reset, whether the opening/closing entries exist, which
//! missing minutes are interpolated, and the tally of a repair job.

use vstd::prelude::*;

use crate::calendar::{
    date_after, is_date_after, lemma_date_order, lemma_next_date, next_date_of, CalendarDate,
};

verus! {

/// Longest gap, in minutes, that is filled by interpolation.
pub const MAX_GAP_MINUTES: i64 = 5;

/// Number of days processed concurrently during a repair job.
pub const CONCURRENT_DAYS: usize = 4;

/// The days from `start` through `end` in calendar order, one entry per
/// day (none when `start` lies after `end`): the days a repair job visits.
pub fn dates_in_range(start: &CalendarDate, end: &CalendarDate) -> (r: Vec<CalendarDate>)
    requires
        start.is_valid(),
        end.is_valid(),
    ensures
        r.len() == (if date_after(*start, *end) {
            0
        } else {
            end.day_number_spec() - start.day_number_spec() + 1
        }),
        forall|i: int|
            #![trigger r[i]]
            0 <= i < r.len() ==> r[i].is_valid() && r[i].day_number_spec() == start.day_number_spec()
                + i,
{
    let mut dates: Vec<CalendarDate> = Vec::new();
    proof {
        lemma_date_order(*start, *end);
    }
    if is_date_after(start, end) {
        return dates;
    }
    let mut current = *start;
    loop
        invariant_except_break
            current.is_valid(),
            current.day_number_spec() <= end.day_number_spec(),
            current.day_number_spec() == start.day_number_spec() + dates.len(),
        invariant
            end.is_valid(),
            forall|i: int|
                #![trigger dates[i]]
                0 <= i < dates.len() ==> dates[i].is_valid() && dates[i].day_number_spec()
                    == start.day_number_spec() + i,
        ensures
            dates.len() == end.day_number_spec() - start.day_number_spec() + 1,
        decreases end.day_number_spec() - current.day_number_spec(),
    {
        dates.push(current);
        if current == *end {
            break;
        }
        proof {
            lemma_date_order(current, *end);
            lemma_next_date(current);
        }
        match next_date_of(current.year, current.month, current.day) {
            Some(next) => {
                current = next;
            },
            None => {
                break;
            },
        }
    }
    dates
}

/// Summary of a completed repair job.
#[derive(Debug, Clone)]
pub struct RepairSummary {
    pub days_processed: u32,
    pub gaps_filled: u32,
    pub records_deleted: u32,
    pub records_smoothed: u32,
    pub boundary_entries_added: u32,
}

/// What repairing a single day changed.
#[derive(Debug, Clone, Copy, Default)]
pub struct DayRepairResult {
    pub gaps_filled: u32,
    pub records_deleted: u32,
    pub records_smoothed: u32,
    pub boundary_entries_added: u32,
}

impl RepairSummary {
    /// Adds one repaired day to the tally.
    pub fn record_day(&mut self, day: &DayRepairResult)
        requires
            old(self).days_processed + 1 <= u32::MAX,
            old(self).gaps_filled + day.gaps_filled <= u32::MAX,
            old(self).records_deleted + day.records_deleted <= u32::MAX,
            old(self).records_smoothed + day.records_smoothed <= u32::MAX,
            old(self).boundary_entries_added + day.boundary_entries_added <= u32::MAX,
        ensures
            final(self).days_processed == old(self).days_processed + 1,
            final(self).gaps_filled == old(self).gaps_filled + day.gaps_filled,
            final(self).records_deleted == old(self).records_deleted + day.records_deleted,
            final(self).records_smoothed == old(self).records_smoothed + day.records_smoothed,
            final(self).boundary_entries_added == old(self).boundary_entries_added
                + day.boundary_entries_added,
    {
        self.days_processed = self.days_processed + 1;
        self.gaps_filled = self.gaps_filled + day.gaps_filled;
        self.records_deleted = self.records_deleted + day.records_deleted;
        self.records_smoothed = self.records_smoothed + day.records_smoothed;
        self.boundary_entries_added = self.boundary_entries_added + day.boundary_entries_added;
    }
}

/// Local date and time of day of a stored record.
#[derive(Debug, Clone, Copy, PartialEq, Eq, Structural)]
pub struct RecordTime {
    pub date: CalendarDate,
    pub hour: u32,
    pub minute: u32,
    pub second: u32,
    pub nanosecond: u32,
}

/// What the cleanup step does with a record.
#[derive(Debug, Clone, Copy, PartialEq, Eq, Structural)]
pub enum CleanupAction {
    /// The record belongs to another local day and is left alone.
    OtherDay,
    /// The record lies strictly before opening or after closing: delete it.
    Delete,
    /// The record lies exactly on the opening or closing time: its
    /// percentage is set to 0 if it is not 0 already.
    ZeroAtBoundary,
    /// The record lies within opening hours and is kept.
    Keep,
}

/// `t` lies strictly before `hour:00:00`.
pub open spec fn before_hour(t: RecordTime, hour: u32) -> bool {
    t.hour < hour
}

/// `t` is exactly `hour:00:00`.
pub open spec fn at_hour(t: RecordTime, hour: u32) -> bool {
    t.hour == hour && t.minute == 0 && t.second == 0 && t.nanosecond == 0
}

/// `t` lies strictly after `hour:00:00`.
pub open spec fn after_hour(t: RecordTime, hour: u32) -> bool {
    t.hour > hour || (t.hour == hour && !at_hour(t, hour))
}

/// Cleanup action for a record at `t` on the repaired day `date`.
pub open spec fn cleanup_action_spec(
    t: RecordTime,
    date: CalendarDate,
    open_hour: u32,
    close_hour: u32,
) -> CleanupAction {
    if t.date != date {
        CleanupAction::OtherDay
    } else if before_hour(t, open_hour) || after_hour(t, close_hour) {
        CleanupAction::Delete
    } else if at_hour(t, open_hour) || at_hour(t, close_hour) {
        CleanupAction::ZeroAtBoundary
    } else {
        CleanupAction::Keep
    }
}

/// Compares the time of day of `t` with `hour:00:00`: -1 before, 0 equal,
/// 1 after.
fn compare_with_hour(t: &RecordTime, hour: u32) -> (r: i8)
    ensures
        r == -1 <==> before_hour(*t, hour),
        r == 0 <==> at_hour(*t, hour),
        r == 1 <==> after_hour(*t, hour),
        r == -1 || r == 0 || r == 1,
{
    if t.hour < hour {
        -1
    } else if t.hour > hour {
        1
    } else if t.minute == 0 && t.second == 0 && t.nanosecond == 0 {
        0
    } else {
        1
    }
}

/// Cleanup action for a record at `t` when repairing `date` with opening
/// hour `open_hour` and closing hour `close_hour`: records of other days are
/// left alone, records strictly outside `open_hour:00..=close_hour:00` are
/// deleted, records exactly on either boundary are reset to 0, the rest are
/// kept.
pub fn cleanup_action(t: &RecordTime, date: &CalendarDate, open_hour: u32, close_hour: u32) -> (r:
    CleanupAction)
    requires
        open_hour < 24,
        close_hour < 24,
    ensures
        r == cleanup_action_spec(*t, *date, open_hour, close_hour),
{
    if t.date != *date {
        return CleanupAction::OtherDay;
    }
    let vs_open = compare_with_hour(t, open_hour);
    let vs_close = compare_with_hour(t, close_hour);
    if vs_open < 0 || vs_close > 0 {
        CleanupAction::Delete
    } else if vs_open == 0 || vs_close == 0 {
        CleanupAction::ZeroAtBoundary
    } else {
        CleanupAction::Keep
    }
}

/// Some record lies on `date` at `hour` with minute 0.
pub open spec fn has_entry_at_spec(records: Seq<RecordTime>, date: CalendarDate, hour: u32) -> bool {
    exists|i: int|
        0 <= i < records.len() && (#[trigger] records[i]).date == date && records[i].hour == hour
            && records[i].minute == 0
}

/// Whether some record lies on `date` at `hour:00` (any second), i.e. the
/// opening or closing entry of that day already exists.
pub fn has_entry_at(records: &[RecordTime], date: &CalendarDate, hour: u32) -> (r: bool)
    ensures
        r == has_entry_at_spec(records@, *date, hour),
{
    let mut i: usize = 0;
    while i < records.len()
        invariant
            0 <= i <= records.len(),
            forall|j: int|
                0 <= j < i ==> !((#[trigger] records@[j]).date == *date && records@[j].hour == hour
                    && records@[j].minute == 0),
        decreases records.len() - i,
    {
        let r = &records[i];
        if r.date == *date && r.hour == hour && r.minute == 0 {
            return true;
        }
        i = i + 1;
    }
    false
}

/// One missing minute to be filled: the value at `minute` is interpolated
/// between the data points `left` and `left + 1`, `step` minutes after the
/// left one across a gap of `gap` minutes.
#[derive(Debug, Clone, Copy, PartialEq, Eq, Structural)]
pub struct GapFill {
    pub minute: i64,
    pub left: usize,
    pub step: i64,
    pub gap: i64,
}

/// The minutes filled between data points `i` and `i + 1` (minutes of the
/// day): every minute strictly between them, when they are 2 to
/// `MAX_GAP_MINUTES` minutes apart and both lie within
/// `open_hour:00..=close_hour:00`.
pub open spec fn fills_between(minutes: Seq<i64>, i: int, open_hour: u32, close_hour: u32) -> Seq<
    GapFill,
> {
    let m1 = minutes[i] as int;
    let m2 = minutes[i + 1] as int;
    let gap = m2 - m1;
    if 1 < gap <= 5 && m1 >= open_hour * 60 && m2 <= close_hour * 60 {
        Seq::new(
            (gap - 1) as nat,
            |s: int|
                GapFill {
                    minute: (m1 + 1 + s) as i64,
                    left: i as usize,
                    step: (1 + s) as i64,
                    gap: gap as i64,
                },
        )
    } else {
        Seq::empty()
    }
}

/// The fills between the first `n` consecutive pairs of data points.
pub open spec fn gap_fills_upto(minutes: Seq<i64>, n: int, open_hour: u32, close_hour: u32) -> Seq<
    GapFill,
>
    decreases n,
{
    if n <= 0 {
        Seq::empty()
    } else {
        gap_fills_upto(minutes, n - 1, open_hour, close_hour) + fills_between(
            minutes,
            n - 1,
            open_hour,
            close_hour,
        )
    }
}

/// All fills for the data points `minutes`, in order.
pub open spec fn gap_fills_spec(minutes: Seq<i64>, open_hour: u32, close_hour: u32) -> Seq<GapFill> {
    if minutes.len() < 2 {
        Seq::empty()
    } else {
        gap_fills_upto(minutes, minutes.len() - 1, open_hour, close_hour)
    }
}

/// Data point `a` comes before data point `b` when ordered by minute of the
/// day, points of the same minute keeping their original order.
pub open spec fn before_by_minute(minutes: Seq<i64>, a: int, b: int) -> bool {
    minutes[a] < minutes[b] || (minutes[a] == minutes[b] && a < b)
}

/// The order in which a day's data points are interpolated: the indices of
/// `minutes`, each once, sorted by minute of the day, points of the same
/// minute in their original order (a stable sort).
pub fn minute_order(minutes: &[i64]) -> (r: Vec<usize>)
    ensures
        r.len() == minutes.len(),
        forall|i: int| 0 <= i < r.len() ==> #[trigger] r[i] < minutes.len(),
        forall|i: int, j: int|
            0 <= i < j < r.len() ==> before_by_minute(minutes@, #[trigger] r[i] as int, #[trigger] r[j] as int),
        forall|k: usize| k < minutes.len() ==> #[trigger] r@.contains(k),
{
    let n = minutes.len();
    let mut order: Vec<usize> = Vec::new();
    let mut k: usize = 0;
    while k < n
        invariant
            k <= n,
            n == minutes.len(),
            order.len() == k,
            forall|i: int| 0 <= i < order.len() ==> #[trigger] order[i] < k,
            forall|i: int, j: int|
                0 <= i < j < order.len() ==> before_by_minute(
                    minutes@,
                    #[trigger] order[i] as int,
                    #[trigger] order[j] as int,
                ),
            forall|m: usize| m < k ==> #[trigger] order@.contains(m),
        decreases n - k,
    {
        let mut p: usize = 0;
        while p < order.len() && minutes[order[p]] <= minutes[k]
            invariant
                p <= order.len(),
                k < n,
                n == minutes.len(),
                forall|i: int| 0 <= i < order.len() ==> #[trigger] order[i] < k,
                forall|q: int| 0 <= q < p ==> before_by_minute(minutes@, #[trigger] order[q] as int, k as int),
            decreases order.len() - p,
        {
            p = p + 1;
        }
        let ghost before = order@;
        assert forall|q: int| p <= q < before.len() implies before_by_minute(
            minutes@,
            k as int,
            #[trigger] before[q] as int,
        ) by {
            if q > p {
                assert(before_by_minute(minutes@, before[p as int] as int, before[q] as int));
            }
        }
        order.insert(p, k);
        assert(order@ == before.insert(p as int, k));
        assert forall|a: int, b: int| 0 <= a < b < order@.len() implies before_by_minute(
            minutes@,
            #[trigger] order@[a] as int,
            #[trigger] order@[b] as int,
        ) by {
            if b < p {
                assert(before_by_minute(minutes@, before[a] as int, before[b] as int));
            } else if b == p {
                assert(before_by_minute(minutes@, before[a] as int, k as int));
            } else if a < p {
                assert(before_by_minute(minutes@, before[a] as int, k as int));
                assert(before_by_minute(minutes@, k as int, before[b - 1] as int));
            } else if a == p {
                assert(before_by_minute(minutes@, k as int, before[b - 1] as int));
            } else {
                assert(before_by_minute(minutes@, before[a - 1] as int, before[b - 1] as int));
            }
        }
        assert forall|m: usize| m < k + 1 implies #[trigger] order@.contains(m) by {
            if m == k {
                assert(order@[p as int] == k);
            } else {
                assert(before.contains(m));
                let j = choose|j: int| 0 <= j < before.len() && before[j] == m;
                if j < p {
                    assert(order@[j] == m);
                } else {
                    assert(order@[j + 1] == m);
                }
            }
        }
        k = k + 1;
    }
    order
}

/// Plans the interpolation of a day's short gaps: for consecutive data
/// points (minutes of the day, in the order given) that are 2 to
/// `MAX_GAP_MINUTES` minutes apart and both within opening hours, every
/// minute between them is filled.
pub fn plan_gap_fills(minutes: &[i64], open_hour: u32, close_hour: u32) -> (r: Vec<GapFill>)
    requires
        forall|i: int| 0 <= i < minutes@.len() ==> 0 <= #[trigger] minutes@[i] < 1440,
    ensures
        r@ == gap_fills_spec(minutes@, open_hour, close_hour),
{
    let mut fills: Vec<GapFill> = Vec::new();
    if minutes.len() < 2 {
        assert(fills@ =~= gap_fills_spec(minutes@, open_hour, close_hour));
        return fills;
    }
    let open_minute = open_hour as i64 * 60;
    let close_minute = close_hour as i64 * 60;
    let mut i: usize = 0;
    while i < minutes.len() - 1
        invariant
            minutes@.len() >= 2,
            0 <= i <= minutes@.len() - 1,
            open_minute == open_hour * 60,
            close_minute == close_hour * 60,
            forall|j: int| 0 <= j < minutes@.len() ==> 0 <= #[trigger] minutes@[j] < 1440,
            fills@ == gap_fills_upto(minutes@, i as int, open_hour, close_hour),
        decreases minutes@.len() - 1 - i,
    {
        let m1 = minutes[i];
        let m2 = minutes[i + 1];
        let gap = m2 - m1;
        let ghost before = fills@;
        let ghost expected = fills_between(minutes@, i as int, open_hour, close_hour);
        if gap > 1 && gap <= MAX_GAP_MINUTES && m1 >= open_minute && m2 <= close_minute {
            let mut m = m1 + 1;
            while m < m2
                invariant
                    m1 + 1 <= m <= m2,
                    gap == m2 - m1,
                    1 < gap <= 5,
                    0 <= m1 < 1440,
                    i + 1 < minutes@.len(),
                    m1 == minutes@[i as int],
                    m2 == minutes@[i as int + 1],
                    expected == fills_between(minutes@, i as int, open_hour, close_hour),
                    expected.len() == gap - 1,
                    fills@ == before + expected.subrange(0, m - m1 - 1),
                decreases m2 - m,
            {
                fills.push(GapFill { minute: m, left: i, step: m - m1, gap });
                assert(fills@ =~= before + expected.subrange(0, m - m1));
                m = m + 1;
            }
            assert(expected.subrange(0, m - m1 - 1) =~= expected);
        } else {
            assert(expected =~= Seq::<GapFill>::empty());
            assert(fills@ =~= before + expected);
        }
        i = i + 1;
    }
    fills
}

} // verus!

verus! {

/// A record that the cleanup keeps lies on the repaired day strictly
/// between opening and closing time; one that it resets lies exactly on one
/// of them; records strictly outside the opening hours of that day are
/// always deleted.
pub proof fn lemma_cleanup_respects_hours(
    t: RecordTime,
    date: CalendarDate,
    open_hour: u32,
    close_hour: u32,
)
    ensures
        cleanup_action_spec(t, date, open_hour, close_hour) == CleanupAction::Keep ==> t.date
            == date && after_hour(t, open_hour) && before_hour(t, close_hour),
        cleanup_action_spec(t, date, open_hour, close_hour) == CleanupAction::ZeroAtBoundary
            ==> t.date == date && (at_hour(t, open_hour) || at_hour(t, close_hour)),
        t.date == date && (before_hour(t, open_hour) || after_hour(t, close_hour))
            ==> cleanup_action_spec(t, date, open_hour, close_hour) == CleanupAction::Delete,
{
}

/// Every planned fill lies strictly between its two data points, which are
/// at most `MAX_GAP_MINUTES` apart and both within
/// `open_hour:00..=close_hour:00`; `step` counts the minutes from the left
/// data point.
pub proof fn lemma_fills_between_close_points(
    minutes: Seq<i64>,
    open_hour: u32,
    close_hour: u32,
    k: int,
)
    requires
        minutes.len() <= usize::MAX,
        forall|i: int| 0 <= i < minutes.len() ==> 0 <= #[trigger] minutes[i] < 1440,
        0 <= k < gap_fills_spec(minutes, open_hour, close_hour).len(),
    ensures
        ({
            let f = gap_fills_spec(minutes, open_hour, close_hour)[k];
            &&& 0 <= f.left < minutes.len() - 1
            &&& minutes[f.left as int] < f.minute < minutes[f.left as int + 1]
            &&& f.minute == minutes[f.left as int] + f.step
            &&& f.gap == minutes[f.left as int + 1] - minutes[f.left as int]
            &&& 1 < f.gap <= MAX_GAP_MINUTES
            &&& minutes[f.left as int] >= open_hour * 60
            &&& minutes[f.left as int + 1] <= close_hour * 60
        }),
{
    lemma_fills_upto_close_points(minutes, open_hour, close_hour, minutes.len() - 1, k);
}

proof fn lemma_fills_upto_close_points(
    minutes: Seq<i64>,
    open_hour: u32,
    close_hour: u32,
    n: int,
    k: int,
)
    requires
        minutes.len() >= 2,
        minutes.len() <= usize::MAX,
        forall|i: int| 0 <= i < minutes.len() ==> 0 <= #[trigger] minutes[i] < 1440,
        n <= minutes.len() - 1,
        0 <= k < gap_fills_upto(minutes, n, open_hour, close_hour).len(),
    ensures
        ({
            let f = gap_fills_upto(minutes, n, open_hour, close_hour)[k];
            &&& 0 <= f.left < n
            &&& minutes[f.left as int] < f.minute < minutes[f.left as int + 1]
            &&& f.minute == minutes[f.left as int] + f.step
            &&& f.gap == minutes[f.left as int + 1] - minutes[f.left as int]
            &&& 1 < f.gap <= MAX_GAP_MINUTES
            &&& minutes[f.left as int] >= open_hour * 60
            &&& minutes[f.left as int + 1] <= close_hour * 60
        }),
    decreases n,
{
    if n > 0 {
        let prefix = gap_fills_upto(minutes, n - 1, open_hour, close_hour);
        if k < prefix.len() {
            lemma_fills_upto_close_points(minutes, open_hour, close_hour, n - 1, k);
        } else {
            let here = fills_between(minutes, n - 1, open_hour, close_hour);
            assert(gap_fills_upto(minutes, n, open_hour, close_hour)[k] == here[k - prefix.len()]);
        }
    }
}

/// The fills planned for the first `j` pairs stay, unchanged and in front,
/// when more pairs follow.
proof fn lemma_fills_upto_prefix(minutes: Seq<i64>, open_hour: u32, close_hour: u32, j: int, n: int)
    requires
        0 <= j <= n,
    ensures
        gap_fills_upto(minutes, j, open_hour, close_hour).len() <= gap_fills_upto(
            minutes,
            n,
            open_hour,
            close_hour,
        ).len(),
        forall|k: int|
            0 <= k < gap_fills_upto(minutes, j, open_hour, close_hour).len() ==> gap_fills_upto(
                minutes,
                n,
                open_hour,
                close_hour,
            )[k] == #[trigger] gap_fills_upto(minutes, j, open_hour, close_hour)[k],
    decreases n - j,
{
    if j < n {
        lemma_fills_upto_prefix(minutes, open_hour, close_hour, j, n - 1);
    }
}

/// Every gap is filled: for every pair of consecutive data points `i`,
/// `i + 1` that lie 2 to `MAX_GAP_MINUTES` minutes apart, both within
/// `open_hour:00..=close_hour:00`, each minute strictly between them is
/// planned, interpolated from point `i` across that gap, whatever the other
/// pairs of the day are.
pub proof fn lemma_gap_fills_complete(
    minutes: Seq<i64>,
    open_hour: u32,
    close_hour: u32,
    i: int,
    m: int,
)
    requires
        forall|x: int| 0 <= x < minutes.len() ==> 0 <= #[trigger] minutes[x] < 1440,
        minutes.len() <= usize::MAX,
        0 <= i,
        i + 1 < minutes.len(),
        2 <= minutes[i + 1] - minutes[i] <= MAX_GAP_MINUTES,
        minutes[i] >= open_hour * 60,
        minutes[i + 1] <= close_hour * 60,
        minutes[i] < m < minutes[i + 1],
    ensures
        exists|k: int|
            0 <= k < gap_fills_spec(minutes, open_hour, close_hour).len() && {
                let f = #[trigger] gap_fills_spec(minutes, open_hour, close_hour)[k];
                &&& f.minute == m
                &&& f.left == i
                &&& f.step == m - minutes[i]
                &&& f.gap == minutes[i + 1] - minutes[i]
            },
{
    let before = gap_fills_upto(minutes, i, open_hour, close_hour);
    let here = fills_between(minutes, i, open_hour, close_hour);
    let upto = gap_fills_upto(minutes, i + 1, open_hour, close_hour);
    assert(upto == before + here);
    let s = m - minutes[i] - 1;
    let k = before.len() + s;
    assert(here[s].minute == m);
    assert(upto[k] == here[s]);
    lemma_fills_upto_prefix(minutes, open_hour, close_hour, i + 1, minutes.len() - 1);
    assert(gap_fills_spec(minutes, open_hour, close_hour)[k] == upto[k]);
}

/// The opening or closing entry of a day counts only at minute 0 of its
/// hour: the lookup answers true exactly when some record of that date lies
/// at `hour:00`, so a record later in that hour (say `hour:05`) does not
/// count.
pub proof fn lemma_entry_only_at_full_hour(records: Seq<RecordTime>, date: CalendarDate, hour: u32)
    ensures
        has_entry_at_spec(records, date, hour) <==> exists|i: int|
            0 <= i < records.len() && #[trigger] records[i].date == date && records[i].hour == hour
                && records[i].minute == 0,
        forall|t: RecordTime|
            t.date == date && t.hour == hour && t.minute != 0 ==> (has_entry_at_spec(
                seq![t],
                date,
                hour,
            ) == false),
{
    assert forall|t: RecordTime|
        t.date == date && t.hour == hour && t.minute != 0 implies (has_entry_at_spec(
        seq![t],
        date,
        hour,
    ) == false) by {
        if has_entry_at_spec(seq![t], date, hour) {
            let i = choose|i: int|
                0 <= i < seq![t].len() && (#[trigger] seq![t][i]).date == date && seq![t][i].hour
                    == hour && seq![t][i].minute == 0;
            assert(seq![t][i] == t);
        }
    }
}

} // verus!
