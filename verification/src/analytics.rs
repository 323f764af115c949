//! Labels of the occupancy analytics: trend directions, comparison modes,
//! insight categories, weekday names, and the mapping of UTC
//! weekday/hour slots onto local time.

use std::collections::BTreeSet;

use vstd::prelude::*;
use vstd::std_specs::cmp::OrdSpec;
use vstd::std_specs::iter::IteratorSpec;

use crate::calendar::tdiv;

verus! {

/// How two periods are compared.
#[derive(Debug, Clone, Copy, PartialEq, Eq, Structural)]
pub enum ComparisonMode {
    WeekOverWeek,
    MonthOverMonth,
    CustomRange,
}

/// Direction of an occupancy trend.
#[derive(Debug, Clone, Copy, PartialEq, Eq, Structural)]
pub enum TrendDirection {
    Increasing,
    Decreasing,
    Stable,
    Insufficient,
}

/// What an insight is about.
#[derive(Debug, Clone, Copy, PartialEq, Eq, Structural)]
pub enum InsightCategory {
    Trend,
    Peak,
    QuietTime,
    Anomaly,
    DayPattern,
    Consistency,
}

/// Human-readable description of a trend.
pub open spec fn trend_description(t: TrendDirection) -> Seq<char> {
    match t {
        TrendDirection::Increasing => "getting busier"@,
        TrendDirection::Decreasing => "getting quieter"@,
        TrendDirection::Stable => "staying consistent"@,
        TrendDirection::Insufficient => "insufficient data"@,
    }
}

/// Symbol shown next to a trend.
pub open spec fn trend_emoji(t: TrendDirection) -> Seq<char> {
    match t {
        TrendDirection::Increasing => "📈"@,
        TrendDirection::Decreasing => "📉"@,
        TrendDirection::Stable => "➡️"@,
        TrendDirection::Insufficient => "❓"@,
    }
}

impl TrendDirection {
    /// Human-readable description of the trend.
    pub fn description(&self) -> (r: &'static str)
        ensures
            r@ == trend_description(*self),
    {
        match self {
            TrendDirection::Increasing => "getting busier",
            TrendDirection::Decreasing => "getting quieter",
            TrendDirection::Stable => "staying consistent",
            TrendDirection::Insufficient => "insufficient data",
        }
    }

    /// Symbol shown next to the trend.
    pub fn emoji(&self) -> (r: &'static str)
        ensures
            r@ == trend_emoji(*self),
    {
        match self {
            TrendDirection::Increasing => "📈",
            TrendDirection::Decreasing => "📉",
            TrendDirection::Stable => "➡️",
            TrendDirection::Insufficient => "❓",
        }
    }
}

/// Long weekday names, Monday first.
pub open spec fn day_names_long() -> Seq<Seq<char>> {
    seq!["Monday"@, "Tuesday"@, "Wednesday"@, "Thursday"@, "Friday"@, "Saturday"@, "Sunday"@]
}

/// Short weekday names, Monday first.
pub open spec fn day_names_short() -> Seq<Seq<char>> {
    seq!["Mon"@, "Tue"@, "Wed"@, "Thu"@, "Fri"@, "Sat"@, "Sun"@]
}

/// Long name of weekday `weekday` (0 = Monday .. 6 = Sunday); "Unknown"
/// for any other number.
pub fn weekday_name(weekday: i32) -> (r: &'static str)
    ensures
        0 <= weekday < 7 ==> r@ == day_names_long()[weekday as int],
        !(0 <= weekday < 7) ==> r@ == "Unknown"@,
{
    match weekday {
        0 => "Monday",
        1 => "Tuesday",
        2 => "Wednesday",
        3 => "Thursday",
        4 => "Friday",
        5 => "Saturday",
        6 => "Sunday",
        _ => "Unknown",
    }
}

/// Short name of weekday `weekday` (0 = Monday .. 6 = Sunday); "???" for
/// any other number.
pub fn weekday_short(weekday: i32) -> (r: &'static str)
    ensures
        0 <= weekday < 7 ==> r@ == day_names_short()[weekday as int],
        !(0 <= weekday < 7) ==> r@ == "???"@,
{
    match weekday {
        0 => "Mon",
        1 => "Tue",
        2 => "Wed",
        3 => "Thu",
        4 => "Fri",
        5 => "Sat",
        6 => "Sun",
        _ => "???",
    }
}

/// Seconds in a week.
pub open spec fn seconds_per_week() -> int {
    604800int
}

/// Second of the local week (Monday 00:00 = 0) at which the UTC slot
/// `weekday`/`hour` starts, for a local offset of `offset_seconds` from UTC.
pub open spec fn local_second_of_week(weekday: int, hour: int, offset_seconds: int) -> int {
    ((weekday * 24 + hour) * 3600 + offset_seconds) % seconds_per_week()
}

/// Local `(weekday, hour)` of the UTC slot `weekday`/`hour` (weekday 0 =
/// Monday) for a local offset of `offset_seconds` from UTC, wrapping around
/// the week.
pub fn local_weekday_hour(weekday: i32, hour: i32, offset_seconds: i32) -> (r: (i32, i32))
    ensures
        r.0 == local_second_of_week(weekday as int, hour as int, offset_seconds as int) / 3600
            / 24,
        r.1 == (local_second_of_week(weekday as int, hour as int, offset_seconds as int) / 3600)
            % 24,
        0 <= r.0 < 7,
        0 <= r.1 < 24,
{
    let seconds_per_week: i64 = 7 * 24 * 3600;
    let utc_seconds = (weekday as i64 * 24 + hour as i64) * 3600;
    let local_seconds = utc_seconds + offset_seconds as i64;
    let rem = local_seconds % seconds_per_week;
    let wrapped = (rem + seconds_per_week) % seconds_per_week;
    proof {
        let x = local_seconds as int;
        let q = tdiv(x, 604800);
        assert(rem == x - 604800 * q);
        vstd::arithmetic::div_mod::lemma_mod_multiples_vanish(1 - q, x, 604800);
        assert(604800 * (1 - q) + x == rem + 604800) by (nonlinear_arith)
            requires
                rem == x - 604800 * q,
        ;
    }
    assert(wrapped == local_second_of_week(weekday as int, hour as int, offset_seconds as int));
    let local_w = (wrapped / 3600) / 24;
    let local_h = (wrapped / 3600) % 24;
    (local_w as i32, local_h as i32)
}

} // verus!

verus! {

/// Slot `p` comes before slot `q`: by weekday, then by hour.
pub open spec fn slot_before(p: (i32, i32), q: (i32, i32)) -> bool {
    p.0 < q.0 || (p.0 == q.0 && p.1 < q.1)
}

/// The slots are in strictly increasing order (hence free of repeats).
pub open spec fn strictly_sorted(s: Seq<(i32, i32)>) -> bool {
    forall|i: int, j: int| 0 <= i < j < s.len() ==> slot_before(#[trigger] s[i], #[trigger] s[j])
}

/// Some of the first `n` slots of `s` is `x`.
pub open spec fn occurs_before(s: Seq<(i32, i32)>, n: int, x: (i32, i32)) -> bool {
    exists|j: int| 0 <= j < n && #[trigger] s[j] == x
}

broadcast use vstd::std_specs::btree::group_btree_axioms, vstd::laws_cmp::group_laws_cmp;

/// Adds the slots `src[..]` to `set`.
fn insert_all(set: &mut BTreeSet<(i32, i32)>, src: &[(i32, i32)])
    ensures
        forall|x: (i32, i32)|
            #![trigger final(set)@.contains(x)]
            #![trigger old(set)@.contains(x)]
            #![trigger src@.contains(x)]
            final(set)@.contains(x) <==> (old(set)@.contains(x) || src@.contains(x)),
{
    let ghost start = set@;
    for i in 0..src.len()
        invariant
            forall|x: (i32, i32)|
                #![trigger set@.contains(x)]
                #![trigger start.contains(x)]
                #![trigger occurs_before(src@, i as int, x)]
                set@.contains(x) <==> (start.contains(x) || occurs_before(src@, i as int, x)),
    {
        set.insert(src[i]);
        assert forall|x: (i32, i32)|
            set@.contains(x) <==> (start.contains(x) || occurs_before(src@, i + 1, x)) by {
            if occurs_before(src@, i + 1, x) && x != src@[i as int] {
                let j = choose|j: int| 0 <= j < i + 1 && #[trigger] src@[j] == x;
                assert(occurs_before(src@, i as int, x));
            }
            if occurs_before(src@, i as int, x) {
                let j = choose|j: int| 0 <= j < i && #[trigger] src@[j] == x;
                assert(occurs_before(src@, i + 1, x));
            }
            if x == src@[i as int] {
                assert(occurs_before(src@, i + 1, x));
            }
        }
    }
    assert forall|x: (i32, i32)| occurs_before(src@, src@.len() as int, x) <==> src@.contains(x) by {
        if src@.contains(x) {
            let j = choose|j: int| 0 <= j < src@.len() && src@[j] == x;
            assert(src@[j] == x);
        }
    }
}

/// All slots occurring in `baseline` or `current`, each once, ordered by
/// weekday and then hour: the slots that a period comparison covers.
pub fn merged_slot_keys(baseline: &[(i32, i32)], current: &[(i32, i32)]) -> (r: Vec<(i32, i32)>)
    ensures
        strictly_sorted(r@),
        forall|x: (i32, i32)| r@.contains(x) <==> (baseline@.contains(x) || current@.contains(x)),
{
    let mut set: BTreeSet<(i32, i32)> = BTreeSet::new();
    let ghost empty = set@;
    insert_all(&mut set, baseline);
    insert_all(&mut set, current);
    let ghost elems = vstd::std_specs::btree::spec_btree_keys_iter(&set).remaining();
    let mut keys: Vec<(i32, i32)> = Vec::new();
    for k in it: set.iter()
        invariant
            it.seq() == elems,
            keys@ == it.seq().take(it.index()).map_values(|r: &(i32, i32)| *r),
    {
        keys.push(*k);
        assert(keys@ =~= it.seq().take(it.index() + 1).map_values(|r: &(i32, i32)| *r));
    }
    assert(keys@ =~= elems.unref());
    proof {
        lemma_increasing_slots(elems);
    }
    assert(keys@.to_set() == set@);
    assert forall|x: (i32, i32)|
        keys@.contains(x) <==> (baseline@.contains(x) || current@.contains(x)) by {
        assert(!empty.contains(x));
        assert(keys@.contains(x) <==> keys@.to_set().contains(x));
    }
    keys
}

/// Slots listed in increasing order are strictly sorted.
proof fn lemma_increasing_slots(s: Seq<&(i32, i32)>)
    requires
        vstd::std_specs::btree::increasing_seq(s),
    ensures
        strictly_sorted(s.unref()),
{
    assert(vstd::laws_cmp::obeys_cmp::<(i32, i32)>());
    assert(vstd::laws_cmp::obeys_cmp::<&(i32, i32)>());
    let t = s.unref();
    assert forall|i: int, j: int| 0 <= i < j < t.len() implies slot_before(
        #[trigger] t[i],
        #[trigger] t[j],
    ) by {
        assert(OrdSpec::cmp_spec(&s[i], &s[j]) is Less);
        assert(t[i].cmp_spec(&t[j]) is Less);
    }
}

/// UTC weekday (Monday = 0) and hour of the Unix time `secs` (January 1,
/// 1970 was a Thursday).
pub open spec fn utc_slot(secs: int) -> (int, int) {
    ((secs / 86400 + 3) % 7, (secs % 86400) / 3600)
}

/// Index of the first slot equal to `key` in `keys[i..]`, if any.
pub open spec fn first_slot_from(keys: Seq<(i32, i32)>, key: (int, int), i: int) -> Option<int>
    decreases keys.len() - i,
{
    if i < 0 || i >= keys.len() {
        None
    } else if keys[i].0 == key.0 && keys[i].1 == key.1 {
        Some(i)
    } else {
        first_slot_from(keys, key, i + 1)
    }
}

/// The prediction for `ahead` hours after `now`: when the gym is open then
/// (`open`) and the baseline has that UTC slot, the pair of `ahead` and the
/// index of the first baseline entry for the slot.
pub open spec fn prediction_pick(keys: Seq<(i32, i32)>, now: int, ahead: int, open: bool) -> Seq<
    (i64, usize),
> {
    if open {
        match first_slot_from(keys, utc_slot(now + 3600 * ahead), 0) {
            Some(j) => seq![(ahead as i64, j as usize)],
            None => Seq::empty(),
        }
    } else {
        Seq::empty()
    }
}

/// UTC weekday (Monday = 0) and hour of the Unix time `secs`.
fn utc_weekday_hour(secs: i64) -> (r: (i32, i32))
    ensures
        r.0 == utc_slot(secs as int).0,
        r.1 == utc_slot(secs as int).1,
{
    let mut days: i64 = secs / 86400;
    let mut rem: i64 = secs % 86400;
    if rem < 0 {
        days = days - 1;
        rem = rem + 86400;
    }
    proof {
        vstd::arithmetic::div_mod::lemma_fundamental_div_mod_converse(
            secs as int,
            86400,
            days as int,
            rem as int,
        );
    }
    let dm: i64 = days % 7;
    let w: i64 = (dm + 10) % 7;
    proof {
        let t = (dm + 10) / 7;
        let q = (days - dm) / 7;
        assert(days == 7 * q + dm);
        assert(dm + 10 == 7 * t + w && 0 <= w < 7);
        vstd::arithmetic::div_mod::lemma_fundamental_div_mod_converse(
            days + 3,
            7,
            q + t - 1,
            w as int,
        );
    }
    let h: i64 = rem / 3600;
    (w as i32, h as i32)
}

/// Index of the first baseline entry for the slot `(weekday, hour)`.
fn first_slot_index(keys: &[(i32, i32)], weekday: i32, hour: i32) -> (r: Option<usize>)
    ensures
        match r {
            Some(j) => first_slot_from(keys@, (weekday as int, hour as int), 0) == Some(j as int),
            None => first_slot_from(keys@, (weekday as int, hour as int), 0) is None,
        },
{
    let mut j: usize = 0;
    while j < keys.len()
        invariant
            j <= keys@.len(),
            first_slot_from(keys@, (weekday as int, hour as int), 0) == first_slot_from(
                keys@,
                (weekday as int, hour as int),
                j as int,
            ),
        decreases keys@.len() - j,
    {
        if keys[j].0 == weekday && keys[j].1 == hour {
            return Some(j);
        }
        j = j + 1;
    }
    None
}

/// Which of the next two hours get a prediction, and from which baseline
/// entry: for `ahead` = 1 and 2, when the gym is open at that time
/// (`open_next_hour`, `open_hour_after`, decided on local time by the
/// caller) and `keys` (the baseline's UTC weekday and hour slots) holds the
/// UTC slot of `now_utc_secs` plus `ahead` hours, the pair of `ahead` and
/// the first such entry's index.
pub fn prediction_slots(
    now_utc_secs: i64,
    open_next_hour: bool,
    open_hour_after: bool,
    keys: &[(i32, i32)],
) -> (r: Vec<(i64, usize)>)
    requires
        now_utc_secs <= i64::MAX - 7200,
    ensures
        r@ == prediction_pick(keys@, now_utc_secs as int, 1, open_next_hour) + prediction_pick(
            keys@,
            now_utc_secs as int,
            2,
            open_hour_after,
        ),
{
    let mut picks: Vec<(i64, usize)> = Vec::new();
    let mut ahead: i64 = 1;
    while ahead <= 2
        invariant
            1 <= ahead <= 3,
            now_utc_secs <= i64::MAX - 7200,
            picks@ == (if ahead > 1 {
                prediction_pick(keys@, now_utc_secs as int, 1, open_next_hour)
            } else {
                Seq::empty()
            }) + (if ahead > 2 {
                prediction_pick(keys@, now_utc_secs as int, 2, open_hour_after)
            } else {
                Seq::empty()
            }),
        decreases 3 - ahead,
    {
        let open = if ahead == 1 {
            open_next_hour
        } else {
            open_hour_after
        };
        let ghost before = picks@;
        if open {
            let (w, h) = utc_weekday_hour(now_utc_secs + 3600 * ahead);
            match first_slot_index(keys, w, h) {
                Some(j) => {
                    picks.push((ahead, j));
                },
                None => {},
            }
        }
        assert(picks@ =~= before + prediction_pick(keys@, now_utc_secs as int, ahead as int, open));
        ahead = ahead + 1;
    }
    picks
}

} // verus!
