//! The figures of a statistics report, gathered from a `StatsCollector`:
//! everything that the human-readable and the JSON renderings print, as
//! plain values.

use vstd::prelude::*;
use crate::config::Config;
use crate::duration::{format_duration, humantime_text, Duration};
use crate::filter::{FILTER_MAP_SIZE, FILTER_SLOTS, NUM_KEY_STATES};
use crate::filter::keynames::{get_key_name, get_value_name, spec_display_key_name, spec_value_name};
use crate::filter::stats::{
    spec_aggregated, spec_key_dropped, spec_key_passed, spec_key_totals_fit, KeyStats, KeyValueStats, NearMissStats, StatsCollector,
    TimingHistogram, HISTOGRAM_BUCKET_BOUNDARIES_MS, NUM_HISTOGRAM_BUCKETS, spec_boundaries_ms,
};
use crate::sums::{lemma_sum_of_elem_le, sum_of};

verus! {

/// One histogram bucket: its bounds in milliseconds (no upper bound for the
/// last) and its count.
#[derive(Copy, Clone, Debug, PartialEq, Eq)]
pub struct BucketReport {
    pub min_ms: u64,
    pub max_ms: Option<u64>,
    pub count: u64,
}

/// A histogram as reported: its buckets, total count and average.
#[derive(Clone, Debug)]
pub struct HistogramReport {
    pub buckets: Vec<BucketReport>,
    pub count: u64,
    pub avg_us: u64,
}

/// Smallest, average (rounded down) and largest of a non-empty list of timings.
#[derive(Copy, Clone, Debug, PartialEq, Eq)]
pub struct TimingSummary {
    pub min_us: u64,
    pub avg_us: u64,
    pub max_us: u64,
}

/// The figures of one key state of one key.
#[derive(Clone, Debug)]
pub struct KeyValueReport {
    pub total_processed: u64,
    pub passed_count: u64,
    pub dropped_count: u64,
    /// Bounce timings, in the order recorded.
    pub timings_us: Vec<u64>,
    /// Summary of the bounce timings, when there are any.
    pub bounce_summary: Option<TimingSummary>,
    pub bounce_histogram: HistogramReport,
}

/// The figures of one key that saw any event.
#[derive(Clone, Debug)]
pub struct KeyReport {
    pub key_code: u16,
    pub key_name: &'static str,
    pub total_processed: u64,
    pub total_passed: u64,
    pub total_dropped: u64,
    pub press: KeyValueReport,
    pub release: KeyValueReport,
    pub repeat: KeyValueReport,
}

/// The near misses of one key state of one key.
#[derive(Clone, Debug)]
pub struct NearMissReport {
    pub key_code: u16,
    pub key_value: i32,
    pub key_name: &'static str,
    pub value_name: &'static str,
    pub timings_us: Vec<u64>,
    pub summary: TimingSummary,
    pub histogram: HistogramReport,
}

/// A complete statistics report.
#[derive(Clone, Debug)]
pub struct StatsReport {
    /// "Cumulative" or "Periodic".
    pub report_type: String,
    pub runtime_us: Option<u64>,
    pub runtime_human: Option<String>,
    pub debounce_time_us: u64,
    pub near_miss_threshold_us: u64,
    pub log_interval_us: u64,
    pub debounce_time_human: String,
    pub near_miss_threshold_human: String,
    pub log_interval_human: String,
    pub key_events_processed: u64,
    pub key_events_passed: u64,
    pub key_events_dropped: u64,
    pub overall_bounce_histogram: HistogramReport,
    pub overall_near_miss_histogram: HistogramReport,
    /// Keys that saw any processed event, by increasing key code.
    pub per_key_stats: Vec<KeyReport>,
    /// Keys that saw any processed or dropped event, by increasing key code:
    /// the keys of the human-readable report.
    pub human_key_stats: Vec<KeyReport>,
    /// Key states with near misses, by increasing key code and state.
    pub per_key_near_miss_stats: Vec<NearMissReport>,
}

/// The smallest element of a non-empty `s`.
pub open spec fn spec_min(s: Seq<u64>) -> u64
    decreases s.len(),
{
    if s.len() <= 1 {
        s[0]
    } else if s.last() < spec_min(s.drop_last()) {
        s.last()
    } else {
        spec_min(s.drop_last())
    }
}

/// The largest element of a non-empty `s`.
pub open spec fn spec_max(s: Seq<u64>) -> u64
    decreases s.len(),
{
    if s.len() <= 1 {
        s[0]
    } else if s.last() > spec_max(s.drop_last()) {
        s.last()
    } else {
        spec_max(s.drop_last())
    }
}

/// The bucket report of bucket `i` of `h`.
pub open spec fn spec_bucket_report(h: TimingHistogram, i: int) -> BucketReport {
    BucketReport {
        min_ms: if i == 0 { 0 } else { spec_boundaries_ms()[i - 1] },
        max_ms: if i == NUM_HISTOGRAM_BUCKETS - 1 { None } else { Some(spec_boundaries_ms()[i]) },
        count: h.buckets@[i],
    }
}

/// `r` reports the histogram `h`.
pub open spec fn spec_histogram_reported(r: HistogramReport, h: TimingHistogram) -> bool {
    &&& r.buckets@.len() == NUM_HISTOGRAM_BUCKETS
    &&& forall|i: int| 0 <= i < NUM_HISTOGRAM_BUCKETS ==> r.buckets@[i] == spec_bucket_report(h, i)
    &&& r.count == h.count
    &&& r.avg_us == (if h.count > 0 { h.sum_us / h.count } else { 0 })
}

/// `s` summarises the non-empty timings `t`.
pub open spec fn spec_summarised(s: TimingSummary, t: Seq<u64>) -> bool {
    &&& s.min_us == spec_min(t)
    &&& s.max_us == spec_max(t)
    &&& s.avg_us == sum_of(t, |x: u64| x as nat) / t.len()
}

/// `r` reports the key state statistics `s`.
pub open spec fn spec_kv_reported(r: KeyValueReport, s: KeyValueStats) -> bool {
    &&& r.total_processed == s.total_processed
    &&& r.passed_count == s.passed_count
    &&& r.dropped_count == s.dropped_count
    &&& r.timings_us@ == s.timings_us@
    &&& match r.bounce_summary {
        Some(sum) => s.timings_us@.len() > 0 && spec_summarised(sum, s.timings_us@),
        None => s.timings_us@.len() == 0,
    }
    &&& spec_histogram_reported(r.bounce_histogram, s.bounce_histogram)
}

/// Whether a key saw any event.
pub open spec fn spec_key_active(k: KeyStats) -> bool {
    k.press.total_processed + k.release.total_processed + k.repeat.total_processed > 0
}

/// Whether a key gets a row: it saw any processed event, or, when
/// `with_dropped`, any dropped event.
pub open spec fn spec_key_listed(k: KeyStats, with_dropped: bool) -> bool {
    spec_key_active(k) || (with_dropped && spec_key_dropped(k) > 0)
}

/// `r` reports the statistics `k` of the key with code `code`.
pub open spec fn spec_key_reported(r: KeyReport, code: int, k: KeyStats) -> bool {
    &&& r.key_code == code
    &&& r.key_name@ == spec_display_key_name(code as u16)
    &&& r.total_processed == k.press.total_processed + k.release.total_processed + k.repeat.total_processed
    &&& r.total_passed == spec_key_passed(k)
    &&& r.total_dropped == spec_key_dropped(k)
    &&& spec_kv_reported(r.press, k.press)
    &&& spec_kv_reported(r.release, k.release)
    &&& spec_kv_reported(r.repeat, k.repeat)
}

/// `r` reports the near misses `n` of table slot `slot`.
pub open spec fn spec_near_miss_reported(r: NearMissReport, slot: int, n: NearMissStats) -> bool {
    &&& r.key_code == slot / NUM_KEY_STATES as int
    &&& r.key_value == slot % NUM_KEY_STATES as int
    &&& r.key_name@ == spec_display_key_name((slot / NUM_KEY_STATES as int) as u16)
    &&& r.value_name@ == spec_value_name((slot % NUM_KEY_STATES as int) as i32)
    &&& r.timings_us@ == n.timings_us@
    &&& spec_summarised(r.summary, n.timings_us@)
    &&& spec_histogram_reported(r.histogram, n.histogram)
}

/// `rows` holds exactly one report per listed key (see `spec_key_listed`),
/// by increasing key code.
pub open spec fn spec_key_rows(rows: Seq<KeyReport>, keys: Seq<KeyStats>, with_dropped: bool) -> bool {
    &&& forall|j: int| #![trigger rows[j]] 0 <= j < rows.len() ==> {
        let c = rows[j].key_code as int;
        &&& c < keys.len()
        &&& spec_key_listed(keys[c], with_dropped)
        &&& spec_key_reported(rows[j], c, keys[c])
    }
    &&& forall|a: int, b: int| #![trigger rows[a], rows[b]] 0 <= a < b < rows.len() ==> rows[a].key_code < rows[b].key_code
    &&& forall|c: int| 0 <= c < keys.len() && spec_key_listed(#[trigger] keys[c], with_dropped) ==> exists|j: int|
        #![trigger rows[j]] 0 <= j < rows.len() && rows[j].key_code == c
}

/// `rows` holds exactly one report per table slot with near misses, by increasing slot.
pub open spec fn spec_near_miss_rows(rows: Seq<NearMissReport>, near: Seq<NearMissStats>) -> bool {
    &&& forall|j: int| #![trigger rows[j]] 0 <= j < rows.len() ==> {
        let s = rows[j].key_code * NUM_KEY_STATES as int + rows[j].key_value;
        &&& 0 <= s < near.len()
        &&& near[s].timings_us@.len() > 0
        &&& spec_near_miss_reported(rows[j], s, near[s])
    }
    &&& forall|a: int, b: int| #![trigger rows[a], rows[b]] 0 <= a < b < rows.len() ==> rows[a].key_code * NUM_KEY_STATES as int + rows[a].key_value
        < rows[b].key_code * NUM_KEY_STATES as int + rows[b].key_value
    &&& forall|s: int| 0 <= s < near.len() && (#[trigger] near[s]).timings_us@.len() > 0 ==> exists|j: int|
        #![trigger rows[j]] 0 <= j < rows.len() && rows[j].key_code * NUM_KEY_STATES as int + rows[j].key_value == s
}

/// A copy of `v`.
fn copy_timings(v: &Vec<u64>) -> (out: Vec<u64>)
    ensures
        out@ == v@,
{
    let mut out: Vec<u64> = Vec::new();
    let mut i: usize = 0;
    while i < v.len()
        invariant
            0 <= i <= v.len(),
            out@ == v@.subrange(0, i as int),
        decreases v.len() - i,
    {
        out.push(v[i]);
        i = i + 1;
    }
    assert(out@ =~= v@);
    out
}

/// Smallest, average (rounded down) and largest of the non-empty `timings`.
pub fn summarize_timings(timings: &Vec<u64>) -> (s: TimingSummary)
    requires
        timings@.len() > 0,
    ensures
        spec_summarised(s, timings@),
{
    let mut min = timings[0];
    let mut max = timings[0];
    let mut total: u128 = timings[0] as u128;
    let mut i: usize = 1;
    assert(timings@.subrange(0, 1).drop_last() =~= Seq::<u64>::empty());
    assert(sum_of(Seq::<u64>::empty(), |x: u64| x as nat) == 0);
    assert(sum_of(timings@.subrange(0, 1), |x: u64| x as nat) == timings@[0] as nat);
    while i < timings.len()
        invariant
            1 <= i <= timings@.len(),
            min == spec_min(timings@.subrange(0, i as int)),
            max == spec_max(timings@.subrange(0, i as int)),
            total == sum_of(timings@.subrange(0, i as int), |x: u64| x as nat),
            total <= i * (u64::MAX as nat),
        decreases timings@.len() - i,
    {
        let x = timings[i];
        let ghost prefix = timings@.subrange(0, i + 1);
        assert(prefix.drop_last() =~= timings@.subrange(0, i as int));
        if x < min {
            min = x;
        }
        if x > max {
            max = x;
        }
        total = total + (x as u128);
        i = i + 1;
    }
    assert(timings@.subrange(0, i as int) =~= timings@);
    let avg = (total / (i as u128)) as u64;
    proof {
        lemma_mean_bounded(total as nat, i as nat);
    }
    TimingSummary { min_us: min, avg_us: avg, max_us: max }
}

/// A sum of `n` values below `2^64` divided by `n` is below `2^64`.
proof fn lemma_mean_bounded(total: nat, n: nat)
    requires
        n > 0,
        total <= n * (u64::MAX as nat),
    ensures
        total / n <= u64::MAX,
{
    vstd::arithmetic::div_mod::lemma_div_is_ordered(total as int, n * (u64::MAX as nat) as int, n as int);
    vstd::arithmetic::div_mod::lemma_div_by_multiple(u64::MAX as int, n as int);
    assert(n * (u64::MAX as nat) == (u64::MAX as nat) * n) by (nonlinear_arith);
}

/// The report of histogram `h`: one entry per bucket, with the bucket's
/// bounds in milliseconds, and the count and average.
pub fn histogram_report(h: &TimingHistogram) -> (r: HistogramReport)
    ensures
        spec_histogram_reported(r, *h),
{
    let mut buckets: Vec<BucketReport> = Vec::new();
    let mut i: usize = 0;
    assert(HISTOGRAM_BUCKET_BOUNDARIES_MS@ =~= spec_boundaries_ms());
    while i < NUM_HISTOGRAM_BUCKETS
        invariant
            0 <= i <= NUM_HISTOGRAM_BUCKETS,
            HISTOGRAM_BUCKET_BOUNDARIES_MS@ == spec_boundaries_ms(),
            buckets@.len() == i,
            forall|j: int| 0 <= j < i ==> buckets@[j] == spec_bucket_report(*h, j),
        decreases NUM_HISTOGRAM_BUCKETS - i,
    {
        let min_ms = if i == 0 {
            0
        } else {
            HISTOGRAM_BUCKET_BOUNDARIES_MS[i - 1]
        };
        let max_ms = if i == NUM_HISTOGRAM_BUCKETS - 1 {
            None
        } else {
            Some(HISTOGRAM_BUCKET_BOUNDARIES_MS[i])
        };
        buckets.push(BucketReport { min_ms, max_ms, count: h.buckets[i] });
        i = i + 1;
    }
    HistogramReport { buckets, count: h.count, avg_us: h.average_us() }
}

/// The report of one key state.
fn key_value_report(s: &KeyValueStats) -> (r: KeyValueReport)
    ensures
        spec_kv_reported(r, *s),
{
    let bounce_summary = if s.timings_us.len() > 0 {
        Some(summarize_timings(&s.timings_us))
    } else {
        None
    };
    KeyValueReport {
        total_processed: s.total_processed,
        passed_count: s.passed_count,
        dropped_count: s.dropped_count,
        timings_us: copy_timings(&s.timings_us),
        bounce_summary,
        bounce_histogram: histogram_report(&s.bounce_histogram),
    }
}

/// `r` reports the statistics `s` (after aggregation) under `config`, as a
/// report of type `report_type` with the runtime `runtime_us`.
pub open spec fn spec_stats_reported(r: StatsReport, s: StatsCollector, config: Config, report_type: Seq<char>, runtime_us: Option<u64>) -> bool {
    &&& r.report_type@ == report_type
    &&& r.runtime_us == runtime_us
    &&& match runtime_us {
        Some(us) => r.runtime_human matches Some(h) && h@ == humantime_text((us as nat) * 1000),
        None => r.runtime_human is None,
    }
    &&& r.debounce_time_us == Config::micros_saturated(config@.debounce_time)
    &&& r.near_miss_threshold_us == Config::micros_saturated(config@.near_miss_threshold)
    &&& r.log_interval_us == Config::micros_saturated(config@.log_interval)
    &&& r.debounce_time_human@ == humantime_text(config@.debounce_time@)
    &&& r.near_miss_threshold_human@ == humantime_text(config@.near_miss_threshold@)
    &&& r.log_interval_human@ == humantime_text(config@.log_interval@)
    &&& r.key_events_processed == s.key_events_processed
    &&& r.key_events_passed == s.key_events_passed
    &&& r.key_events_dropped == s.key_events_dropped
    &&& spec_histogram_reported(r.overall_bounce_histogram, s.overall_bounce_histogram)
    &&& spec_histogram_reported(r.overall_near_miss_histogram, s.overall_near_miss_histogram)
    &&& spec_key_rows(r.per_key_stats@, s.per_key_stats@, false)
    &&& spec_key_rows(r.human_key_stats@, s.per_key_stats@, true)
    &&& spec_near_miss_rows(r.per_key_near_miss_stats@, s.per_key_near_miss_stats@)
}

impl StatsCollector {
    /// Aggregates the histograms and gathers the report of these statistics
    /// under `config`, of type `report_type` and with the runtime `runtime_us`.
    pub fn report(&mut self, config: &Config, report_type: &str, runtime_us: Option<u64>) -> (r: StatsReport)
        requires
            old(self).reportable(),
        ensures
            old(self).consistent() ==> final(self).consistent(),
            spec_aggregated(*old(self), *final(self)),
            spec_stats_reported(r, *final(self), *config, report_type@, runtime_us),
    {
        self.aggregate_histograms();
        let per_key_stats = self.key_reports(false);
        let human_key_stats = self.key_reports(true);
        let per_key_near_miss_stats = self.near_miss_reports();
        let runtime_human = match runtime_us {
            Some(us) => Some(format_duration(Duration::from_micros(us))),
            None => None,
        };
        StatsReport {
            report_type: String::from_str(report_type),
            runtime_us,
            runtime_human,
            debounce_time_us: config.debounce_us(),
            near_miss_threshold_us: config.near_miss_threshold_us(),
            log_interval_us: config.log_interval_us(),
            debounce_time_human: format_duration(config.debounce_time()),
            near_miss_threshold_human: format_duration(config.near_miss_threshold()),
            log_interval_human: format_duration(config.log_interval()),
            key_events_processed: self.key_events_processed,
            key_events_passed: self.key_events_passed,
            key_events_dropped: self.key_events_dropped,
            overall_bounce_histogram: histogram_report(&self.overall_bounce_histogram),
            overall_near_miss_histogram: histogram_report(&self.overall_near_miss_histogram),
            per_key_stats,
            human_key_stats,
            per_key_near_miss_stats,
        }
    }

    /// The reports of the keys that saw any processed event, or, when
    /// `with_dropped`, any processed or dropped event, by increasing key code.
    pub fn key_reports(&self, with_dropped: bool) -> (rows: Vec<KeyReport>)
        requires
            self.wf(),
            forall|k: int| 0 <= k < FILTER_MAP_SIZE ==> spec_key_totals_fit(#[trigger] self.per_key_stats@[k]),
        ensures
            spec_key_rows(rows@, self.per_key_stats@, with_dropped),
    {
        let ghost keys = self.per_key_stats@;
        let mut rows: Vec<KeyReport> = Vec::new();
        let mut k: usize = 0;
        while k < FILTER_MAP_SIZE
            invariant
                0 <= k <= FILTER_MAP_SIZE,
                self.wf(),
                forall|k: int| 0 <= k < FILTER_MAP_SIZE ==> spec_key_totals_fit(#[trigger] self.per_key_stats@[k]),
                keys == self.per_key_stats@,
                forall|j: int| #![trigger rows@[j]] 0 <= j < rows@.len() ==> {
                    let c = rows@[j].key_code as int;
                    &&& c < k
                    &&& spec_key_listed(keys[c], with_dropped)
                    &&& spec_key_reported(rows@[j], c, keys[c])
                },
                forall|a: int, b: int| #![trigger rows@[a], rows@[b]] 0 <= a < b < rows@.len() ==> rows@[a].key_code < rows@[b].key_code,
                forall|c: int| 0 <= c < k && spec_key_listed(#[trigger] keys[c], with_dropped) ==> exists|j: int|
                    #![trigger rows@[j]] 0 <= j < rows@.len() && rows@[j].key_code == c,
            decreases FILTER_MAP_SIZE - k,
        {
            let stats = &self.per_key_stats[k];
            proof {
                assert(spec_key_totals_fit(keys[k as int]));
            }
            let total_processed = stats.press.total_processed + stats.release.total_processed + stats.repeat.total_processed;
            let total_dropped = stats.press.dropped_count + stats.release.dropped_count + stats.repeat.dropped_count;
            if total_processed > 0 || (with_dropped && total_dropped > 0) {
                let row = KeyReport {
                    key_code: k as u16,
                    key_name: get_key_name(k as u16),
                    total_processed,
                    total_passed: stats.press.passed_count + stats.release.passed_count + stats.repeat.passed_count,
                    total_dropped,
                    press: key_value_report(&stats.press),
                    release: key_value_report(&stats.release),
                    repeat: key_value_report(&stats.repeat),
                };
                let ghost before = rows@;
                rows.push(row);
                proof {
                    assert(rows@[before.len() as int] == row);
                    assert forall|c: int| 0 <= c < k + 1 && spec_key_listed(#[trigger] keys[c], with_dropped) implies exists|j: int|
                        #![trigger rows@[j]] 0 <= j < rows@.len() && rows@[j].key_code == c by {
                        if c == k {
                            assert(rows@[before.len() as int].key_code == c);
                        } else {
                            let j = choose|j: int| #![trigger before[j]] 0 <= j < before.len() && before[j].key_code == c;
                            assert(rows@[j] == before[j]);
                        }
                    }
                }
            }
            k = k + 1;
        }
        rows
    }

    /// The reports of the key states with near misses, by increasing key code and state.
    pub fn near_miss_reports(&self) -> (rows: Vec<NearMissReport>)
        requires
            self.wf(),
        ensures
            spec_near_miss_rows(rows@, self.per_key_near_miss_stats@),
    {
        let ghost near = self.per_key_near_miss_stats@;
        let mut rows: Vec<NearMissReport> = Vec::new();
        let mut idx: usize = 0;
        while idx < FILTER_SLOTS
            invariant
                0 <= idx <= FILTER_SLOTS,
                self.wf(),
                near == self.per_key_near_miss_stats@,
                forall|j: int| #![trigger rows@[j]] 0 <= j < rows@.len() ==> {
                    let s = rows@[j].key_code * NUM_KEY_STATES as int + rows@[j].key_value;
                    &&& 0 <= s < idx
                    &&& near[s].timings_us@.len() > 0
                    &&& spec_near_miss_reported(rows@[j], s, near[s])
                },
                forall|a: int, b: int| #![trigger rows@[a], rows@[b]] 0 <= a < b < rows@.len() ==> rows@[a].key_code * NUM_KEY_STATES as int + rows@[a].key_value
                    < rows@[b].key_code * NUM_KEY_STATES as int + rows@[b].key_value,
                forall|s: int| 0 <= s < idx && (#[trigger] near[s]).timings_us@.len() > 0 ==> exists|j: int|
                    #![trigger rows@[j]] 0 <= j < rows@.len() && rows@[j].key_code * NUM_KEY_STATES as int + rows@[j].key_value == s,
            decreases FILTER_SLOTS - idx,
        {
            let n = &self.per_key_near_miss_stats[idx];
            if n.timings_us.len() > 0 {
                let key_code = (idx / NUM_KEY_STATES) as u16;
                let key_value = (idx % NUM_KEY_STATES) as i32;
                let row = NearMissReport {
                    key_code,
                    key_value,
                    key_name: get_key_name(key_code),
                    value_name: get_value_name(key_value),
                    timings_us: copy_timings(&n.timings_us),
                    summary: summarize_timings(&n.timings_us),
                    histogram: histogram_report(&n.histogram),
                };
                assert(key_code * NUM_KEY_STATES as int + key_value == idx);
                let ghost before = rows@;
                rows.push(row);
                proof {
                    assert(rows@[before.len() as int] == row);
                    assert forall|s: int| 0 <= s < idx + 1 && (#[trigger] near[s]).timings_us@.len() > 0 implies exists|j: int|
                        #![trigger rows@[j]] 0 <= j < rows@.len() && rows@[j].key_code * NUM_KEY_STATES as int + rows@[j].key_value == s by {
                        if s == idx {
                            assert(rows@[before.len() as int].key_code * NUM_KEY_STATES as int + rows@[before.len() as int].key_value == s);
                        } else {
                            let j = choose|j: int| #![trigger before[j]] 0 <= j < before.len() && before[j].key_code * NUM_KEY_STATES as int + before[j].key_value == s;
                            assert(rows@[j] == before[j]);
                        }
                    }
                }
            }
            idx = idx + 1;
        }
        rows
    }
}

} // verus!
