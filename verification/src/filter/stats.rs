//! Statistics about filtered events: counts per key and key state, bounce
//! and near-miss timings, and histograms of those timings.

use vstd::prelude::*;
use crate::config::Config;
use crate::event::{is_key_event, spec_is_key_event};
use crate::logger::EventInfo;
use crate::filter::{FILTER_MAP_SIZE, FILTER_SLOTS, NUM_KEY_STATES};
use crate::sums::{
    lemma_sum_of_elem_le, lemma_sum_of_pointwise_add, lemma_sum_of_pointwise_le, lemma_sum_of_prefix_le,
    lemma_sum_of_prefix_step, lemma_sum_of_push, lemma_sum_of_update, lemma_sum_of_zeros, sum_of,
};

verus! {

/// Upper bounds (exclusive, in milliseconds) of all histogram buckets but the last:
/// the buckets are `< 1ms`, `1-2ms`, `2-4ms`, ..., `64-128ms` and `>= 128ms`.
pub const HISTOGRAM_BUCKET_BOUNDARIES_MS: [u64; 8] = [1, 2, 4, 8, 16, 32, 64, 128];
/// Number of histogram buckets.
pub const NUM_HISTOGRAM_BUCKETS: usize = 9;

/// The most bounce timings kept per key state; older ones are dropped.
pub const MAX_BOUNCE_TIMING_SAMPLES: usize = 1024;

/// The most near-miss timings kept per key state; older ones are dropped.
pub const MAX_NEAR_MISS_TIMING_SAMPLES: usize = 1024;

/// `samples` with `value` appended, keeping only the `cap` most recent.
pub open spec fn spec_keep_recent(samples: Seq<u64>, value: u64, cap: nat) -> Seq<u64> {
    let all = samples.push(value);
    if all.len() > cap {
        all.subrange(all.len() - cap, all.len() as int)
    } else {
        all
    }
}

/// How many of `count` recorded timings are kept under a cap of `cap`.
pub open spec fn spec_kept_len(count: u64, cap: nat) -> nat {
    if count <= cap {
        count as nat
    } else {
        cap
    }
}

/// Appends `value` to `samples` and drops the oldest samples beyond `cap`.
fn keep_recent(samples: &mut Vec<u64>, value: u64, cap: usize)
    ensures
        final(samples)@ == spec_keep_recent(old(samples)@, value, cap as nat),
{
    let ghost all = old(samples)@.push(value);
    samples.push(value);
    assert(samples@ =~= all.subrange(all.len() - samples@.len(), all.len() as int));
    while samples.len() > cap
        invariant
            samples@.len() <= all.len(),
            samples@ == all.subrange(all.len() - samples@.len(), all.len() as int),
            all.len() > cap ==> samples@.len() >= cap,
            all.len() <= cap ==> samples@.len() == all.len(),
            all == old(samples)@.push(value),
        decreases samples.len(),
    {
        let ghost before = samples@;
        samples.remove(0);
        assert(samples@ =~= all.subrange(all.len() - samples@.len(), all.len() as int));
    }
    proof {
        if all.len() <= cap as nat {
            assert(samples@ =~= all);
        }
    }
}

/// The bucket boundaries as a sequence.
pub open spec fn spec_boundaries_ms() -> Seq<u64> {
    seq![1u64, 2, 4, 8, 16, 32, 64, 128]
}

/// The bucket of a timing of `timing_us` microseconds: the first bucket whose
/// upper bound exceeds the whole milliseconds of the timing, else the last.
pub open spec fn spec_bucket_index(timing_us: u64) -> int {
    let ms = timing_us / 1000;
    if ms < 1 {
        0
    } else if ms < 2 {
        1
    } else if ms < 4 {
        2
    } else if ms < 8 {
        3
    } else if ms < 16 {
        4
    } else if ms < 32 {
        5
    } else if ms < 64 {
        6
    } else if ms < 128 {
        7
    } else {
        8
    }
}

/// `a + b`, or `u64::MAX` when that does not fit.
pub open spec fn spec_saturating_add(a: u64, b: u64) -> u64 {
    if a + b <= u64::MAX {
        (a + b) as u64
    } else {
        u64::MAX
    }
}

/// The sum of the counts in `buckets`.
pub open spec fn spec_bucket_total(buckets: Seq<u64>) -> nat {
    sum_of(buckets, |x: u64| x as nat)
}

/// A histogram of timing values.
#[derive(Copy, Clone, Debug)]
pub struct TimingHistogram {
    /// Counts per bucket.
    pub buckets: [u64; 9],
    /// Total count of timings recorded.
    pub count: u64,
    /// Sum of all timings recorded, in microseconds, saturating at `u64::MAX`.
    pub sum_us: u64,
}

/// `after` is `before` with a timing of `timing_us` microseconds recorded:
/// one more in its bucket and in the count, and the timing added to the sum.
pub open spec fn spec_recorded(before: TimingHistogram, after: TimingHistogram, timing_us: u64) -> bool {
    let b = spec_bucket_index(timing_us);
    &&& after.buckets@ == before.buckets@.update(b, (before.buckets@[b] + 1) as u64)
    &&& after.count == before.count + 1
    &&& after.sum_us == spec_saturating_add(before.sum_us, timing_us)
}

/// Each bucket of a well-formed histogram holds at most its total count.
proof fn lemma_bucket_within_count(h: TimingHistogram, i: int)
    requires
        h.wf(),
        0 <= i < NUM_HISTOGRAM_BUCKETS,
    ensures
        h.buckets@[i] <= h.count,
{
    lemma_sum_of_elem_le(h.buckets@, i, |x: u64| x as nat);
}

impl TimingHistogram {
    /// The bucket counts add up to the total count, and an empty histogram has an empty sum.
    pub open spec fn wf(self) -> bool {
        &&& spec_bucket_total(self.buckets@) == self.count
        &&& (self.count == 0 ==> self.sum_us == 0)
    }

    /// The histogram holds nothing.
    pub open spec fn is_empty(self) -> bool {
        &&& self.count == 0
        &&& self.sum_us == 0
        &&& forall|i: int| 0 <= i < NUM_HISTOGRAM_BUCKETS ==> self.buckets@[i] == 0
    }

    /// An empty histogram.
    pub fn default() -> (h: Self)
        ensures
            h.wf(),
            h.is_empty(),
    {
        let h = TimingHistogram { buckets: [0u64; 9], count: 0, sum_us: 0 };
        proof {
            lemma_sum_of_zeros(h.buckets@);
        }
        h
    }

    /// Records a timing value (in microseconds) into its bucket.
    pub fn record(&mut self, timing_us: u64)
        requires
            old(self).count < u64::MAX,
            old(self).buckets@[spec_bucket_index(timing_us)] < u64::MAX,
        ensures
            old(self).wf() ==> final(self).wf(),
            spec_recorded(*old(self), *final(self), timing_us),
    {
        let timing_ms = timing_us / 1000;
        let mut bucket_index: usize = NUM_HISTOGRAM_BUCKETS - 1;
        let mut i: usize = 0;
        assert(HISTOGRAM_BUCKET_BOUNDARIES_MS@ =~= spec_boundaries_ms());
        while i < 8
            invariant_except_break
                bucket_index == NUM_HISTOGRAM_BUCKETS - 1,
            invariant
                0 <= i <= 8,
                HISTOGRAM_BUCKET_BOUNDARIES_MS@ == spec_boundaries_ms(),
                timing_ms == timing_us / 1000,
                forall|j: int| 0 <= j < i ==> timing_ms >= spec_boundaries_ms()[j],
            ensures
                bucket_index == spec_bucket_index(timing_us),
            decreases 8 - i,
        {
            if timing_ms < HISTOGRAM_BUCKET_BOUNDARIES_MS[i] {
                bucket_index = i;
                break;
            }
            i = i + 1;
        }
        proof {
            lemma_sum_of_update(self.buckets@, bucket_index as int, (self.buckets@[bucket_index as int] + 1) as u64, |x: u64| x as nat);
        }
        self.buckets[bucket_index] = self.buckets[bucket_index] + 1;
        self.count = self.count + 1;
        self.sum_us = self.sum_us.saturating_add(timing_us);
    }

    /// The average timing in microseconds, rounded down; 0 when nothing was recorded.
    pub fn average_us(&self) -> (avg: u64)
        ensures
            avg == (if self.count > 0 { self.sum_us / self.count } else { 0 }),
    {
        if self.count > 0 {
            self.sum_us / self.count
        } else {
            0
        }
    }
}

/// Metadata included in JSON statistics output, providing context.
#[derive(Clone, Debug)]
pub struct Meta {
    pub debounce_time_us: u64,
    pub near_miss_threshold_us: u64,
    pub log_all_events: bool,
    pub log_bounces: bool,
    pub log_interval_us: u64,
}

/// Statistics for one key state (press, release or repeat) of one key: how
/// many events were processed, passed and dropped, and the bounce timings.
#[derive(Clone, Debug)]
pub struct KeyValueStats {
    /// Total events processed (passed + dropped) for this key state.
    pub total_processed: u64,
    /// Events that passed the filter.
    pub passed_count: u64,
    /// Events that were dropped (bounced).
    pub dropped_count: u64,
    /// The gap between each dropped event and the previous passed one, in microseconds.
    pub timings_us: Vec<u64>,
    /// Histogram of those gaps.
    pub bounce_histogram: TimingHistogram,
}

/// `after` counts one more event of `info`'s kind than `before`, with the
/// bounce gap recorded when the event was dropped with a known gap.
pub open spec fn spec_kv_counted(before: KeyValueStats, after: KeyValueStats, info: EventInfo) -> bool {
    &&& after.total_processed == before.total_processed + 1
    &&& if info.is_bounce {
        &&& after.dropped_count == before.dropped_count + 1
        &&& after.passed_count == before.passed_count
        &&& match info.diff_us {
            Some(d) => {
                &&& after.timings_us@ == spec_keep_recent(before.timings_us@, d, MAX_BOUNCE_TIMING_SAMPLES as nat)
                &&& spec_recorded(before.bounce_histogram, after.bounce_histogram, d)
            },
            None => {
                &&& after.timings_us@ == before.timings_us@
                &&& after.bounce_histogram == before.bounce_histogram
            },
        }
    } else {
        &&& after.passed_count == before.passed_count + 1
        &&& after.dropped_count == before.dropped_count
        &&& after.timings_us@ == before.timings_us@
        &&& after.bounce_histogram == before.bounce_histogram
    }
}

/// Counting one event of `info`'s kind into `v` overflows no counter: the
/// processed count, the dropped or passed count, and for a dropped event with
/// a known gap the histogram's count and the gap's bucket.
pub open spec fn spec_kv_can_count(v: KeyValueStats, info: EventInfo) -> bool {
    &&& v.total_processed < u64::MAX
    &&& if info.is_bounce {
        &&& v.dropped_count < u64::MAX
        &&& (info.diff_us matches Some(d) ==> {
            &&& v.bounce_histogram.count < u64::MAX
            &&& v.bounce_histogram.buckets@[spec_bucket_index(d)] < u64::MAX
        })
    } else {
        v.passed_count < u64::MAX
    }
}

impl KeyValueStats {
    /// Processed events are the passed and the dropped ones, the histogram
    /// summarises exactly the recorded timings, and timings come only from drops.
    pub open spec fn consistent(self) -> bool {
        &&& self.total_processed == self.passed_count + self.dropped_count
        &&& self.bounce_histogram.wf()
        &&& self.bounce_histogram.count <= self.dropped_count
        &&& self.timings_us@.len() == spec_kept_len(self.bounce_histogram.count, MAX_BOUNCE_TIMING_SAMPLES as nat)
    }

    /// Nothing was counted.
    pub open spec fn is_empty(self) -> bool {
        &&& self.total_processed == 0
        &&& self.passed_count == 0
        &&& self.dropped_count == 0
        &&& self.timings_us@.len() == 0
        &&& self.bounce_histogram.is_empty()
    }

    /// Empty statistics.
    pub fn default() -> (s: Self)
        ensures
            s.consistent(),
            s.is_empty(),
    {
        KeyValueStats {
            total_processed: 0,
            passed_count: 0,
            dropped_count: 0,
            timings_us: Vec::new(),
            bounce_histogram: TimingHistogram::default(),
        }
    }

    /// Adds a timing value to the list and records it in the histogram.
    pub fn push_timing(&mut self, value: u64)
        requires
            old(self).bounce_histogram.count < u64::MAX,
            old(self).bounce_histogram.buckets@[spec_bucket_index(value)] < u64::MAX,
        ensures
            final(self).timings_us@ == spec_keep_recent(old(self).timings_us@, value, MAX_BOUNCE_TIMING_SAMPLES as nat),
            spec_recorded(old(self).bounce_histogram, final(self).bounce_histogram, value),
            old(self).bounce_histogram.wf() ==> final(self).bounce_histogram.wf(),
            final(self).total_processed == old(self).total_processed,
            final(self).passed_count == old(self).passed_count,
            final(self).dropped_count == old(self).dropped_count,
    {
        keep_recent(&mut self.timings_us, value, MAX_BOUNCE_TIMING_SAMPLES);
        self.bounce_histogram.record(value);
    }

    /// Counts one event of this key state.
    fn count_event(&mut self, info: &EventInfo)
        requires
            spec_kv_can_count(*old(self), *info),
        ensures
            old(self).consistent() ==> final(self).consistent(),
            spec_kv_counted(*old(self), *final(self), *info),
    {
        self.total_processed = self.total_processed + 1;
        if info.is_bounce {
            self.dropped_count = self.dropped_count + 1;
            match info.diff_us {
                Some(diff) => {
                    self.push_timing(diff);
                },
                None => {},
            }
        } else {
            self.passed_count = self.passed_count + 1;
        }
    }
}

/// Near-miss timings of one key and key state: gaps between passed events
/// that fell within the near-miss window.
#[derive(Clone, Debug)]
pub struct NearMissStats {
    /// The near-miss gaps, in microseconds.
    pub timings_us: Vec<u64>,
    /// Histogram of those gaps.
    pub histogram: TimingHistogram,
}

impl NearMissStats {
    /// The histogram summarises exactly the recorded timings.
    pub open spec fn consistent(self) -> bool {
        &&& self.histogram.wf()
        &&& self.timings_us@.len() == spec_kept_len(self.histogram.count, MAX_NEAR_MISS_TIMING_SAMPLES as nat)
    }

    /// Nothing was recorded.
    pub open spec fn is_empty(self) -> bool {
        &&& self.timings_us@.len() == 0
        &&& self.histogram.is_empty()
    }

    /// Empty statistics.
    pub fn default() -> (s: Self)
        ensures
            s.consistent(),
            s.is_empty(),
    {
        NearMissStats { timings_us: Vec::new(), histogram: TimingHistogram::default() }
    }

    /// Adds a timing value to the list and records it in the histogram.
    pub fn push_timing(&mut self, value: u64)
        requires
            old(self).histogram.count < u64::MAX,
            old(self).histogram.buckets@[spec_bucket_index(value)] < u64::MAX,
        ensures
            final(self).timings_us@ == spec_keep_recent(old(self).timings_us@, value, MAX_NEAR_MISS_TIMING_SAMPLES as nat),
            spec_recorded(old(self).histogram, final(self).histogram, value),
            old(self).histogram.wf() ==> final(self).histogram.wf(),
    {
        keep_recent(&mut self.timings_us, value, MAX_NEAR_MISS_TIMING_SAMPLES);
        self.histogram.record(value);
    }
}

/// Statistics of one key code, per key state.
#[derive(Clone, Debug)]
pub struct KeyStats {
    pub press: KeyValueStats,
    pub release: KeyValueStats,
    pub repeat: KeyValueStats,
}

/// The statistics of key state `value` (1 press, 0 release, otherwise repeat).
pub open spec fn spec_state_stats(k: KeyStats, value: i32) -> KeyValueStats {
    if value == 1 {
        k.press
    } else if value == 0 {
        k.release
    } else {
        k.repeat
    }
}

/// `after` is `before` with one event of `info` counted under its key state.
pub open spec fn spec_key_counted(before: KeyStats, after: KeyStats, info: EventInfo) -> bool {
    let v = info.event.value;
    &&& spec_kv_counted(spec_state_stats(before, v), spec_state_stats(after, v), info)
    &&& (v != 1 ==> after.press == before.press)
    &&& (v != 0 ==> after.release == before.release)
    &&& ((v == 0 || v == 1) ==> after.repeat == before.repeat)
}

/// Passed events of a key, over its three states.
pub open spec fn spec_key_passed(k: KeyStats) -> nat {
    (k.press.passed_count as nat) + (k.release.passed_count as nat) + (k.repeat.passed_count as nat)
}

/// Dropped events of a key, over its three states.
pub open spec fn spec_key_dropped(k: KeyStats) -> nat {
    (k.press.dropped_count as nat) + (k.release.dropped_count as nat) + (k.repeat.dropped_count as nat)
}

/// Processed events of a key, over its three states.
pub open spec fn spec_key_processed(k: KeyStats) -> nat {
    (k.press.total_processed as nat) + (k.release.total_processed as nat) + (k.repeat.total_processed as nat)
}

/// The processed, passed and dropped events of a key, each over its three
/// states, fit in a `u64`.
pub open spec fn spec_key_totals_fit(k: KeyStats) -> bool {
    &&& spec_key_processed(k) <= u64::MAX
    &&& spec_key_passed(k) <= u64::MAX
    &&& spec_key_dropped(k) <= u64::MAX
}

/// Recorded near-miss timings of one key state.
pub open spec fn spec_near_miss_count(n: NearMissStats) -> nat {
    n.histogram.count as nat
}

impl KeyStats {
    /// All three key states are consistent.
    pub open spec fn consistent(self) -> bool {
        &&& self.press.consistent()
        &&& self.release.consistent()
        &&& self.repeat.consistent()
    }

    /// Nothing was counted.
    pub open spec fn is_empty(self) -> bool {
        &&& self.press.is_empty()
        &&& self.release.is_empty()
        &&& self.repeat.is_empty()
    }

    /// Empty statistics.
    pub fn default() -> (s: Self)
        ensures
            s.consistent(),
            s.is_empty(),
    {
        KeyStats { press: KeyValueStats::default(), release: KeyValueStats::default(), repeat: KeyValueStats::default() }
    }
}

/// The gap that makes `info` a near miss under a window of `threshold_us`
/// microseconds: a passed event with a previous passed event of its key
/// state at most the window before it.
pub open spec fn spec_near_miss_diff(info: EventInfo, threshold_us: u64) -> Option<u64> {
    if !info.is_bounce {
        match info.last_passed_us {
            Some(last) => if info.event_us >= last && info.event_us - last <= threshold_us {
                Some((info.event_us - last) as u64)
            } else {
                None
            },
            None => None,
        }
    } else {
        None
    }
}

/// Recording `info` into `s` under a near-miss window of `threshold`
/// microseconds overflows no counter that it increments.
pub open spec fn spec_can_record(s: StatsCollector, info: EventInfo, threshold: u64) -> bool {
    let k = info.event.code as int;
    let slot = k * NUM_KEY_STATES + info.event.value as int;
    spec_is_key_event(info.event) ==> {
        &&& s.key_events_processed < u64::MAX
        &&& (spec_counted_in_table(info) ==> {
            &&& spec_kv_can_count(spec_state_stats(s.per_key_stats@[k], info.event.value), info)
            &&& (if info.is_bounce { s.key_events_dropped < u64::MAX } else { s.key_events_passed < u64::MAX })
            &&& (spec_near_miss_diff(info, threshold) matches Some(d) ==> {
                &&& s.per_key_near_miss_stats@[slot].histogram.count < u64::MAX
                &&& s.per_key_near_miss_stats@[slot].histogram.buckets@[spec_bucket_index(d)] < u64::MAX
            })
        })
    }
}

/// `n` as a `u64`, or `u64::MAX` when larger.
pub open spec fn spec_saturate(n: nat) -> u64 {
    if n <= u64::MAX {
        n as u64
    } else {
        u64::MAX
    }
}

/// Saturating addition onto a saturated sum saturates the whole sum.
pub proof fn lemma_saturate_add(p: nat, x: u64)
    ensures
        spec_saturating_add(spec_saturate(p), x) == spec_saturate(p + (x as nat)),
{
}

/// Bounce timings of a key recorded in its press and release histograms
/// (repeats are never debounced).
pub open spec fn spec_bounce_count(k: KeyStats) -> nat {
    (k.press.bounce_histogram.count as nat) + (k.release.bounce_histogram.count as nat)
}

/// What adding histogram `h` into another adds to bucket `i`: its count
/// there, or nothing when `h` recorded nothing.
pub open spec fn spec_added_bucket(h: TimingHistogram, i: int) -> nat {
    if h.count > 0 {
        h.buckets@[i] as nat
    } else {
        0
    }
}

/// What adding histogram `h` into another adds to the sum: its sum, or
/// nothing when `h` recorded nothing.
pub open spec fn spec_added_sum(h: TimingHistogram) -> u64 {
    if h.count > 0 {
        h.sum_us
    } else {
        0
    }
}

/// Sum of the press and release bounce histograms of a key.
pub open spec fn spec_bounce_sum(k: KeyStats) -> nat {
    (spec_added_sum(k.press.bounce_histogram) as nat) + (spec_added_sum(k.release.bounce_histogram) as nat)
}

/// Bucket `i` of the press and release bounce histograms of a key, together.
pub open spec fn spec_bounce_bucket(k: KeyStats, i: int) -> nat {
    spec_added_bucket(k.press.bounce_histogram, i) + spec_added_bucket(k.release.bounce_histogram, i)
}

/// Bucket `i` over the press and release bounce histograms of all of `keys`.
pub open spec fn spec_bounce_bucket_total(keys: Seq<KeyStats>, i: int) -> nat {
    sum_of(keys, |k: KeyStats| spec_bounce_bucket(k, i))
}

/// Sum of a near-miss histogram.
pub open spec fn spec_near_miss_sum(n: NearMissStats) -> nat {
    spec_added_sum(n.histogram) as nat
}

/// Bucket `i` of a near-miss histogram.
pub open spec fn spec_near_miss_bucket(n: NearMissStats, i: int) -> nat {
    spec_added_bucket(n.histogram, i)
}

/// Bucket `i` over all near-miss histograms of `near`.
pub open spec fn spec_near_miss_bucket_total(near: Seq<NearMissStats>, i: int) -> nat {
    sum_of(near, |n: NearMissStats| spec_near_miss_bucket(n, i))
}

/// `after` is `before` with the overall histograms replaced by the sums of
/// the per-key press and release bounce histograms and of the near-miss histograms.
pub open spec fn spec_aggregated(before: StatsCollector, after: StatsCollector) -> bool {
    &&& after.key_events_processed == before.key_events_processed
    &&& after.key_events_passed == before.key_events_passed
    &&& after.key_events_dropped == before.key_events_dropped
    &&& after.per_key_stats == before.per_key_stats
    &&& after.per_key_near_miss_stats == before.per_key_near_miss_stats
    &&& after.overall_bounce_histogram.count == sum_of(before.per_key_stats@, |k: KeyStats| spec_bounce_count(k))
    &&& after.overall_bounce_histogram.sum_us == spec_saturate(sum_of(before.per_key_stats@, |k: KeyStats| spec_bounce_sum(k)))
    &&& forall|i: int| 0 <= i < NUM_HISTOGRAM_BUCKETS ==> after.overall_bounce_histogram.buckets@[i]
        == sum_of(before.per_key_stats@, |k: KeyStats| spec_bounce_bucket(k, i))
    &&& after.overall_near_miss_histogram.count == sum_of(before.per_key_near_miss_stats@, |n: NearMissStats| spec_near_miss_count(n))
    &&& after.overall_near_miss_histogram.sum_us == spec_saturate(sum_of(before.per_key_near_miss_stats@, |n: NearMissStats| spec_near_miss_sum(n)))
    &&& forall|i: int| 0 <= i < NUM_HISTOGRAM_BUCKETS ==> after.overall_near_miss_histogram.buckets@[i]
        == sum_of(before.per_key_near_miss_stats@, |n: NearMissStats| spec_near_miss_bucket(n, i))
}

/// Whether `info` is a key event with a tracked key code and key state.
pub open spec fn spec_counted_in_table(info: EventInfo) -> bool {
    &&& spec_is_key_event(info.event)
    &&& (info.event.code as int) < FILTER_MAP_SIZE
    &&& 0 <= info.event.value < NUM_KEY_STATES
}

/// `after` is `before` with one processed event `info` recorded under a
/// near-miss window of `threshold` microseconds.
pub open spec fn spec_event_recorded(before: StatsCollector, after: StatsCollector, info: EventInfo, threshold: u64) -> bool {
    let k = info.event.code as int;
    let slot = k * NUM_KEY_STATES + info.event.value as int;
    if !spec_is_key_event(info.event) {
        after == before
    } else if !spec_counted_in_table(info) {
        &&& after.key_events_processed == before.key_events_processed + 1
        &&& after.key_events_passed == before.key_events_passed
        &&& after.key_events_dropped == before.key_events_dropped
        &&& after.per_key_stats@ == before.per_key_stats@
        &&& after.per_key_near_miss_stats@ == before.per_key_near_miss_stats@
        &&& after.overall_bounce_histogram == before.overall_bounce_histogram
        &&& after.overall_near_miss_histogram == before.overall_near_miss_histogram
    } else {
        &&& after.key_events_processed == before.key_events_processed + 1
        &&& after.key_events_passed == before.key_events_passed + (if info.is_bounce { 0int } else { 1int })
        &&& after.key_events_dropped == before.key_events_dropped + (if info.is_bounce { 1int } else { 0int })
        &&& after.per_key_stats@ == before.per_key_stats@.update(k, after.per_key_stats@[k])
        &&& spec_key_counted(before.per_key_stats@[k], after.per_key_stats@[k], info)
        &&& match spec_near_miss_diff(info, threshold) {
            Some(d) => {
                &&& after.per_key_near_miss_stats@ == before.per_key_near_miss_stats@.update(slot, after.per_key_near_miss_stats@[slot])
                &&& after.per_key_near_miss_stats@[slot].timings_us@
                    == spec_keep_recent(before.per_key_near_miss_stats@[slot].timings_us@, d, MAX_NEAR_MISS_TIMING_SAMPLES as nat)
                &&& spec_recorded(before.per_key_near_miss_stats@[slot].histogram, after.per_key_near_miss_stats@[slot].histogram, d)
            },
            None => after.per_key_near_miss_stats@ == before.per_key_near_miss_stats@,
        }
        &&& after.overall_bounce_histogram == before.overall_bounce_histogram
        &&& after.overall_near_miss_histogram == before.overall_near_miss_histogram
    }
}

/// Top-level statistics: overall counts, per-key statistics indexed by key
/// code, near-miss statistics indexed by `keycode * 3 + value`, and the
/// overall histograms that `aggregate_histograms` fills.
#[derive(Clone, Debug)]
pub struct StatsCollector {
    /// Key events processed (passed or dropped).
    pub key_events_processed: u64,
    /// Key events that passed the filter.
    pub key_events_passed: u64,
    /// Key events dropped by the filter.
    pub key_events_dropped: u64,
    /// Per-key statistics, one entry per key code.
    pub per_key_stats: Vec<KeyStats>,
    /// Near-miss statistics, one entry per key code and key state.
    pub per_key_near_miss_stats: Vec<NearMissStats>,
    /// Histogram of all bounce timings, filled by `aggregate_histograms`.
    pub overall_bounce_histogram: TimingHistogram,
    /// Histogram of all near-miss timings, filled by `aggregate_histograms`.
    pub overall_near_miss_histogram: TimingHistogram,
}

impl StatsCollector {
    /// The tables have an entry per key code and per key code and state.
    pub open spec fn wf(self) -> bool {
        &&& self.per_key_stats@.len() == FILTER_MAP_SIZE
        &&& self.per_key_near_miss_stats@.len() == FILTER_SLOTS
    }

    /// Every entry is consistent, the overall passed and dropped counts are the
    /// sums of the per-key ones, they make up at most the processed count, and
    /// near misses are at most the passed events, overall and per key state.
    pub open spec fn consistent(self) -> bool {
        &&& self.wf()
        &&& forall|k: int| 0 <= k < FILTER_MAP_SIZE ==> (#[trigger] self.per_key_stats@[k]).consistent()
        &&& forall|j: int| 0 <= j < FILTER_SLOTS ==> (#[trigger] self.per_key_near_miss_stats@[j]).consistent()
        &&& self.key_events_passed == sum_of(self.per_key_stats@, |k: KeyStats| spec_key_passed(k))
        &&& self.key_events_dropped == sum_of(self.per_key_stats@, |k: KeyStats| spec_key_dropped(k))
        &&& self.key_events_passed + self.key_events_dropped <= self.key_events_processed
        &&& sum_of(self.per_key_near_miss_stats@, |n: NearMissStats| spec_near_miss_count(n)) <= self.key_events_passed
        &&& forall|j: int| 0 <= j < FILTER_SLOTS ==> (#[trigger] self.per_key_near_miss_stats@[j]).histogram.count
            <= spec_state_stats(self.per_key_stats@[j / NUM_KEY_STATES as int], (j % NUM_KEY_STATES as int) as i32).passed_count
        &&& self.overall_bounce_histogram.wf()
        &&& self.overall_near_miss_histogram.wf()
    }

    /// Nothing was counted.
    pub open spec fn is_empty(self) -> bool {
        &&& self.key_events_processed == 0
        &&& self.key_events_passed == 0
        &&& self.key_events_dropped == 0
        &&& forall|k: int| 0 <= k < FILTER_MAP_SIZE ==> (#[trigger] self.per_key_stats@[k]).is_empty()
        &&& forall|j: int| 0 <= j < FILTER_SLOTS ==> (#[trigger] self.per_key_near_miss_stats@[j]).is_empty()
        &&& self.overall_bounce_histogram.is_empty()
        &&& self.overall_near_miss_histogram.is_empty()
    }

    /// Creates empty statistics with an entry for every key code and key state.
    pub fn with_capacity() -> (s: Self)
        ensures
            s.consistent(),
            s.is_empty(),
    {
        let mut per_key_stats: Vec<KeyStats> = Vec::new();
        let mut i: usize = 0;
        while i < FILTER_MAP_SIZE
            invariant
                0 <= i <= FILTER_MAP_SIZE,
                per_key_stats@.len() == i,
                forall|k: int| 0 <= k < i ==> (#[trigger] per_key_stats@[k]).consistent() && per_key_stats@[k].is_empty(),
                sum_of(per_key_stats@, |k: KeyStats| spec_key_passed(k)) == 0,
                sum_of(per_key_stats@, |k: KeyStats| spec_key_dropped(k)) == 0,
            decreases FILTER_MAP_SIZE - i,
        {
            let ks = KeyStats::default();
            proof {
                lemma_sum_of_push(per_key_stats@, ks, |k: KeyStats| spec_key_passed(k));
                lemma_sum_of_push(per_key_stats@, ks, |k: KeyStats| spec_key_dropped(k));
            }
            per_key_stats.push(ks);
            i = i + 1;
        }
        let mut near: Vec<NearMissStats> = Vec::new();
        let mut j: usize = 0;
        while j < FILTER_SLOTS
            invariant
                0 <= j <= FILTER_SLOTS,
                near@.len() == j,
                forall|k: int| 0 <= k < j ==> (#[trigger] near@[k]).consistent() && near@[k].is_empty(),
                sum_of(near@, |n: NearMissStats| spec_near_miss_count(n)) == 0,
            decreases FILTER_SLOTS - j,
        {
            let n = NearMissStats::default();
            proof {
                lemma_sum_of_push(near@, n, |n: NearMissStats| spec_near_miss_count(n));
            }
            near.push(n);
            j = j + 1;
        }
        StatsCollector {
            key_events_processed: 0,
            key_events_passed: 0,
            key_events_dropped: 0,
            per_key_stats,
            per_key_near_miss_stats: near,
            overall_bounce_histogram: TimingHistogram::default(),
            overall_near_miss_histogram: TimingHistogram::default(),
        }
    }

    /// Empty statistics.
    pub fn default() -> (s: Self)
        ensures
            s.consistent(),
            s.is_empty(),
    {
        Self::with_capacity()
    }

    /// Updates the statistics with one processed event under `config`.
    ///
    /// Only key events count. Each one counts as processed; one of a tracked
    /// key code and state also counts under that key and state, as dropped
    /// (with its bounce gap) or passed, and a passed one whose gap to the
    /// previous passed event of its key state is within the near-miss window
    /// is recorded as a near miss.
    pub fn record_event_info_with_config(&mut self, info: &EventInfo, config: &Config)
        requires
            old(self).wf(),
            spec_can_record(*old(self), *info, Config::micros_saturated(config@.near_miss_threshold)),
        ensures
            final(self).wf(),
            old(self).consistent() ==> final(self).consistent(),
            spec_event_recorded(*old(self), *final(self), *info, Config::micros_saturated(config@.near_miss_threshold)),
    {
        let ghost was_consistent = self.consistent();
        if !is_key_event(&info.event) {
            return;
        }
        self.key_events_processed = self.key_events_processed + 1;
        let code = info.event.code;
        let value = info.event.value;
        if !((code as usize) < FILTER_MAP_SIZE && value >= 0 && value < 3) {
            return;
        }
        let k = code as usize;
        let ghost old_stats = self.per_key_stats@;
        let ghost old_ks = self.per_key_stats@[k as int];
        proof {
            if was_consistent {
                assert(old_stats[k as int].consistent());
            }
        }
        {
            let ks = &mut self.per_key_stats[k];
            if value == 1 {
                ks.press.count_event(info);
            } else if value == 0 {
                ks.release.count_event(info);
            } else {
                ks.repeat.count_event(info);
            }
        }
        proof {
            let new_ks = self.per_key_stats@[k as int];
            assert(self.per_key_stats@ == old_stats.update(k as int, new_ks));
            lemma_sum_of_update(old_stats, k as int, new_ks, |ks: KeyStats| spec_key_passed(ks));
            lemma_sum_of_update(old_stats, k as int, new_ks, |ks: KeyStats| spec_key_dropped(ks));
            assert forall|k2: int| 0 <= k2 < FILTER_MAP_SIZE && was_consistent implies (#[trigger] self.per_key_stats@[k2]).consistent() by {
                if k2 != k {
                    assert(self.per_key_stats@[k2] == old_stats[k2]);
                }
            }
        }
        if info.is_bounce {
            self.key_events_dropped = self.key_events_dropped + 1;
        } else {
            self.key_events_passed = self.key_events_passed + 1;
            match info.last_passed_us {
                Some(last) => {
                    if info.event_us >= last {
                        let diff = info.event_us - last;
                        if diff <= config.near_miss_threshold_us() {
                            let slot = k * NUM_KEY_STATES + (value as usize);
                            let ghost old_near = self.per_key_near_miss_stats@;
                            proof {
                                if was_consistent {
                                    assert(old_near[slot as int].consistent());
                                }
                            }
                            self.per_key_near_miss_stats[slot].push_timing(diff);
                            proof {
                                let new_n = self.per_key_near_miss_stats@[slot as int];
                                assert(self.per_key_near_miss_stats@ == old_near.update(slot as int, new_n));
                                lemma_sum_of_update(old_near, slot as int, new_n, |n: NearMissStats| spec_near_miss_count(n));
                                assert forall|j: int| 0 <= j < FILTER_SLOTS && was_consistent implies (#[trigger] self.per_key_near_miss_stats@[j]).consistent() by {
                                    if j != slot {
                                        assert(self.per_key_near_miss_stats@[j] == old_near[j]);
                                    }
                                }
                            }
                        }
                    }
                },
                None => {},
            }
        }
    }

    /// The tables have their sizes, and adding up the press and release
    /// bounce histograms of all keys, and all near-miss histograms, overflows
    /// neither a count nor a bucket.
    pub open spec fn aggregatable(self) -> bool {
        &&& self.wf()
        &&& sum_of(self.per_key_stats@, |k: KeyStats| spec_bounce_count(k)) <= u64::MAX
        &&& forall|i: int| 0 <= i < NUM_HISTOGRAM_BUCKETS ==> #[trigger] spec_bounce_bucket_total(self.per_key_stats@, i) <= u64::MAX
        &&& sum_of(self.per_key_near_miss_stats@, |n: NearMissStats| spec_near_miss_count(n)) <= u64::MAX
        &&& forall|i: int| 0 <= i < NUM_HISTOGRAM_BUCKETS ==> #[trigger] spec_near_miss_bucket_total(self.per_key_near_miss_stats@, i) <= u64::MAX
    }

    /// The statistics can be aggregated, and every key's totals fit in a `u64`.
    pub open spec fn reportable(self) -> bool {
        &&& self.aggregatable()
        &&& forall|k: int| 0 <= k < FILTER_MAP_SIZE ==> spec_key_totals_fit(#[trigger] self.per_key_stats@[k])
    }

    /// Adds `source` to `dest` when `source` recorded anything: its count,
    /// its per-bucket counts, and its sum (saturating at `u64::MAX`).
    pub fn accumulate_histogram(dest: &mut TimingHistogram, source: &TimingHistogram)
        requires
            source.count > 0 ==> old(dest).count + source.count <= u64::MAX,
            source.count > 0 ==> forall|i: int| 0 <= i < NUM_HISTOGRAM_BUCKETS ==> old(dest).buckets@[i] + source.buckets@[i] <= u64::MAX,
        ensures
            final(dest).count == old(dest).count + source.count,
            forall|i: int| 0 <= i < NUM_HISTOGRAM_BUCKETS ==> final(dest).buckets@[i] == old(dest).buckets@[i] + spec_added_bucket(*source, i),
            final(dest).sum_us == spec_saturating_add(old(dest).sum_us, spec_added_sum(*source)),
            old(dest).wf() && source.wf() ==> final(dest).wf(),
    {
        if source.count > 0 {
            let ghost before = dest.buckets@;
            dest.count = dest.count + source.count;
            dest.sum_us = dest.sum_us.saturating_add(source.sum_us);
            let mut i: usize = 0;
            while i < NUM_HISTOGRAM_BUCKETS
                invariant
                    0 <= i <= NUM_HISTOGRAM_BUCKETS,
                    forall|j: int| 0 <= j < NUM_HISTOGRAM_BUCKETS ==> before[j] + source.buckets@[j] <= u64::MAX,
                    before == old(dest).buckets@,
                    before.len() == NUM_HISTOGRAM_BUCKETS,
                    dest.buckets@.len() == NUM_HISTOGRAM_BUCKETS,
                    source.buckets@.len() == NUM_HISTOGRAM_BUCKETS,
                    dest.count == old(dest).count + source.count,
                    dest.sum_us == spec_saturating_add(old(dest).sum_us, source.sum_us),
                    forall|j: int| 0 <= j < i ==> dest.buckets@[j] == before[j] + source.buckets@[j],
                    forall|j: int| i <= j < NUM_HISTOGRAM_BUCKETS ==> dest.buckets@[j] == before[j],
                decreases NUM_HISTOGRAM_BUCKETS - i,
            {
                assert(dest.buckets@[i as int] == before[i as int]);
                assert(before[i as int] + source.buckets@[i as int] <= u64::MAX);
                dest.buckets[i] = dest.buckets[i] + source.buckets[i];
                i = i + 1;
            }
            proof {
                lemma_sum_of_pointwise_add(before, source.buckets@, dest.buckets@);
            }
        }
    }

    /// Sums the press and release bounce histograms of all keys into the
    /// overall bounce histogram, and all near-miss histograms into the overall
    /// near-miss histogram; the previous overall histograms are discarded.
    #[verifier::loop_isolation(false)]
    pub fn aggregate_histograms(&mut self)
        requires
            old(self).aggregatable(),
        ensures
            old(self).consistent() ==> final(self).consistent(),
            spec_aggregated(*old(self), *final(self)),
    {
        let ghost was_consistent = self.consistent();
        let ghost keys = self.per_key_stats@;
        let mut bounce = TimingHistogram::default();
        let mut k: usize = 0;
        while k < FILTER_MAP_SIZE
            invariant
                0 <= k <= FILTER_MAP_SIZE,
                keys == self.per_key_stats@,
                was_consistent ==> bounce.wf(),
                bounce.count == sum_of(keys.subrange(0, k as int), |ks: KeyStats| spec_bounce_count(ks)),
                bounce.sum_us == spec_saturate(sum_of(keys.subrange(0, k as int), |ks: KeyStats| spec_bounce_sum(ks))),
                forall|i: int| 0 <= i < NUM_HISTOGRAM_BUCKETS ==> bounce.buckets@[i]
                    == spec_bounce_bucket_total(keys.subrange(0, k as int), i),
            decreases FILTER_MAP_SIZE - k,
        {
            let press = self.per_key_stats[k].press.bounce_histogram;
            let release = self.per_key_stats[k].release.bounce_histogram;
            proof {
                if was_consistent {
                    assert(keys[k as int].consistent());
                }
                lemma_sum_of_prefix_step(keys, k as int, |ks: KeyStats| spec_bounce_count(ks));
                lemma_sum_of_prefix_le(keys, k + 1, |ks: KeyStats| spec_bounce_count(ks));
                assert forall|i: int| 0 <= i < NUM_HISTOGRAM_BUCKETS implies spec_bounce_bucket_total(keys.subrange(0, k + 1), i)
                    == spec_bounce_bucket_total(keys.subrange(0, k as int), i) + spec_bounce_bucket(keys[k as int], i)
                    && spec_bounce_bucket_total(keys.subrange(0, k + 1), i) <= u64::MAX by {
                    lemma_sum_of_prefix_step(keys, k as int, |ks: KeyStats| spec_bounce_bucket(ks, i));
                    lemma_sum_of_prefix_le(keys, k + 1, |ks: KeyStats| spec_bounce_bucket(ks, i));
                    assert(spec_bounce_bucket_total(keys, i) <= u64::MAX);
                }
                assert(press == keys[k as int].press.bounce_histogram);
                assert(release == keys[k as int].release.bounce_histogram);
                assert forall|i: int| 0 <= i < NUM_HISTOGRAM_BUCKETS implies #[trigger] bounce.buckets@[i] + spec_added_bucket(press, i)
                    + spec_added_bucket(release, i) <= u64::MAX by {
                    assert(spec_bounce_bucket_total(keys.subrange(0, k + 1), i) <= u64::MAX);
                }
            }
            let ghost mid = bounce;
            Self::accumulate_histogram(&mut bounce, &press);
            assert forall|i: int| 0 <= i < NUM_HISTOGRAM_BUCKETS implies #[trigger] bounce.buckets@[i] + spec_added_bucket(release, i) <= u64::MAX by {
                assert(mid.buckets@[i] + spec_added_bucket(press, i) + spec_added_bucket(release, i) <= u64::MAX);
            }
            Self::accumulate_histogram(&mut bounce, &release);
            proof {
                lemma_sum_of_prefix_step(keys, k as int, |ks: KeyStats| spec_bounce_sum(ks));
                let p = sum_of(keys.subrange(0, k as int), |ks: KeyStats| spec_bounce_sum(ks));
                lemma_saturate_add(p, spec_added_sum(press));
                lemma_saturate_add(p + (spec_added_sum(press) as nat), spec_added_sum(release));
            }
            k = k + 1;
        }
        proof {
            assert(keys.subrange(0, FILTER_MAP_SIZE as int) =~= keys);
        }

        let ghost near = self.per_key_near_miss_stats@;
        let mut near_miss = TimingHistogram::default();
        let mut j: usize = 0;
        while j < FILTER_SLOTS
            invariant
                0 <= j <= FILTER_SLOTS,
                near == self.per_key_near_miss_stats@,
                was_consistent ==> near_miss.wf(),
                near_miss.count == sum_of(near.subrange(0, j as int), |n: NearMissStats| spec_near_miss_count(n)),
                near_miss.sum_us == spec_saturate(sum_of(near.subrange(0, j as int), |n: NearMissStats| spec_near_miss_sum(n))),
                forall|i: int| 0 <= i < NUM_HISTOGRAM_BUCKETS ==> near_miss.buckets@[i]
                    == spec_near_miss_bucket_total(near.subrange(0, j as int), i),
            decreases FILTER_SLOTS - j,
        {
            let h = self.per_key_near_miss_stats[j].histogram;
            proof {
                if was_consistent {
                    assert(near[j as int].consistent());
                }
                lemma_sum_of_prefix_step(near, j as int, |n: NearMissStats| spec_near_miss_count(n));
                lemma_sum_of_prefix_le(near, j + 1, |n: NearMissStats| spec_near_miss_count(n));
                assert forall|i: int| 0 <= i < NUM_HISTOGRAM_BUCKETS implies spec_near_miss_bucket_total(near.subrange(0, j + 1), i)
                    == spec_near_miss_bucket_total(near.subrange(0, j as int), i) + spec_near_miss_bucket(near[j as int], i)
                    && spec_near_miss_bucket_total(near.subrange(0, j + 1), i) <= u64::MAX by {
                    lemma_sum_of_prefix_step(near, j as int, |n: NearMissStats| spec_near_miss_bucket(n, i));
                    lemma_sum_of_prefix_le(near, j + 1, |n: NearMissStats| spec_near_miss_bucket(n, i));
                    assert(spec_near_miss_bucket_total(near, i) <= u64::MAX);
                }
                assert(h == near[j as int].histogram);
                assert forall|i: int| 0 <= i < NUM_HISTOGRAM_BUCKETS implies #[trigger] near_miss.buckets@[i] + spec_added_bucket(h, i) <= u64::MAX by {
                    assert(spec_near_miss_bucket_total(near.subrange(0, j + 1), i) <= u64::MAX);
                }
            }
            Self::accumulate_histogram(&mut near_miss, &h);
            proof {
                lemma_sum_of_prefix_step(near, j as int, |n: NearMissStats| spec_near_miss_sum(n));
                let p = sum_of(near.subrange(0, j as int), |n: NearMissStats| spec_near_miss_sum(n));
                lemma_saturate_add(p, spec_added_sum(h));
            }
            j = j + 1;
        }
        proof {
            assert(near.subrange(0, FILTER_SLOTS as int) =~= near);
        }
        self.overall_bounce_histogram = bounce;
        self.overall_near_miss_histogram = near_miss;
    }
}

/// Consistent statistics can always be reported: every histogram count is
/// bounded by the drops or passes it comes from, every bucket by its count,
/// and every key's totals by the overall counts.
pub proof fn lemma_consistent_reportable(s: StatsCollector)
    requires
        s.consistent(),
    ensures
        s.reportable(),
{
    let keys = s.per_key_stats@;
    let near = s.per_key_near_miss_stats@;
    assert forall|k: int| 0 <= k < FILTER_MAP_SIZE implies spec_key_totals_fit(#[trigger] keys[k]) by {
        assert(keys[k].consistent());
        lemma_sum_of_elem_le(keys, k, |ks: KeyStats| spec_key_passed(ks));
        lemma_sum_of_elem_le(keys, k, |ks: KeyStats| spec_key_dropped(ks));
    }
    assert forall|k: int| 0 <= k < keys.len() implies spec_bounce_count(#[trigger] keys[k]) <= spec_key_dropped(keys[k]) by {
        assert(keys[k].consistent());
    }
    lemma_sum_of_pointwise_le(keys, |ks: KeyStats| spec_bounce_count(ks), |ks: KeyStats| spec_key_dropped(ks));
    assert forall|i: int| 0 <= i < NUM_HISTOGRAM_BUCKETS implies #[trigger] spec_bounce_bucket_total(keys, i) <= u64::MAX by {
        assert forall|k: int| 0 <= k < keys.len() implies spec_bounce_bucket(#[trigger] keys[k], i) <= spec_bounce_count(keys[k]) by {
            assert(keys[k].consistent());
            lemma_bucket_within_count(keys[k].press.bounce_histogram, i);
            lemma_bucket_within_count(keys[k].release.bounce_histogram, i);
        }
        lemma_sum_of_pointwise_le(keys, |ks: KeyStats| spec_bounce_bucket(ks, i), |ks: KeyStats| spec_bounce_count(ks));
    }
    assert forall|i: int| 0 <= i < NUM_HISTOGRAM_BUCKETS implies #[trigger] spec_near_miss_bucket_total(near, i) <= u64::MAX by {
        assert forall|j: int| 0 <= j < near.len() implies spec_near_miss_bucket(#[trigger] near[j], i) <= spec_near_miss_count(near[j]) by {
            assert(near[j].consistent());
            lemma_bucket_within_count(near[j].histogram, i);
        }
        lemma_sum_of_pointwise_le(near, |n: NearMissStats| spec_near_miss_bucket(n, i), |n: NearMissStats| spec_near_miss_count(n));
    }
}

/// Consistent statistics whose processed count is below `u64::MAX` can record
/// any event: every counter it touches is bounded by the processed count, and
/// every bucket by its histogram's count.
pub proof fn lemma_consistent_can_record(s: StatsCollector, info: EventInfo, threshold: u64)
    requires
        s.consistent(),
        spec_is_key_event(info.event) ==> s.key_events_processed < u64::MAX,
    ensures
        spec_can_record(s, info, threshold),
{
    if spec_is_key_event(info.event) && spec_counted_in_table(info) {
        let k = info.event.code as int;
        let v = info.event.value;
        let slot = k * NUM_KEY_STATES + v as int;
        let keys = s.per_key_stats@;
        assert(keys[k].consistent());
        lemma_sum_of_elem_le(keys, k, |ks: KeyStats| spec_key_passed(ks));
        lemma_sum_of_elem_le(keys, k, |ks: KeyStats| spec_key_dropped(ks));
        let st = spec_state_stats(keys[k], v);
        if info.is_bounce {
            if let Some(d) = info.diff_us {
                lemma_bucket_within_count(st.bounce_histogram, spec_bucket_index(d));
            }
        }
        if let Some(d) = spec_near_miss_diff(info, threshold) {
            assert(slot / NUM_KEY_STATES as int == k && slot % NUM_KEY_STATES as int == v);
            assert(s.per_key_near_miss_stats@[slot].consistent());
            assert(s.per_key_near_miss_stats@[slot].histogram.count <= st.passed_count);
            lemma_bucket_within_count(s.per_key_near_miss_stats@[slot].histogram, spec_bucket_index(d));
        }
    }
}

} // verus!
