//! Properties of the filter, the configuration and the statistics that hold
//! for all inputs, each proved from the contracts of the functions involved.

use vstd::prelude::*;
use crate::config::Config;
use crate::duration::Duration;
use crate::event::{input_event, spec_event_us, spec_is_key_event, EV_KEY};
use crate::filter::{spec_check_next, spec_check_outcome, spec_debounce_slot, spec_runtime_us, FilterView, FILTER_SLOTS};
use crate::filter::report::KeyReport;
use crate::filter::stats::{
    spec_counted_in_table, spec_event_recorded, spec_near_miss_diff, spec_recorded, spec_state_stats, KeyStats,
    StatsCollector, TimingHistogram, HISTOGRAM_BUCKET_BOUNDARIES_MS, MAX_NEAR_MISS_TIMING_SAMPLES,
};
use crate::filter::keynames::spec_key_name;
use crate::logger::{EventInfo, LoggerState};
use crate::pipeline::{spec_on_send, MainState, SendOutcome};

verus! {

/// Non-key events always pass the filter, whatever the window.
pub proof fn law_non_key_events_pass(f: FilterView, event: input_event, debounce: Duration, skip: bool)
    requires
        !spec_is_key_event(event),
    ensures
        !spec_check_outcome(f, event, debounce, skip).is_bounce,
{
}

/// Key repeats (value 2) always pass the filter.
pub proof fn law_repeats_pass(f: FilterView, event: input_event, debounce: Duration, skip: bool)
    requires
        event.value == 2,
    ensures
        !spec_check_outcome(f, event, debounce, skip).is_bounce,
{
}

/// With an empty window every event passes.
pub proof fn law_zero_window_passes_all(f: FilterView, event: input_event, debounce: Duration, skip: bool)
    requires
        debounce@ == 0,
    ensures
        !spec_check_outcome(f, event, debounce, skip).is_bounce,
{
}

/// Keys exempted from debouncing pass, and leave the debounce table as it was.
pub proof fn law_exempt_keys_pass(f: FilterView, event: input_event, debounce: Duration, ring_size: nat)
    ensures
        !spec_check_outcome(f, event, debounce, true).is_bounce,
        spec_check_next(f, event, debounce, true, ring_size).last_event_us == f.last_event_us,
{
}

/// An event earlier than the last passed event of its key and value passes:
/// time going backwards is never a bounce.
pub proof fn law_time_going_backwards_passes(f: FilterView, event: input_event, debounce: Duration)
    requires
        f.last_event_us.len() == FILTER_SLOTS,
        spec_debounce_slot(event) matches Some(slot) && spec_event_us(event) < f.last_event_us[slot],
    ensures
        !spec_check_outcome(f, event, debounce, false).is_bounce,
{
}

/// A dropped event was less than the window after the last passed event of
/// its key and value, reports exactly that gap and that last passed time,
/// and leaves the filter's debounce table and ring buffer unchanged.
pub proof fn law_bounce_within_window(f: FilterView, event: input_event, debounce: Duration, skip: bool, ring_size: nat)
    requires
        spec_check_outcome(f, event, debounce, skip).is_bounce,
    ensures
        ({
            let info = spec_check_outcome(f, event, debounce, skip);
            let next = spec_check_next(f, event, debounce, skip, ring_size);
            &&& info.last_passed_us matches Some(last)
            &&& spec_debounce_slot(event) matches Some(slot)
            &&& last == f.last_event_us[slot]
            &&& info.event_us >= last
            &&& info.diff_us == Some((info.event_us - last) as u64)
            &&& ((info.event_us - last) as nat) * 1000 < debounce@
            &&& next.last_event_us == f.last_event_us
            &&& next.recent == f.recent
            &&& next.recent_idx == f.recent_idx
        }),
{
}

/// A passed key press or release is at least the window after the previous
/// passed event of its key and value (when time did not go backwards), and
/// becomes the last passed event of its key and value.
pub proof fn law_passed_events_respect_window(f: FilterView, event: input_event, debounce: Duration, ring_size: nat)
    requires
        f.last_event_us.len() == FILTER_SLOTS,
        spec_debounce_slot(event) is Some,
        !spec_check_outcome(f, event, debounce, false).is_bounce,
    ensures
        ({
            let info = spec_check_outcome(f, event, debounce, false);
            let slot = spec_debounce_slot(event)->0;
            &&& (info.last_passed_us matches Some(last) ==> (info.event_us >= last ==> ((info.event_us - last) as nat) * 1000 >= debounce@))
            &&& spec_check_next(f, event, debounce, false, ring_size).last_event_us[slot] == info.event_us
        }),
{
}

/// Events of different keys or key values are filtered independently:
/// checking one event does not change the decision about an event of another
/// key or value.
pub proof fn law_keys_filtered_independently(
    f: FilterView,
    first: input_event,
    second: input_event,
    debounce: Duration,
    skip_first: bool,
    skip_second: bool,
    ring_size: nat,
)
    requires
        f.last_event_us.len() == FILTER_SLOTS,
        spec_debounce_slot(first) != spec_debounce_slot(second),
    ensures
        spec_check_outcome(spec_check_next(f, first, debounce, skip_first, ring_size), second, debounce, skip_second)
            == spec_check_outcome(f, second, debounce, skip_second),
{
    let next = spec_check_next(f, first, debounce, skip_first, ring_size);
    match spec_debounce_slot(second) {
        Some(s2) => {
            assert(next.last_event_us[s2] == f.last_event_us[s2]);
        },
        None => {},
    }
}

/// The filter never alters events: what it reports is the event checked, with its timestamp.
pub proof fn law_events_unaltered(f: FilterView, event: input_event, debounce: Duration, skip: bool)
    ensures
        spec_check_outcome(f, event, debounce, skip).event == event,
        spec_check_outcome(f, event, debounce, skip).event_us == spec_event_us(event),
{
}

/// A non-empty allowlist decides alone, so listed keys are debounced even when
/// also ignored; with an empty allowlist exactly the keys not ignored are debounced.
pub proof fn law_allowlist_takes_precedence(cfg: Config, key: u16)
    ensures
        cfg@.debounce_keys.contains(key) ==> cfg.debounces(key),
        cfg@.debounce_keys.len() > 0 && !cfg@.debounce_keys.contains(key) ==> !cfg.debounces(key),
        cfg@.debounce_keys.len() == 0 ==> (cfg.debounces(key) <==> !cfg@.ignored_keys.contains(key)),
{
    if cfg@.debounce_keys.contains(key) {
        assert(cfg@.debounce_keys.len() > 0);
    }
}

/// Recording keeps, for every key and key state, processed = passed + dropped,
/// and overall, passed + dropped ≤ processed with passed and dropped the sums
/// over all keys.
pub proof fn law_counts_add_up(s: StatsCollector, k: int, value: i32)
    requires
        s.consistent(),
        0 <= k < crate::filter::FILTER_MAP_SIZE,
    ensures
        spec_state_stats(s.per_key_stats@[k], value).total_processed == spec_state_stats(s.per_key_stats@[k], value).passed_count
            + spec_state_stats(s.per_key_stats@[k], value).dropped_count,
        s.key_events_passed + s.key_events_dropped <= s.key_events_processed,
{
    assert(s.per_key_stats@[k].consistent());
}

/// A passed event that the filter reports is recorded as a near miss exactly
/// when its gap to the previous passed event of its key and value is at most
/// the near-miss window, and that gap is then at least the debounce window.
pub proof fn law_near_misses_lie_between_windows(
    f: FilterView,
    event: input_event,
    debounce: Duration,
    threshold_us: u64,
)
    requires
        f.last_event_us.len() == FILTER_SLOTS,
    ensures
        ({
            let info = spec_check_outcome(f, event, debounce, false);
            match spec_near_miss_diff(info, threshold_us) {
                Some(d) => !info.is_bounce && d <= threshold_us && (d as nat) * 1000 >= debounce@,
                None => true,
            }
        }),
{
}

/// Statistics ignore events other than key events.
pub proof fn law_stats_ignore_non_key_events(before: StatsCollector, after: StatsCollector, info: EventInfo, threshold: u64)
    requires
        !spec_is_key_event(info.event),
        spec_event_recorded(before, after, info, threshold),
    ensures
        after == before,
{
}

/// The statistics since the last periodic dump never count more than the
/// cumulative ones: recording an event adds the same to both, so the
/// difference between them is kept.
pub proof fn law_interval_counts_within_cumulative(before: LoggerState, after: LoggerState, info: EventInfo, threshold: u64)
    requires
        spec_event_recorded(before.cumulative_stats, after.cumulative_stats, info, threshold),
        spec_event_recorded(before.interval_stats, after.interval_stats, info, threshold),
        before.interval_stats.key_events_processed <= before.cumulative_stats.key_events_processed,
        before.interval_stats.key_events_passed <= before.cumulative_stats.key_events_passed,
        before.interval_stats.key_events_dropped <= before.cumulative_stats.key_events_dropped,
    ensures
        after.cumulative_stats.key_events_processed - after.interval_stats.key_events_processed
            == before.cumulative_stats.key_events_processed - before.interval_stats.key_events_processed,
        after.cumulative_stats.key_events_passed - after.interval_stats.key_events_passed
            == before.cumulative_stats.key_events_passed - before.interval_stats.key_events_passed,
        after.cumulative_stats.key_events_dropped - after.interval_stats.key_events_dropped
            == before.cumulative_stats.key_events_dropped - before.interval_stats.key_events_dropped,
{
}

/// Messages are only ever counted as being dropped after the warning about
/// dropping was given, the warning is given once, and the count of dropped
/// messages grows by one exactly for each full queue.
pub proof fn law_drop_warning_given_once(s: MainState, outcome: SendOutcome)
    requires
        s.currently_dropping ==> s.warned_about_dropping,
    ensures
        ({
            let (next, notice) = spec_on_send(s, outcome);
            &&& next.currently_dropping ==> next.warned_about_dropping
            &&& s.warned_about_dropping ==> next.warned_about_dropping
            &&& (notice == crate::pipeline::SendNotice::StartedDropping) == (outcome == SendOutcome::Full && !s.warned_about_dropping)
            &&& next.total_dropped_log_messages == (if outcome == SendOutcome::Full {
                (s.total_dropped_log_messages + 1) as u64
            } else {
                s.total_dropped_log_messages
            })
        }),
{
}

/// What the filter reports for each of `events` in turn, from the state `f`,
/// with a ring buffer of `ring_size` slots and no key exempt.
pub open spec fn spec_run(f: FilterView, events: Seq<input_event>, debounce: Duration, ring_size: nat) -> Seq<EventInfo>
    decreases events.len(),
{
    if events.len() == 0 {
        Seq::empty()
    } else {
        seq![spec_check_outcome(f, events[0], debounce, false)] + spec_run(
            spec_check_next(f, events[0], debounce, false, ring_size),
            events.drop_first(),
            debounce,
            ring_size,
        )
    }
}

/// The filter reports on every event of a sequence, in order, each with
/// the event itself and its own timestamp; so the events that pass come out
/// in the order they came in, and with non-decreasing input timestamps the
/// passed timestamps do not decrease either.
pub proof fn law_order_preserved(f: FilterView, events: Seq<input_event>, debounce: Duration, ring_size: nat)
    ensures
        spec_run(f, events, debounce, ring_size).len() == events.len(),
        forall|i: int| 0 <= i < events.len() ==> (#[trigger] spec_run(f, events, debounce, ring_size)[i]).event == events[i]
            && spec_run(f, events, debounce, ring_size)[i].event_us == spec_event_us(events[i]),
        (forall|i: int, j: int| 0 <= i < j < events.len() ==> spec_event_us(#[trigger] events[i]) <= spec_event_us(#[trigger] events[j]))
            ==> forall|i: int, j: int| 0 <= i < j < events.len()
                && !(#[trigger] spec_run(f, events, debounce, ring_size)[i]).is_bounce
                && !(#[trigger] spec_run(f, events, debounce, ring_size)[j]).is_bounce
                ==> spec_run(f, events, debounce, ring_size)[i].event_us <= spec_run(f, events, debounce, ring_size)[j].event_us,
    decreases events.len(),
{
    if events.len() > 0 {
        let next = spec_check_next(f, events[0], debounce, false, ring_size);
        let rest = events.drop_first();
        law_order_preserved(next, rest, debounce, ring_size);
        let outs = spec_run(f, events, debounce, ring_size);
        assert(outs == seq![spec_check_outcome(f, events[0], debounce, false)] + spec_run(next, rest, debounce, ring_size));
        assert forall|i: int| 0 <= i < events.len() implies (#[trigger] outs[i]).event == events[i]
            && outs[i].event_us == spec_event_us(events[i]) by {
            if i > 0 {
                assert(outs[i] == spec_run(next, rest, debounce, ring_size)[i - 1]);
                assert(rest[i - 1] == events[i]);
            }
        }
    }
}

/// Recording a non-key event, or a key event of a tracked key code and
/// state, keeps the processed count equal to the passed plus the dropped count.
pub proof fn law_processed_is_passed_plus_dropped(before: StatsCollector, after: StatsCollector, info: EventInfo, threshold: u64)
    requires
        spec_event_recorded(before, after, info, threshold),
        !spec_is_key_event(info.event) || spec_counted_in_table(info),
        before.key_events_processed == before.key_events_passed + before.key_events_dropped,
    ensures
        after.key_events_processed == after.key_events_passed + after.key_events_dropped,
{
}

/// The filter state after checking each of `events` in turn from `f`, the
/// `i`-th under window `windows[i]` and exemption `skips[i]`.
pub open spec fn spec_state_after(
    f: FilterView,
    events: Seq<input_event>,
    windows: Seq<Duration>,
    skips: Seq<bool>,
    ring_size: nat,
) -> FilterView
    decreases events.len(),
{
    if events.len() == 0 {
        f
    } else {
        spec_state_after(
            spec_check_next(f, events[0], windows[0], skips[0], ring_size),
            events.drop_first(),
            windows.drop_first(),
            skips.drop_first(),
            ring_size,
        )
    }
}

/// Checking events keeps the first timestamp once one is seen, and the last
/// timestamp is always that of the last event checked.
proof fn lemma_state_after_timestamps(
    f: FilterView,
    events: Seq<input_event>,
    windows: Seq<Duration>,
    skips: Seq<bool>,
    ring_size: nat,
)
    ensures
        ({
            let g = spec_state_after(f, events, windows, skips, ring_size);
            &&& g.first_us == (if events.len() == 0 {
                f.first_us
            } else {
                match f.first_us {
                    Some(t) => Some(t),
                    None => Some(spec_event_us(events[0])),
                }
            })
            &&& g.last_us == (if events.len() == 0 { f.last_us } else { Some(spec_event_us(events.last())) })
        }),
    decreases events.len(),
{
    if events.len() > 0 {
        let next = spec_check_next(f, events[0], windows[0], skips[0], ring_size);
        let rest = events.drop_first();
        lemma_state_after_timestamps(next, rest, windows.drop_first(), skips.drop_first(), ring_size);
        if rest.len() > 0 {
            assert(rest.last() == events.last());
        }
    }
}

/// From a filter that has checked nothing, the runtime after a sequence of
/// checks (any windows, any exemptions) spans from the first event's
/// timestamp to the last one's, 0 when the last is earlier, and is `None`
/// after no check.
pub proof fn law_runtime_spans_first_to_last(
    f: FilterView,
    events: Seq<input_event>,
    windows: Seq<Duration>,
    skips: Seq<bool>,
    ring_size: nat,
)
    requires
        f.first_us is None,
        f.last_us is None,
    ensures
        spec_runtime_us(spec_state_after(f, events, windows, skips, ring_size)) == (if events.len() == 0 {
            None
        } else {
            let first = spec_event_us(events[0]);
            let last = spec_event_us(events.last());
            Some(if last >= first { (last - first) as u64 } else { 0u64 })
        }),
{
    lemma_state_after_timestamps(f, events, windows, skips, ring_size);
}

/// An event's timestamp in microseconds is `tv_sec * 1_000_000 + tv_usec`
/// whenever both parts are non-negative and that sum fits in a `u64`.
pub proof fn law_event_timestamp_in_microseconds(event: input_event)
    requires
        event.time.tv_sec >= 0,
        event.time.tv_usec >= 0,
        event.time.tv_sec * 1_000_000 + event.time.tv_usec <= u64::MAX,
    ensures
        spec_event_us(event) == event.time.tv_sec * 1_000_000 + event.time.tv_usec,
{
}

/// A key press or release whose timestamp is at or after the last passed
/// event of the same key and value, and less than the window after it, is
/// dropped, reporting that gap and that last passed time.
pub proof fn law_bounce_inside_window_dropped(f: FilterView, event: input_event, debounce: Duration)
    requires
        f.last_event_us.len() == FILTER_SLOTS,
        event.type_ == EV_KEY,
        event.value == 0 || event.value == 1,
        (event.code as int) < crate::filter::FILTER_MAP_SIZE,
        f.last_event_us[event.code as int * 3 + event.value as int] != u64::MAX,
        f.last_event_us[event.code as int * 3 + event.value as int] <= spec_event_us(event),
        (spec_event_us(event) - f.last_event_us[event.code as int * 3 + event.value as int]) * 1000 < debounce@,
    ensures
        ({
            let last = f.last_event_us[event.code as int * 3 + event.value as int];
            let info = spec_check_outcome(f, event, debounce, false);
            &&& info.is_bounce
            &&& info.event_us == spec_event_us(event)
            &&& info.diff_us == Some((spec_event_us(event) - last) as u64)
            &&& info.last_passed_us == Some(last)
        }),
{
}

/// A passed key event of a tracked key code and state (press, release or
/// repeat) whose gap to the previous passed event of its key and state is at
/// most the near-miss window is recorded as a near miss of that key and
/// state: one more in its histogram, and the gap as its newest sample.
pub proof fn law_near_miss_recorded_for_every_state(
    before: StatsCollector,
    after: StatsCollector,
    info: EventInfo,
    threshold_us: u64,
    last: u64,
)
    requires
        spec_event_recorded(before, after, info, threshold_us),
        info.event.type_ == EV_KEY,
        0 <= info.event.value < 3,
        (info.event.code as int) < crate::filter::FILTER_MAP_SIZE,
        !info.is_bounce,
        info.last_passed_us == Some(last),
        last <= info.event_us,
        info.event_us - last <= threshold_us,
    ensures
        ({
            let slot = info.event.code as int * 3 + info.event.value as int;
            let near = after.per_key_near_miss_stats@[slot];
            &&& near.histogram.count == before.per_key_near_miss_stats@[slot].histogram.count + 1
            &&& near.timings_us@.len() > 0
            &&& near.timings_us@.last() == info.event_us - last
        }),
{
    assert(spec_counted_in_table(info));
    assert(spec_near_miss_diff(info, threshold_us) == Some((info.event_us - last) as u64));
    assert(MAX_NEAR_MISS_TIMING_SAMPLES > 0);
}

/// Every key code from 0 to 127 has a name, except 84, which the kernel
/// leaves unassigned.
pub proof fn law_named_key_codes(code: u16)
    requires
        code <= 127,
        code != 84,
    ensures
        spec_key_name(code) is Some,
{
}

/// Recording a timing adds one to exactly the bucket whose reported bounds
/// contain its whole milliseconds: the bucket after boundary `i - 1` (from 0
/// for the first) and below boundary `i` (unbounded for the last), where the
/// boundaries are `HISTOGRAM_BUCKET_BOUNDARIES_MS`.
pub proof fn law_timing_lands_in_its_bucket(before: TimingHistogram, after: TimingHistogram, timing_us: u64)
    requires
        spec_recorded(before, after, timing_us),
        forall|i: int| 0 <= i < 9 ==> before.buckets@[i] < u64::MAX,
    ensures
        forall|i: int| 0 <= i < 9 ==> #[trigger] after.buckets@[i] == before.buckets@[i] + (if (i == 0
            || HISTOGRAM_BUCKET_BOUNDARIES_MS@[i - 1] <= timing_us / 1000) && (i == 8
            || timing_us / 1000 < HISTOGRAM_BUCKET_BOUNDARIES_MS@[i]) {
            1int
        } else {
            0int
        }),
{
    assert(HISTOGRAM_BUCKET_BOUNDARIES_MS@ =~= seq![1u64, 2, 4, 8, 16, 32, 64, 128]);
}

/// In every report row of consistent statistics, the key's processed count
/// is its passed plus its dropped count, and the sum of the processed counts
/// of its three states (press, release and repeat).
pub proof fn law_report_rows_count_all_states(s: StatsCollector, rows: Seq<KeyReport>, with_dropped: bool)
    requires
        s.consistent(),
        crate::filter::report::spec_key_rows(rows, s.per_key_stats@, with_dropped),
    ensures
        forall|j: int| 0 <= j < rows.len() ==> {
            &&& (#[trigger] rows[j]).total_processed == rows[j].total_passed + rows[j].total_dropped
            &&& rows[j].total_processed == rows[j].press.total_processed + rows[j].release.total_processed
                + rows[j].repeat.total_processed
        },
{
    assert forall|j: int| 0 <= j < rows.len() implies {
        &&& (#[trigger] rows[j]).total_processed == rows[j].total_passed + rows[j].total_dropped
        &&& rows[j].total_processed == rows[j].press.total_processed + rows[j].release.total_processed
            + rows[j].repeat.total_processed
    } by {
        let c = rows[j].key_code as int;
        let k: KeyStats = s.per_key_stats@[c];
        assert(k.consistent());
    }
}

} // verus!
