//! Statistics accumulation, histograms and the figures of the reports.

use intercept_bounce::config::Config;
use intercept_bounce::duration::{format_duration, Duration};
use intercept_bounce::event::{input_event, timeval, EV_KEY, EV_SYN};
use intercept_bounce::filter::report::{HistogramReport, KeyValueReport, StatsReport};
use intercept_bounce::filter::stats::{
    KeyValueStats, NearMissStats, StatsCollector, TimingHistogram, HISTOGRAM_BUCKET_BOUNDARIES_MS,
    MAX_BOUNCE_TIMING_SAMPLES, MAX_NEAR_MISS_TIMING_SAMPLES, NUM_HISTOGRAM_BUCKETS,
};
use intercept_bounce::logger::EventInfo;

const KEY_A: u16 = 30;
const KEY_B: u16 = 48;
const KEY_C: u16 = 46;
const KEY_D: u16 = 32;

fn debounce_time() -> Duration {
    Duration::from_millis(10)
}

fn key_ev(ts_us: u64, code: u16, value: i32) -> input_event {
    input_event {
        time: timeval {
            tv_sec: (ts_us / 1_000_000) as i64,
            tv_usec: (ts_us % 1_000_000) as i64,
        },
        type_: EV_KEY,
        code,
        value,
    }
}

fn non_key_ev(ts_us: u64) -> input_event {
    input_event {
        time: timeval {
            tv_sec: (ts_us / 1_000_000) as i64,
            tv_usec: (ts_us % 1_000_000) as i64,
        },
        type_: EV_SYN,
        code: 0,
        value: 0,
    }
}

fn passed_event_info(event: input_event, event_us: u64, last_passed_us: Option<u64>) -> EventInfo {
    EventInfo { event, event_us, is_bounce: false, diff_us: None, last_passed_us }
}

fn bounced_event_info(event: input_event, event_us: u64, diff_us: u64, last_passed_us: Option<u64>) -> EventInfo {
    EventInfo { event, event_us, is_bounce: true, diff_us: Some(diff_us), last_passed_us }
}

fn dummy_config_no_arc(debounce_time: Duration, near_miss_threshold: Duration) -> Config {
    Config::new(
        debounce_time,
        near_miss_threshold,
        Duration::zero(),
        false,
        false,
        false,
        false,
        "info".to_string(),
        None,
        0,
        Vec::new(),
        Vec::new(),
    )
}

/// Microseconds as the human-readable statistics print them.
fn format_us(us: u64) -> String {
    if us < 1000 {
        format!("{us} µs")
    } else if us < 1_000_000 {
        format!("{:.1} ms", us as f64 / 1000.0)
    } else {
        format!("{:.3} s", us as f64 / 1_000_000.0)
    }
}

fn rate(part: u64, whole: u64) -> f64 {
    if whole > 0 {
        (part as f64 / whole as f64) * 100.0
    } else {
        0.0
    }
}

fn kv_line(name: &str, value: i32, kv: &KeyValueReport) -> String {
    format!(
        "{:<7} ({}): Processed: {}, Passed: {}, Dropped: {} ({:.2}%)",
        name,
        value,
        kv.total_processed,
        kv.passed_count,
        kv.dropped_count,
        rate(kv.dropped_count, kv.total_processed)
    )
}

fn bucket_count(h: &HistogramReport, min_ms: u64) -> u64 {
    h.buckets.iter().find(|b| b.min_ms == min_ms).unwrap().count
}

#[test]
fn timing_histogram_record() {
    let mut hist = TimingHistogram::default();
    let boundaries_ms = HISTOGRAM_BUCKET_BOUNDARIES_MS;

    hist.record(500);
    hist.record(1000);
    hist.record(1999);
    hist.record(2000);
    hist.record(3999);
    hist.record(boundaries_ms[boundaries_ms.len() - 1] * 1000);
    hist.record(boundaries_ms[boundaries_ms.len() - 1] * 1000 + 1);

    assert_eq!(hist.count, 7);
    assert_eq!(hist.buckets[0], 1);
    assert_eq!(hist.buckets[1], 2);
    assert_eq!(hist.buckets[2], 2);
    assert_eq!(hist.buckets[3], 0);
    assert_eq!(hist.buckets[4], 0);
    assert_eq!(hist.buckets[5], 0);
    assert_eq!(hist.buckets[6], 0);
    assert_eq!(hist.buckets[7], 0);
    assert_eq!(hist.buckets[8], 2);
}

#[test]
fn timing_histogram_average() {
    let mut hist = TimingHistogram::default();
    hist.record(1000);
    hist.record(2000);
    hist.record(3000);
    assert_eq!(hist.count, 3);
    assert_eq!(hist.sum_us, 6000);
    assert_eq!(hist.average_us(), 2000);

    let hist2 = TimingHistogram::default();
    assert_eq!(hist2.count, 0);
    assert_eq!(hist2.sum_us, 0);
    assert_eq!(hist2.average_us(), 0);
}

#[test]
fn timing_histogram_sum_saturates() {
    let mut hist = TimingHistogram::default();
    hist.record(u64::MAX - 5);
    hist.record(10);
    assert_eq!(hist.sum_us, u64::MAX);
    assert_eq!(hist.count, 2);
    assert_eq!(hist.buckets[8], 1);
    assert_eq!(hist.buckets[0], 1);
}

#[test]
fn stats_basic_counts() {
    let mut stats = StatsCollector::with_capacity();
    let ev1 = key_ev(1000, KEY_A, 1);
    let ev2 = key_ev(2000, KEY_A, 1);
    let ev3 = key_ev(3000, KEY_A, 0);
    let ev4 = key_ev(4000, KEY_A, 0);
    let ev5 = key_ev(5000, KEY_B, 1);

    let config = dummy_config_no_arc(debounce_time(), Duration::from_millis(100));

    stats.record_event_info_with_config(&passed_event_info(ev1, 1000, None), &config);
    stats.record_event_info_with_config(&bounced_event_info(ev2, 2000, 1000, Some(1000)), &config);
    stats.record_event_info_with_config(&passed_event_info(ev3, 3000, None), &config);
    stats.record_event_info_with_config(&bounced_event_info(ev4, 4000, 1000, Some(3000)), &config);
    stats.record_event_info_with_config(&passed_event_info(ev5, 5000, None), &config);

    assert_eq!(stats.key_events_processed, 5);
    assert_eq!(stats.key_events_passed, 3);
    assert_eq!(stats.key_events_dropped, 2);

    let key_a_stats = &stats.per_key_stats[KEY_A as usize];
    assert_eq!(key_a_stats.press.total_processed, 2);
    assert_eq!(key_a_stats.press.passed_count, 1);
    assert_eq!(key_a_stats.press.dropped_count, 1);
    assert_eq!(key_a_stats.press.timings_us, vec![1000]);

    assert_eq!(key_a_stats.release.total_processed, 2);
    assert_eq!(key_a_stats.release.passed_count, 1);
    assert_eq!(key_a_stats.release.dropped_count, 1);
    assert_eq!(key_a_stats.release.timings_us, vec![1000]);

    assert_eq!(key_a_stats.repeat.total_processed, 0);
    assert_eq!(key_a_stats.repeat.passed_count, 0);
    assert_eq!(key_a_stats.repeat.dropped_count, 0);

    let key_b_stats = &stats.per_key_stats[KEY_B as usize];
    assert_eq!(key_b_stats.press.total_processed, 1);
    assert_eq!(key_b_stats.press.passed_count, 1);
    assert_eq!(key_b_stats.press.dropped_count, 0);
    assert_eq!(key_b_stats.release.total_processed, 0);
    assert_eq!(key_b_stats.release.passed_count, 0);
    assert_eq!(key_b_stats.release.dropped_count, 0);
    assert_eq!(key_b_stats.repeat.total_processed, 0);
    assert_eq!(key_b_stats.repeat.passed_count, 0);
    assert_eq!(key_b_stats.repeat.dropped_count, 0);
}

#[test]
fn stats_near_miss_default_threshold() {
    let mut stats = StatsCollector::with_capacity();
    let near_miss_threshold = Duration::from_millis(100);
    let debounce_us = debounce_time().as_micros() as u64;
    let near_miss_threshold_us = near_miss_threshold.as_micros() as u64;

    let near_miss_diff1 = debounce_us + 500;
    let not_near_miss_diff2 = debounce_us + near_miss_threshold_us;
    let far_diff = debounce_us + near_miss_threshold_us + 1000;
    let bounce_diff = debounce_us - 1;

    let ev1_ts = 0;
    let ev2_ts = ev1_ts + near_miss_diff1;
    let ev3_ts = ev2_ts + not_near_miss_diff2;
    let ev4_ts = ev3_ts + far_diff;
    let ev5_ts = ev4_ts + bounce_diff;

    let ev1 = key_ev(ev1_ts, KEY_A, 1);
    let ev2 = key_ev(ev2_ts, KEY_A, 1);
    let ev3 = key_ev(ev3_ts, KEY_A, 1);
    let ev4 = key_ev(ev4_ts, KEY_A, 1);
    let ev5 = key_ev(ev5_ts, KEY_A, 1);

    let config = dummy_config_no_arc(debounce_time(), near_miss_threshold);

    stats.record_event_info_with_config(&passed_event_info(ev1, ev1_ts, None), &config);
    stats.record_event_info_with_config(&passed_event_info(ev2, ev2_ts, Some(ev1_ts)), &config);
    stats.record_event_info_with_config(&passed_event_info(ev3, ev3_ts, Some(ev2_ts)), &config);
    stats.record_event_info_with_config(&passed_event_info(ev4, ev4_ts, Some(ev3_ts)), &config);
    stats.record_event_info_with_config(
        &bounced_event_info(ev5, ev5_ts, bounce_diff, Some(ev4_ts)),
        &config,
    );

    assert_eq!(stats.key_events_processed, 5);
    assert_eq!(stats.key_events_passed, 4);
    assert_eq!(stats.key_events_dropped, 1);

    let key_a_stats = &stats.per_key_stats[KEY_A as usize];
    assert_eq!(key_a_stats.press.total_processed, 5);
    assert_eq!(key_a_stats.press.passed_count, 4);
    assert_eq!(key_a_stats.press.dropped_count, 1);

    let near_miss_idx = KEY_A as usize * 3 + 1;
    let near_misses_stats = &stats.per_key_near_miss_stats[near_miss_idx];
    assert_eq!(near_misses_stats.timings_us.len(), 1, "Expected exactly 1 near miss");
    assert_eq!(
        near_misses_stats.timings_us[0], near_miss_diff1,
        "Expected near miss timing for ev2"
    );

    assert_eq!(key_a_stats.press.timings_us, vec![bounce_diff]);
}

#[test]
fn stats_near_miss_custom_threshold() {
    let mut stats = StatsCollector::with_capacity();
    let custom_threshold = Duration::from_millis(50);
    let debounce_us = debounce_time().as_micros() as u64;

    let ev1_ts = 0;
    let diff1 = debounce_us + 1000;
    let ev2_ts = ev1_ts + diff1;
    let diff2 = 40_000;
    let ev3_ts = ev2_ts + diff2;
    let diff3 = 60_000;
    let ev4_ts = ev3_ts + diff3;

    let ev1 = key_ev(ev1_ts, KEY_A, 1);
    let ev2 = key_ev(ev2_ts, KEY_A, 1);
    let ev3 = key_ev(ev3_ts, KEY_A, 1);
    let ev4 = key_ev(ev4_ts, KEY_A, 1);

    let config = dummy_config_no_arc(debounce_time(), custom_threshold);

    stats.record_event_info_with_config(&passed_event_info(ev1, ev1_ts, None), &config);
    stats.record_event_info_with_config(&passed_event_info(ev2, ev2_ts, Some(ev1_ts)), &config);
    stats.record_event_info_with_config(&passed_event_info(ev3, ev3_ts, Some(ev2_ts)), &config);
    stats.record_event_info_with_config(&passed_event_info(ev4, ev4_ts, Some(ev3_ts)), &config);

    assert_eq!(stats.key_events_processed, 4);
    assert_eq!(stats.key_events_passed, 4);
    assert_eq!(stats.key_events_dropped, 0);

    let key_a_stats = &stats.per_key_stats[KEY_A as usize];
    assert_eq!(key_a_stats.press.total_processed, 4);
    assert_eq!(key_a_stats.press.passed_count, 4);
    assert_eq!(key_a_stats.press.dropped_count, 0);

    let near_miss_idx = KEY_A as usize * 3 + 1;
    let near_misses_stats = &stats.per_key_near_miss_stats[near_miss_idx];
    assert_eq!(near_misses_stats.timings_us.len(), 2, "Expected 2 near misses");
    assert_eq!(near_misses_stats.timings_us[0], diff1, "Expected near miss timing for ev2");
    assert_eq!(near_misses_stats.timings_us[1], diff2, "Expected near miss timing for ev3");
}

#[test]
fn stats_ignores_non_key_events() {
    let mut stats = StatsCollector::with_capacity();
    let ev1 = key_ev(1000, KEY_A, 1);
    let ev2 = non_key_ev(2000);
    let syn_info = EventInfo {
        event: ev2,
        event_us: 2000,
        is_bounce: false,
        diff_us: None,
        last_passed_us: None,
    };

    let config = dummy_config_no_arc(debounce_time(), Duration::from_millis(100));

    stats.record_event_info_with_config(&passed_event_info(ev1, 1000, None), &config);
    stats.record_event_info_with_config(&syn_info, &config);

    assert_eq!(stats.key_events_processed, 1);
    assert_eq!(stats.key_events_passed, 1);
    assert_eq!(stats.key_events_dropped, 0);

    let key_a_stats = &stats.per_key_stats[KEY_A as usize];
    assert_eq!(key_a_stats.press.total_processed, 1);
    assert_eq!(key_a_stats.press.passed_count, 1);
    assert_eq!(key_a_stats.press.dropped_count, 0);
}

#[test]
fn stats_json_output_structure() {
    let mut stats = StatsCollector::with_capacity();
    let debounce_us = debounce_time().as_micros() as u64;
    let ev1_ts = 1000;
    let ev2_ts = ev1_ts + 500;
    let ev3_ts = ev1_ts + debounce_us + 2000;

    let ev1 = key_ev(ev1_ts, KEY_A, 1);
    let ev2 = key_ev(ev2_ts, KEY_A, 1);
    let ev3 = key_ev(ev3_ts, KEY_A, 1);

    let config = Config::new(
        debounce_time(),
        Duration::from_millis(100),
        Duration::zero(),
        true,
        false,
        true,
        false,
        "info".to_string(),
        None,
        0,
        Vec::new(),
        Vec::new(),
    );

    stats.record_event_info_with_config(&passed_event_info(ev1, ev1_ts, None), &config);
    stats.record_event_info_with_config(
        &bounced_event_info(ev2, ev2_ts, 500, Some(ev1_ts)),
        &config,
    );
    stats.record_event_info_with_config(&passed_event_info(ev3, ev3_ts, Some(ev1_ts)), &config);

    let runtime_us = ev3_ts + 1000;
    let report: StatsReport = stats.report(&config, "Cumulative", Some(runtime_us));

    assert_eq!(report.report_type, "Cumulative");
    assert_eq!(report.runtime_us, Some(runtime_us));
    assert_eq!(report.runtime_human.as_deref(), Some("14ms"));
    assert_eq!(report.key_events_processed, 3);
    assert_eq!(report.key_events_passed, 2);
    assert_eq!(report.key_events_dropped, 1);

    assert_eq!(report.debounce_time_us, debounce_time().as_micros() as u64);
    assert_eq!(report.near_miss_threshold_us, Duration::from_millis(100).as_micros() as u64);
    assert_eq!(report.log_interval_us, Duration::zero().as_micros() as u64);
    assert_eq!(report.debounce_time_human, "10ms");
    assert_eq!(report.near_miss_threshold_human, "100ms");
    assert_eq!(report.log_interval_human, "0s");

    let per_key_stats = &report.per_key_stats;
    assert_eq!(per_key_stats.len(), 1);
    let key_a_stats = &per_key_stats[0];
    assert_eq!(key_a_stats.key_code, KEY_A);
    assert_eq!(key_a_stats.key_name, "KEY_A");
    assert_eq!(key_a_stats.total_processed, 3);
    assert_eq!(key_a_stats.total_dropped, 1);
    assert!((rate(key_a_stats.total_dropped, key_a_stats.total_processed) - (1.0 / 3.0) * 100.0).abs() < f64::EPSILON);

    let press = &key_a_stats.press;
    assert_eq!(press.total_processed, 3);
    assert_eq!(press.passed_count, 2);
    assert_eq!(press.dropped_count, 1);
    assert!((rate(press.dropped_count, press.total_processed) - (1.0 / 3.0) * 100.0).abs() < f64::EPSILON);
    assert_eq!(press.timings_us, vec![500]);

    let bounce_hist = &press.bounce_histogram;
    assert_eq!(bounce_hist.count, 1);
    assert_eq!(bounce_hist.avg_us, 500);
    assert_eq!(bounce_hist.buckets.len(), NUM_HISTOGRAM_BUCKETS);
    assert_eq!(bounce_hist.buckets[0].min_ms, 0);
    assert_eq!(bounce_hist.buckets[0].max_ms, Some(HISTOGRAM_BUCKET_BOUNDARIES_MS[0]));
    assert_eq!(bounce_hist.buckets[0].count, 1);

    for kv in [&key_a_stats.release, &key_a_stats.repeat] {
        assert_eq!(kv.total_processed, 0);
        assert_eq!(kv.passed_count, 0);
        assert_eq!(kv.dropped_count, 0);
        assert!((rate(kv.dropped_count, kv.total_processed) - 0.0).abs() < f64::EPSILON);
        assert!(kv.timings_us.is_empty());
        assert_eq!(kv.bounce_histogram.count, 0);
    }

    let near_miss_stats_array = &report.per_key_near_miss_stats;
    assert_eq!(near_miss_stats_array.len(), 1);
    let key_a_near_miss = &near_miss_stats_array[0];
    assert_eq!(key_a_near_miss.key_code, KEY_A);
    assert_eq!(key_a_near_miss.key_value, 1);
    assert_eq!(key_a_near_miss.key_name, "KEY_A");
    assert_eq!(key_a_near_miss.value_name, "Press");
    assert_eq!(key_a_near_miss.timings_us.len(), 1);
    let expected_near_miss_diff = ev3_ts - ev1_ts;
    assert_eq!(key_a_near_miss.timings_us, vec![expected_near_miss_diff]);

    let near_miss_hist = &key_a_near_miss.histogram;
    assert_eq!(near_miss_hist.count, 1);
    assert_eq!(near_miss_hist.avg_us, expected_near_miss_diff);
    assert_eq!(near_miss_hist.buckets.len(), NUM_HISTOGRAM_BUCKETS);
    assert_eq!(near_miss_hist.buckets[4].min_ms, 8);
    assert_eq!(near_miss_hist.buckets[4].max_ms, Some(16));
    assert_eq!(near_miss_hist.buckets[4].count, 1);
    assert_eq!(near_miss_hist.buckets[8].max_ms, None);

    let overall_bounce_hist = &report.overall_bounce_histogram;
    assert_eq!(overall_bounce_hist.count, 1);
    assert_eq!(overall_bounce_hist.avg_us, 500);
    assert_eq!(overall_bounce_hist.buckets[0].count, 1);

    let overall_near_miss_hist = &report.overall_near_miss_histogram;
    assert_eq!(overall_near_miss_hist.count, 1);
    assert_eq!(overall_near_miss_hist.avg_us, expected_near_miss_diff);
    assert_eq!(overall_near_miss_hist.buckets[4].count, 1);
}

#[test]
fn stats_human_output_formatting() {
    let mut stats = StatsCollector::with_capacity();
    let debounce_us = debounce_time().as_micros() as u64;
    let near_miss_threshold = Duration::from_millis(50);

    let ev_a1 = key_ev(0, KEY_A, 1);
    let ev_a2 = key_ev(debounce_us / 2, KEY_A, 1);
    let ev_a3 = key_ev(debounce_us * 2, KEY_A, 1);
    let ev_a4 = key_ev(debounce_us * 2 + debounce_us / 4, KEY_A, 1);

    let ev_a5 = key_ev(debounce_us * 3, KEY_A, 0);
    let ev_a6 = key_ev(debounce_us * 3 + debounce_us / 2, KEY_A, 0);
    let ev_a7 = key_ev(debounce_us * 3 + debounce_us / 2 + 1000, KEY_A, 0);

    let ev_b1 = key_ev(debounce_us * 4, KEY_B, 1);
    let ev_b2 = key_ev(debounce_us * 4 + near_miss_threshold.as_micros() as u64 - 1, KEY_B, 1);

    let config = dummy_config_no_arc(debounce_time(), near_miss_threshold);

    stats.record_event_info_with_config(&passed_event_info(ev_a1, 0, None), &config);
    stats.record_event_info_with_config(&bounced_event_info(ev_a2, debounce_us / 2, debounce_us / 2, Some(0)), &config);
    stats.record_event_info_with_config(&passed_event_info(ev_a3, debounce_us * 2, Some(0)), &config);
    stats.record_event_info_with_config(&bounced_event_info(ev_a4, debounce_us * 2 + debounce_us / 4, debounce_us / 4, Some(debounce_us * 2)), &config);

    stats.record_event_info_with_config(&passed_event_info(ev_a5, debounce_us * 3, None), &config);
    stats.record_event_info_with_config(&bounced_event_info(ev_a6, debounce_us * 3 + debounce_us / 2, debounce_us / 2, Some(debounce_us * 3)), &config);
    stats.record_event_info_with_config(&bounced_event_info(ev_a7, debounce_us * 3 + debounce_us / 2 + 1000, debounce_us / 2 + 1000, Some(debounce_us * 3)), &config);

    stats.record_event_info_with_config(&passed_event_info(ev_b1, debounce_us * 4, None), &config);
    stats.record_event_info_with_config(&passed_event_info(ev_b2, debounce_us * 4 + near_miss_threshold.as_micros() as u64 - 1, Some(debounce_us * 4)), &config);

    let report = stats.report(&config, "Cumulative", None);

    assert_eq!(report.report_type, "Cumulative");
    assert_eq!(report.key_events_processed, 9);
    assert_eq!(report.key_events_passed, 5);
    assert_eq!(report.key_events_dropped, 4);
    assert_eq!(format!("{:.2}%", rate(report.key_events_dropped, report.key_events_processed)), "44.44%");

    let bounce = &report.overall_bounce_histogram;
    assert_eq!(bucket_count(bounce, 2), 1);
    assert_eq!(bucket_count(bounce, 4), 3);
    assert_eq!(format!("Total: {}, Avg: {}", bounce.count, format_us(bounce.avg_us)), "Total: 4, Avg: 4.6 ms");

    assert_eq!(report.near_miss_threshold_human, "50ms");
    let near = &report.overall_near_miss_histogram;
    assert_eq!(bucket_count(near, 16), 1);
    assert_eq!(bucket_count(near, 32), 1);
    assert_eq!(format!("Total: {}, Avg: {}", near.count, format_us(near.avg_us)), "Total: 2, Avg: 35.0 ms");

    assert_eq!(report.per_key_stats.len(), 2);
    let key_a = &report.per_key_stats[0];
    assert_eq!((key_a.key_name, key_a.key_code), ("KEY_A", 30));
    assert_eq!(
        format!(
            "Total Processed: {}, Passed: {}, Dropped: {} ({:.2}%)",
            key_a.total_processed,
            key_a.total_passed,
            key_a.total_dropped,
            rate(key_a.total_dropped, key_a.total_processed)
        ),
        "Total Processed: 7, Passed: 3, Dropped: 4 (57.14%)"
    );
    assert_eq!(kv_line("Press", 1, &key_a.press), "Press   (1): Processed: 4, Passed: 2, Dropped: 2 (50.00%)");
    let s = key_a.press.bounce_summary.unwrap();
    assert_eq!(
        format!("Bounce Time: {} / {} / {}", format_us(s.min_us), format_us(s.avg_us), format_us(s.max_us)),
        "Bounce Time: 2.5 ms / 3.8 ms / 5.0 ms"
    );
    assert_eq!(kv_line("Release", 0, &key_a.release), "Release (0): Processed: 3, Passed: 1, Dropped: 2 (66.67%)");
    let s = key_a.release.bounce_summary.unwrap();
    assert_eq!(
        format!("Bounce Time: {} / {} / {}", format_us(s.min_us), format_us(s.avg_us), format_us(s.max_us)),
        "Bounce Time: 5.0 ms / 5.5 ms / 6.0 ms"
    );

    let key_b = &report.per_key_stats[1];
    assert_eq!((key_b.key_name, key_b.key_code), ("KEY_B", 48));
    assert_eq!(
        format!(
            "Total Processed: {}, Passed: {}, Dropped: {} ({:.2}%)",
            key_b.total_processed,
            key_b.total_passed,
            key_b.total_dropped,
            rate(key_b.total_dropped, key_b.total_processed)
        ),
        "Total Processed: 2, Passed: 2, Dropped: 0 (0.00%)"
    );
    assert_eq!(kv_line("Press", 1, &key_b.press), "Press   (1): Processed: 2, Passed: 2, Dropped: 0 (0.00%)");
    assert_eq!(key_b.release.total_processed, 0);
    assert_eq!(key_b.repeat.total_processed, 0);

    assert_eq!(report.per_key_near_miss_stats.len(), 2);
    let nm_a = &report.per_key_near_miss_stats[0];
    assert_eq!(
        format!(
            "Key [{}] ({}, {}): {} (Near-Miss Time: {} / {} / {})",
            nm_a.key_name,
            nm_a.key_code,
            nm_a.key_value,
            nm_a.timings_us.len(),
            format_us(nm_a.summary.min_us),
            format_us(nm_a.summary.avg_us),
            format_us(nm_a.summary.max_us)
        ),
        "Key [KEY_A] (30, 1): 1 (Near-Miss Time: 20.0 ms / 20.0 ms / 20.0 ms)"
    );
    let nm_b = &report.per_key_near_miss_stats[1];
    assert_eq!(
        format!(
            "Key [{}] ({}, {}): {} (Near-Miss Time: {} / {} / {})",
            nm_b.key_name,
            nm_b.key_code,
            nm_b.key_value,
            nm_b.timings_us.len(),
            format_us(nm_b.summary.min_us),
            format_us(nm_b.summary.avg_us),
            format_us(nm_b.summary.max_us)
        ),
        "Key [KEY_B] (48, 1): 1 (Near-Miss Time: 50.0 ms / 50.0 ms / 50.0 ms)"
    );
}

#[test]
fn stats_passed_counts_and_drop_rates() {
    let mut stats = StatsCollector::with_capacity();
    let config = dummy_config_no_arc(debounce_time(), Duration::from_millis(100));
    let debounce_us = debounce_time().as_micros() as u64;

    let ev_a1 = key_ev(0, KEY_A, 1);
    let ev_a2 = key_ev(debounce_us / 2, KEY_A, 1);
    let ev_a3 = key_ev(debounce_us * 2, KEY_A, 1);
    let ev_a4 = key_ev(debounce_us * 3, KEY_A, 0);
    let ev_a5 = key_ev(debounce_us * 3 + debounce_us / 2, KEY_A, 0);
    let ev_a6 = key_ev(debounce_us * 3 + debounce_us / 2 + 1, KEY_A, 0);
    let ev_b1 = key_ev(debounce_us * 4, KEY_B, 1);
    let ev_c1 = key_ev(debounce_us * 5, KEY_C, 2);

    stats.record_event_info_with_config(&passed_event_info(ev_a1, 0, None), &config);
    stats.record_event_info_with_config(&bounced_event_info(ev_a2, debounce_us / 2, debounce_us / 2, Some(0)), &config);
    stats.record_event_info_with_config(&passed_event_info(ev_a3, debounce_us * 2, Some(0)), &config);
    stats.record_event_info_with_config(&passed_event_info(ev_a4, debounce_us * 3, None), &config);
    stats.record_event_info_with_config(&bounced_event_info(ev_a5, debounce_us * 3 + debounce_us / 2, debounce_us / 2, Some(debounce_us * 3)), &config);
    stats.record_event_info_with_config(&bounced_event_info(ev_a6, debounce_us * 3 + debounce_us / 2 + 1, debounce_us / 2 + 1, Some(debounce_us * 3)), &config);
    stats.record_event_info_with_config(&passed_event_info(ev_b1, debounce_us * 4, None), &config);
    stats.record_event_info_with_config(&passed_event_info(ev_c1, debounce_us * 5, None), &config);

    let key_a_stats = &stats.per_key_stats[KEY_A as usize];
    let key_b_stats = &stats.per_key_stats[KEY_B as usize];
    let key_c_stats = &stats.per_key_stats[KEY_C as usize];

    assert_eq!(key_a_stats.press.total_processed, 3, "KEY_A Press total");
    assert_eq!(key_a_stats.press.passed_count, 2, "KEY_A Press passed");
    assert_eq!(key_a_stats.press.dropped_count, 1, "KEY_A Press dropped");

    assert_eq!(key_a_stats.release.total_processed, 3, "KEY_A Release total");
    assert_eq!(key_a_stats.release.passed_count, 1, "KEY_A Release passed");
    assert_eq!(key_a_stats.release.dropped_count, 2, "KEY_A Release dropped");

    assert_eq!(key_b_stats.press.total_processed, 1, "KEY_B Press total");
    assert_eq!(key_b_stats.press.passed_count, 1, "KEY_B Press passed");
    assert_eq!(key_b_stats.press.dropped_count, 0, "KEY_B Press dropped");

    assert_eq!(key_c_stats.repeat.total_processed, 1, "KEY_C Repeat total");
    assert_eq!(key_c_stats.repeat.passed_count, 1, "KEY_C Repeat passed");
    assert_eq!(key_c_stats.repeat.dropped_count, 0, "KEY_C Repeat dropped");

    assert_eq!(stats.key_events_processed, 8);
    assert_eq!(stats.key_events_passed, 5);
    assert_eq!(stats.key_events_dropped, 3);
}

#[test]
fn stats_collector_aggregate_histograms() {
    let mut stats = StatsCollector::with_capacity();
    let config = dummy_config_no_arc(debounce_time(), Duration::from_millis(100));

    let ev_a1 = key_ev(0, KEY_A, 1);
    let ev_a2 = key_ev(500, KEY_A, 1);
    let ev_a3 = key_ev(2000, KEY_A, 1);
    stats.record_event_info_with_config(&passed_event_info(ev_a1, 0, None), &config);
    stats.record_event_info_with_config(&bounced_event_info(ev_a2, 500, 500, Some(0)), &config);
    stats.record_event_info_with_config(&bounced_event_info(ev_a3, 2000, 1500, Some(0)), &config);

    let ev_b1 = key_ev(10000, KEY_B, 0);
    let ev_b2 = key_ev(13000, KEY_B, 0);
    stats.record_event_info_with_config(&passed_event_info(ev_b1, 10000, None), &config);
    stats.record_event_info_with_config(&bounced_event_info(ev_b2, 13000, 3000, Some(10000)), &config);

    let ev_a4 = key_ev(21000, KEY_A, 1);
    let ev_a5 = key_ev(46000, KEY_A, 1);
    stats.record_event_info_with_config(&passed_event_info(ev_a4, 21000, Some(0)), &config);
    stats.record_event_info_with_config(&passed_event_info(ev_a5, 46000, Some(21000)), &config);

    let ev_b3 = key_ev(50000, KEY_B, 1);
    let ev_b4 = key_ev(90000, KEY_B, 1);
    stats.record_event_info_with_config(&passed_event_info(ev_b3, 50000, None), &config);
    stats.record_event_info_with_config(&passed_event_info(ev_b4, 90000, Some(50000)), &config);

    stats.aggregate_histograms();

    let overall_bounce_hist = &stats.overall_bounce_histogram;
    assert_eq!(overall_bounce_hist.count, 3);
    assert_eq!(overall_bounce_hist.sum_us, 500 + 1500 + 3000);
    assert_eq!(overall_bounce_hist.average_us(), 5000 / 3);
    assert_eq!(overall_bounce_hist.buckets[0], 1);
    assert_eq!(overall_bounce_hist.buckets[1], 1);
    assert_eq!(overall_bounce_hist.buckets[2], 1);
    assert_eq!(overall_bounce_hist.buckets[3], 0);

    let overall_near_miss_hist = &stats.overall_near_miss_histogram;
    assert_eq!(overall_near_miss_hist.count, 3);
    assert_eq!(overall_near_miss_hist.sum_us, 21000 + 25000 + 40000);
    assert_eq!(overall_near_miss_hist.average_us(), 86000 / 3);
    assert_eq!(overall_near_miss_hist.buckets[5], 2);
    assert_eq!(overall_near_miss_hist.buckets[6], 1);
    assert_eq!(overall_near_miss_hist.buckets[0], 0);

    // Aggregating again gives the same result rather than doubling it.
    stats.aggregate_histograms();
    assert_eq!(stats.overall_bounce_histogram.count, 3);
    assert_eq!(stats.overall_near_miss_histogram.count, 3);
}

#[test]
fn stats_only_passed() {
    let mut stats = StatsCollector::with_capacity();
    let debounce_us = debounce_time().as_micros() as u64;
    let near_miss_threshold = Duration::from_millis(100);
    let near_miss_threshold_us = near_miss_threshold.as_micros() as u64;

    let ev1_ts = 0;
    let ev2_ts = ev1_ts + debounce_us + 1;
    let diff3 = debounce_us + near_miss_threshold_us;
    let ev3_ts = ev1_ts + diff3;

    let ev1 = key_ev(ev1_ts, KEY_C, 1);
    let ev2 = key_ev(ev2_ts, KEY_C, 0);
    let ev3 = key_ev(ev3_ts, KEY_C, 1);

    let config = dummy_config_no_arc(debounce_time(), near_miss_threshold);

    stats.record_event_info_with_config(&passed_event_info(ev1, ev1_ts, None), &config);
    stats.record_event_info_with_config(&passed_event_info(ev2, ev2_ts, None), &config);
    stats.record_event_info_with_config(&passed_event_info(ev3, ev3_ts, Some(ev1_ts)), &config);

    assert_eq!(stats.key_events_processed, 3);
    assert_eq!(stats.key_events_passed, 3);
    assert_eq!(stats.key_events_dropped, 0);

    let key_c_stats = &stats.per_key_stats[KEY_C as usize];
    assert_eq!(key_c_stats.press.total_processed, 2);
    assert_eq!(key_c_stats.press.passed_count, 2);
    assert_eq!(key_c_stats.press.dropped_count, 0);
    assert_eq!(key_c_stats.release.total_processed, 1);
    assert_eq!(key_c_stats.release.passed_count, 1);
    assert_eq!(key_c_stats.release.dropped_count, 0);
    assert_eq!(key_c_stats.repeat.total_processed, 0);
    assert_eq!(key_c_stats.repeat.passed_count, 0);
    assert_eq!(key_c_stats.repeat.dropped_count, 0);

    let near_miss_idx = KEY_C as usize * 3 + 1;
    let near_misses_stats = &stats.per_key_near_miss_stats[near_miss_idx];
    assert_eq!(near_misses_stats.timings_us.len(), 0, "Expected 0 near misses");
    assert_eq!(near_misses_stats.histogram.count, 0, "Expected 0 near miss histogram counts");
}

#[test]
fn stats_only_dropped() {
    let mut stats = StatsCollector::with_capacity();
    let ev1_ts = 0;
    let diff2 = 100;
    let ev2_ts = ev1_ts + diff2;
    let diff3 = 200;
    let ev3_ts = ev1_ts + diff3;

    let ev1 = key_ev(ev1_ts, KEY_B, 1);
    let ev2 = key_ev(ev2_ts, KEY_B, 1);
    let ev3 = key_ev(ev3_ts, KEY_B, 1);

    let config = dummy_config_no_arc(debounce_time(), Duration::from_millis(100));

    stats.record_event_info_with_config(&passed_event_info(ev1, ev1_ts, None), &config);
    stats.record_event_info_with_config(&bounced_event_info(ev2, ev2_ts, diff2, Some(ev1_ts)), &config);
    stats.record_event_info_with_config(&bounced_event_info(ev3, ev3_ts, diff3, Some(ev1_ts)), &config);

    assert_eq!(stats.key_events_processed, 3);
    assert_eq!(stats.key_events_passed, 1);
    assert_eq!(stats.key_events_dropped, 2);

    let key_b_stats = &stats.per_key_stats[KEY_B as usize];
    assert_eq!(key_b_stats.press.total_processed, 3);
    assert_eq!(key_b_stats.press.passed_count, 1);
    assert_eq!(key_b_stats.press.dropped_count, 2);
    assert_eq!(key_b_stats.release.total_processed, 0);
    assert_eq!(key_b_stats.release.passed_count, 0);
    assert_eq!(key_b_stats.release.dropped_count, 0);
    assert_eq!(key_b_stats.repeat.total_processed, 0);
    assert_eq!(key_b_stats.repeat.passed_count, 0);
    assert_eq!(key_b_stats.repeat.dropped_count, 0);

    assert_eq!(key_b_stats.press.timings_us, vec![diff2, diff3]);
    assert_eq!(key_b_stats.press.bounce_histogram.count, 2);
    assert_eq!(key_b_stats.press.bounce_histogram.buckets[0], 2);
}

#[test]
fn stats_drop_rate_edge_cases() {
    let mut stats = StatsCollector::with_capacity();
    let config = dummy_config_no_arc(debounce_time(), Duration::from_millis(100));
    let debounce_us = debounce_time().as_micros() as u64;

    let ev_a1 = key_ev(0, KEY_A, 1);
    stats.record_event_info_with_config(&passed_event_info(ev_a1, 0, None), &config);

    let ev_b1 = key_ev(10000, KEY_B, 1);
    let ev_b2 = key_ev(10000 + debounce_us / 2, KEY_B, 1);
    stats.record_event_info_with_config(&passed_event_info(ev_b1, 10000, None), &config);
    stats.record_event_info_with_config(&bounced_event_info(ev_b2, 10000 + debounce_us / 2, debounce_us / 2, Some(10000)), &config);

    // Key C Press: 0 passed, 1 dropped, simulated directly.
    let key_c_stats = &mut stats.per_key_stats[KEY_C as usize].press;
    key_c_stats.total_processed = 1;
    key_c_stats.dropped_count = 1;

    let report = stats.report(&config, "Cumulative", None);

    let key_a = report.per_key_stats.iter().find(|k| k.key_code == KEY_A).expect("KEY_A not found");
    assert_eq!(key_a.key_name, "KEY_A");
    assert_eq!(kv_line("Press", 1, &key_a.press), "Press   (1): Processed: 1, Passed: 1, Dropped: 0 (0.00%)");
    assert!((rate(key_a.press.dropped_count, key_a.press.total_processed) - 0.0).abs() < f64::EPSILON);

    let key_b = report.per_key_stats.iter().find(|k| k.key_code == KEY_B).expect("KEY_B not found");
    assert_eq!(kv_line("Press", 1, &key_b.press), "Press   (1): Processed: 2, Passed: 1, Dropped: 1 (50.00%)");
    assert!((rate(key_b.press.dropped_count, key_b.press.total_processed) - 50.0).abs() < f64::EPSILON);

    let key_c = report.per_key_stats.iter().find(|k| k.key_code == KEY_C).expect("KEY_C not found");
    assert_eq!(key_c.key_name, "KEY_C");
    assert_eq!(kv_line("Press", 1, &key_c.press), "Press   (1): Processed: 1, Passed: 0, Dropped: 1 (100.00%)");
    assert!((rate(key_c.press.dropped_count, key_c.press.total_processed) - 100.0).abs() < f64::EPSILON);

    let key_d_present = report.per_key_stats.iter().any(|k| k.key_code == KEY_D);
    assert!(!key_d_present, "KEY_D should not be in the report because it had no activity");
}

#[test]
fn durations_render_as_humantime_does() {
    assert_eq!(format_duration(Duration::from_millis(25)), "25ms");
    assert_eq!(format_duration(Duration::from_secs(900)), "15m");
    assert_eq!(format_duration(Duration::zero()), "0s");
    assert_eq!(format_duration(Duration::new(9420, 0)), "2h 37m");
}

#[test]
fn bounce_samples_keep_only_the_most_recent() {
    let mut kv = KeyValueStats::default();
    let n = MAX_BOUNCE_TIMING_SAMPLES as u64;
    for v in 0..n + 5 {
        kv.push_timing(v);
    }
    assert_eq!(kv.timings_us.len(), MAX_BOUNCE_TIMING_SAMPLES);
    assert_eq!(kv.timings_us[0], 5);
    assert_eq!(*kv.timings_us.last().unwrap(), n + 4);
    assert_eq!(kv.bounce_histogram.count, n + 5);

    let mut nm = NearMissStats::default();
    let m = MAX_NEAR_MISS_TIMING_SAMPLES as u64;
    for v in 0..m + 1 {
        nm.push_timing(v * 10);
    }
    assert_eq!(nm.timings_us.len(), MAX_NEAR_MISS_TIMING_SAMPLES);
    assert_eq!(nm.timings_us[0], 10);
    assert_eq!(nm.histogram.count, m + 1);
}

#[test]
fn human_report_lists_keys_with_drops_only() {
    let mut stats = StatsCollector::with_capacity();
    let config = dummy_config_no_arc(debounce_time(), Duration::from_millis(100));
    stats.per_key_stats[KEY_D as usize].release.dropped_count = 2;
    let report = stats.report(&config, "Cumulative", None);
    assert!(report.per_key_stats.is_empty());
    assert_eq!(report.human_key_stats.len(), 1);
    let d = &report.human_key_stats[0];
    assert_eq!((d.key_code, d.key_name), (KEY_D, "KEY_D"));
    assert_eq!((d.total_processed, d.total_dropped), (0, 2));
}
