//! The command-line options of the filter, as plain values.

use vstd::prelude::*;
use crate::duration::Duration;

verus! {

/// The options that the command line sets: debounce and near-miss windows,
/// periodic reporting, logging switches, the debugging ring buffer and the
/// per-key allow and ignore lists.
#[derive(Clone, Debug)]
pub struct Args {
    /// Duplicate key events (same code and value) closer than this are discarded.
    pub debounce_time: Duration,
    /// Passed key events within this time of the previous passed one count as near misses.
    pub near_miss_threshold_time: Duration,
    /// Period of statistics dumps; zero disables them.
    pub log_interval: Duration,
    /// Log every incoming event.
    pub log_all_events: bool,
    /// Log only dropped key events.
    pub log_bounces: bool,
    /// List input devices and exit.
    pub list_devices: bool,
    /// Report statistics as JSON.
    pub stats_json: bool,
    /// Verbose internal logging.
    pub verbose: bool,
    /// Number of recently passed events kept for debugging (0 disables).
    pub ring_buffer_size: usize,
    /// When non-empty, only these key codes are debounced.
    pub debounce_keys: Vec<u16>,
    /// Key codes never debounced unless also listed in `debounce_keys`.
    pub ignore_keys: Vec<u16>,
    /// OTLP endpoint for exporting traces and metrics.
    pub otel_endpoint: Option<String>,
}

} // verus!
