//! What the event loop tells the logger about each event, and the logger's
//! bookkeeping: statistics accumulation and the choice of what to log.

use vstd::prelude::*;
use crate::config::Config;
use crate::duration::Duration;
use crate::event::{input_event, is_key_event, spec_is_key_event, EV_MSC, EV_SYN};
use crate::filter::keynames::{
    get_event_type_name, get_key_name, get_value_name, spec_display_key_name, spec_event_type_name,
    spec_value_name,
};
use crate::filter::stats::{lemma_consistent_can_record, spec_event_recorded, StatsCollector};

verus! {

/// Detailed information about a single processed event.
#[derive(Copy, Clone, Debug, PartialEq, Eq)]
pub struct EventInfo {
    /// The raw input event.
    pub event: input_event,
    /// Timestamp of the event in microseconds.
    pub event_us: u64,
    /// Result of the bounce check (`true` if bounced/dropped).
    pub is_bounce: bool,
    /// Time difference (µs) between this event and the previous passed event
    /// of the same key and value, only when `is_bounce` is true.
    pub diff_us: Option<u64>,
    /// Timestamp (µs) of the previous event of the same key and value that
    /// passed the filter, when there was one and the event was debounced.
    pub last_passed_us: Option<u64>,
}

/// A message from the event loop to the logger.
#[derive(Copy, Clone, Debug, PartialEq, Eq)]
pub enum LogMessage {
    /// Information about a single processed event.
    Event(EventInfo),
}

/// What the logger writes about one event.
#[derive(Copy, Clone, Debug, PartialEq, Eq)]
pub enum LogAction {
    /// Nothing.
    Nothing,
    /// A `[PASS]`/`[DROP]` line, as `--log-all-events` asks.
    LogEvent,
    /// A `[DROP]` line for a dropped key event, as `--log-bounces` asks.
    LogBounce,
}

/// What the logger writes about `data` under `config`: with all-event logging,
/// every event but synchronisation and miscellaneous ones; otherwise, with
/// bounce logging, dropped key events; else nothing.
pub open spec fn spec_log_action(config: Config, data: EventInfo) -> LogAction {
    if config@.log_all_events {
        if data.event.type_ == EV_SYN || data.event.type_ == EV_MSC {
            LogAction::Nothing
        } else {
            LogAction::LogEvent
        }
    } else if config@.log_bounces && data.is_bounce && spec_is_key_event(data.event) {
        LogAction::LogBounce
    } else {
        LogAction::Nothing
    }
}

/// The bounce part of an event's log line.
#[derive(Copy, Clone, Debug, PartialEq, Eq)]
pub enum BounceNote {
    /// Not a dropped key event.
    NotBounce,
    /// A dropped key event whose gap is unknown.
    Unknown,
    /// A dropped key event, with its gap in microseconds.
    Time(u64),
}

/// The figures of one event's log line.
#[derive(Copy, Clone, Debug, PartialEq, Eq)]
pub struct EventLogDetails {
    /// "DROP" or "PASS".
    pub status: &'static str,
    /// Microseconds since the first event the logger saw (0 when earlier).
    pub relative_us: u64,
    /// Name of the event type.
    pub event_type_name: &'static str,
    /// Whether the event is a key event.
    pub is_key: bool,
    /// Key name, empty for other events.
    pub key_name: &'static str,
    /// Key value name, empty for other events.
    pub value_name: &'static str,
    /// The bounce part of the line.
    pub bounce: BounceNote,
    /// For a passed key event, the gap to the previous passed event of its key
    /// state when it lies within [debounce window, near-miss window].
    pub near_miss_us: Option<u64>,
    /// For a passed key event, the gap to the previous passed event of its key
    /// state (taken from 0 when there is none), when not negative.
    pub near_miss_diff_us: Option<u64>,
}

/// Microseconds from the first timestamp seen (`data`'s own when none) to `data`, 0 when earlier.
pub open spec fn spec_relative_us(data: EventInfo, first: Option<u64>) -> u64 {
    let start = match first {
        Some(f) => f,
        None => data.event_us,
    };
    if data.event_us >= start {
        (data.event_us - start) as u64
    } else {
        0
    }
}

/// The bounce part of the log line about `data`.
pub open spec fn spec_bounce_note(data: EventInfo) -> BounceNote {
    if data.is_bounce && spec_is_key_event(data.event) {
        match data.diff_us {
            Some(d) => BounceNote::Time(d),
            None => BounceNote::Unknown,
        }
    } else {
        BounceNote::NotBounce
    }
}

/// For a passed key event, its gap to the previous passed event of its key
/// state when that gap is at least the debounce window and at most the
/// near-miss window of `config`.
pub open spec fn spec_logged_near_miss(data: EventInfo, config: Config) -> Option<u64> {
    if !data.is_bounce && spec_is_key_event(data.event) {
        match data.last_passed_us {
            Some(last) => if data.event_us >= last && ((data.event_us - last) as nat) * 1000 >= config@.debounce_time@
                && ((data.event_us - last) as nat) * 1000 <= config@.near_miss_threshold@ {
                Some((data.event_us - last) as u64)
            } else {
                None
            },
            None => None,
        }
    } else {
        None
    }
}

/// For a passed key event, its gap to the previous passed event of its key
/// state (counted from 0 when there is none), when not negative.
pub open spec fn spec_near_miss_diff_field(data: EventInfo) -> Option<u64> {
    if !data.is_bounce && spec_is_key_event(data.event) {
        let last = match data.last_passed_us {
            Some(l) => l,
            None => 0,
        };
        if data.event_us >= last {
            Some((data.event_us - last) as u64)
        } else {
            None
        }
    } else {
        None
    }
}

/// The logger's bookkeeping: cumulative statistics, statistics since the
/// last periodic dump, and the timestamp of the first event seen.
pub struct LoggerState {
    pub cumulative_stats: StatsCollector,
    pub interval_stats: StatsCollector,
    pub first_event_us: Option<u64>,
}

impl LoggerState {
    /// Both statistics are consistent.
    pub open spec fn consistent(self) -> bool {
        &&& self.cumulative_stats.consistent()
        &&& self.interval_stats.consistent()
    }

    /// Empty bookkeeping.
    pub fn new() -> (s: Self)
        ensures
            s.consistent(),
            s.cumulative_stats.is_empty(),
            s.interval_stats.is_empty(),
            s.first_event_us is None,
    {
        LoggerState {
            cumulative_stats: StatsCollector::with_capacity(),
            interval_stats: StatsCollector::with_capacity(),
            first_event_us: None,
        }
    }

    /// Records `data` in both statistics, remembers the first timestamp seen,
    /// and says what to log about the event.
    pub fn process_message(&mut self, msg: LogMessage, config: &Config) -> (action: LogAction)
        requires
            old(self).consistent(),
            match msg {
                LogMessage::Event(data) => spec_is_key_event(data.event) ==> {
                    &&& old(self).cumulative_stats.key_events_processed < u64::MAX
                    &&& old(self).interval_stats.key_events_processed < u64::MAX
                },
            },
        ensures
            final(self).consistent(),
            match msg {
                LogMessage::Event(data) => {
                    let threshold = Config::micros_saturated(config@.near_miss_threshold);
                    &&& spec_event_recorded(old(self).cumulative_stats, final(self).cumulative_stats, data, threshold)
                    &&& spec_event_recorded(old(self).interval_stats, final(self).interval_stats, data, threshold)
                    &&& final(self).first_event_us == (match old(self).first_event_us {
                        Some(f) => Some(f),
                        None => Some(data.event_us),
                    })
                    &&& action == spec_log_action(*config, data)
                },
            },
    {
        match msg {
            LogMessage::Event(data) => {
                proof {
                    let threshold = Config::micros_saturated(config@.near_miss_threshold);
                    lemma_consistent_can_record(self.cumulative_stats, data, threshold);
                    lemma_consistent_can_record(self.interval_stats, data, threshold);
                }
                self.cumulative_stats.record_event_info_with_config(&data, config);
                self.interval_stats.record_event_info_with_config(&data, config);
                if self.first_event_us.is_none() {
                    self.first_event_us = Some(data.event_us);
                }
                if config.logs_all_events() {
                    if data.event.type_ == EV_SYN || data.event.type_ == EV_MSC {
                        return LogAction::Nothing;
                    }
                    LogAction::LogEvent
                } else if config.logs_bounces() && data.is_bounce && is_key_event(&data.event) {
                    LogAction::LogBounce
                } else {
                    LogAction::Nothing
                }
            },
        }
    }

    /// Whether a periodic statistics dump is due after `elapsed` since the
    /// last one: dumps are enabled (non-zero interval) and the interval passed.
    pub fn periodic_dump_due(config: &Config, elapsed: &Duration) -> (due: bool)
        ensures
            due == (config@.log_interval@ > 0 && elapsed@ >= config@.log_interval@),
    {
        let interval = config.log_interval();
        !interval.is_zero() && interval.le(elapsed)
    }

    /// Hands out the statistics since the last dump and starts them afresh.
    pub fn take_interval_stats(&mut self) -> (taken: StatsCollector)
        requires
            old(self).consistent(),
        ensures
            final(self).consistent(),
            taken == old(self).interval_stats,
            final(self).interval_stats.is_empty(),
            final(self).cumulative_stats == old(self).cumulative_stats,
            final(self).first_event_us == old(self).first_event_us,
    {
        let mut taken = StatsCollector::with_capacity();
        std::mem::swap(&mut self.interval_stats, &mut taken);
        taken
    }

    /// The figures of the log line about `data`.
    pub fn event_log_details(&self, data: &EventInfo, config: &Config) -> (d: EventLogDetails)
        ensures
            d.status@ == (if data.is_bounce { "DROP"@ } else { "PASS"@ }),
            d.relative_us == spec_relative_us(*data, self.first_event_us),
            d.event_type_name@ == spec_event_type_name(data.event.type_),
            d.is_key == spec_is_key_event(data.event),
            d.key_name@ == (if d.is_key { spec_display_key_name(data.event.code) } else { ""@ }),
            d.value_name@ == (if d.is_key { spec_value_name(data.event.value) } else { ""@ }),
            d.bounce == spec_bounce_note(*data),
            d.near_miss_us == spec_logged_near_miss(*data, *config),
            d.near_miss_diff_us == spec_near_miss_diff_field(*data),
    {
        let key = is_key_event(&data.event);
        let start = match self.first_event_us {
            Some(f) => f,
            None => data.event_us,
        };
        let relative_us = if data.event_us >= start { data.event_us - start } else { 0 };
        let bounce = if data.is_bounce && key {
            match data.diff_us {
                Some(d) => BounceNote::Time(d),
                None => BounceNote::Unknown,
            }
        } else {
            BounceNote::NotBounce
        };
        let near_miss_us = if !data.is_bounce && key {
            match data.last_passed_us {
                Some(last) => if data.event_us >= last {
                    let gap = Duration::from_micros(data.event_us - last);
                    if config.debounce_time().le(&gap) && gap.le(&config.near_miss_threshold()) {
                        Some(data.event_us - last)
                    } else {
                        None
                    }
                } else {
                    None
                },
                None => None,
            }
        } else {
            None
        };
        let near_miss_diff_us = if !data.is_bounce && key {
            let last = match data.last_passed_us {
                Some(l) => l,
                None => 0,
            };
            if data.event_us >= last {
                Some(data.event_us - last)
            } else {
                None
            }
        } else {
            None
        };
        EventLogDetails {
            status: if data.is_bounce { "DROP" } else { "PASS" },
            relative_us,
            event_type_name: get_event_type_name(data.event.type_),
            is_key: key,
            key_name: if key { get_key_name(data.event.code) } else { "" },
            value_name: if key { get_value_name(data.event.value) } else { "" },
            bounce,
            near_miss_us,
            near_miss_diff_us,
        }
    }
}

} // verus!
