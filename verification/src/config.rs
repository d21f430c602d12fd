//! Runtime configuration of the filter and its reporting.

use vstd::prelude::*;
use crate::cli::Args;
use crate::duration::Duration;

verus! {

/// `s` is in strictly increasing order (so it holds no element twice).
pub open spec fn strictly_sorted(s: Seq<u16>) -> bool {
    forall|i: int, j: int| 0 <= i < j < s.len() ==> s[i] < s[j]
}

/// Whether a key with code `key_code` is debounced, given the allowlist
/// `debounce_keys` and the ignore list `ignored_keys`: a non-empty allowlist
/// decides alone; otherwise every key not ignored is debounced.
pub open spec fn spec_should_debounce(debounce_keys: Seq<u16>, ignored_keys: Seq<u16>, key_code: u16) -> bool {
    if debounce_keys.len() > 0 {
        debounce_keys.contains(key_code)
    } else {
        !ignored_keys.contains(key_code)
    }
}

/// Adding the element at position `i` to a collection of the elements of
/// `keys` before position `i` gives a collection of those up to `i` inclusive.
proof fn lemma_prefix_elements_extend(keys: Seq<u16>, i: int, before: Seq<u16>, after: Seq<u16>)
    requires
        0 <= i < keys.len(),
        forall|k: u16| before.contains(k) <==> (exists|j: int| 0 <= j < i && keys[j] == k),
        forall|k: u16| after.contains(k) <==> (before.contains(k) || k == keys[i]),
    ensures
        forall|k: u16| after.contains(k) <==> (exists|j: int| 0 <= j < i + 1 && keys[j] == k),
{
    assert forall|k: u16| after.contains(k) <==> (exists|j: int| 0 <= j < i + 1 && keys[j] == k) by {
        if exists|j: int| 0 <= j < i + 1 && keys[j] == k {
            let j = choose|j: int| 0 <= j < i + 1 && keys[j] == k;
            if j < i {
                assert(exists|j2: int| 0 <= j2 < i && keys[j2] == k);
                assert(before.contains(k));
            }
        }
        if after.contains(k) {
            if k == keys[i] {
                assert(0 <= i < i + 1 && keys[i] == k);
            } else {
                assert(before.contains(k));
                let j = choose|j: int| 0 <= j < i && keys[j] == k;
                assert(0 <= j < i + 1 && keys[j] == k);
            }
        }
    }
}

/// The elements of `keys` in strictly increasing order, each once.
#[verifier::loop_isolation(false)]
pub fn sorted_unique(keys: Vec<u16>) -> (out: Vec<u16>)
    ensures
        strictly_sorted(out@),
        forall|k: u16| out@.contains(k) <==> keys@.contains(k),
{
    let mut out: Vec<u16> = Vec::new();
    let mut i: usize = 0;
    while i < keys.len()
        invariant
            0 <= i <= keys.len(),
            strictly_sorted(out@),
            forall|k: u16| out@.contains(k) <==> (exists|j: int| 0 <= j < i && keys@[j] == k),
        decreases keys.len() - i,
    {
        let x = keys[i];
        let mut pos: usize = 0;
        while pos < out.len() && out[pos] < x
            invariant
                0 <= pos <= out.len(),
                forall|j: int| 0 <= j < pos ==> out@[j] < x,
            decreases out.len() - pos,
        {
            pos = pos + 1;
        }
        let ghost before = out@;
        if pos < out.len() && out[pos] == x {
            assert(before[pos as int] == x);
            assert(forall|k: u16| out@.contains(k) <==> (before.contains(k) || k == x));
        } else {
            out.insert(pos, x);
            assert forall|a: int, b: int| 0 <= a < b < out@.len() implies out@[a] < out@[b] by {
                if b < pos {
                } else if b == pos {
                } else if a < pos {
                    assert(before[b - 1] >= x || b - 1 >= pos);
                } else if a == pos {
                    assert(before[b - 1] > x);
                } else {
                }
            }
            assert forall|k: u16| out@.contains(k) <==> (before.contains(k) || k == x) by {
                if out@.contains(k) {
                    let t = choose|t: int| 0 <= t < out@.len() && out@[t] == k;
                    if t < pos {
                        assert(before[t] == k);
                    } else if t > pos {
                        assert(before[t - 1] == k);
                    }
                }
                if before.contains(k) {
                    let t = choose|t: int| 0 <= t < before.len() && before[t] == k;
                    if t < pos {
                        assert(out@[t] == k);
                    } else {
                        assert(out@[t + 1] == k);
                    }
                }
                if k == x {
                    assert(out@[pos as int] == x);
                }
            }
        }
        assert(forall|k: u16| out@.contains(k) <==> (before.contains(k) || k == x));
        proof {
            lemma_prefix_elements_extend(keys@, i as int, before, out@);
        }
        i = i + 1;
    }
    assert forall|k: u16| out@.contains(k) <==> keys@.contains(k) by {
        if keys@.contains(k) {
            let j = choose|j: int| 0 <= j < keys@.len() && keys@[j] == k;
            assert(exists|j2: int| 0 <= j2 < i && keys@[j2] == k);
        }
    }
    out
}

/// Whether `key` occurs in the strictly increasing `keys`, found by bisection.
pub fn sorted_contains(keys: &[u16], key: u16) -> (found: bool)
    requires
        strictly_sorted(keys@),
    ensures
        found == keys@.contains(key),
{
    let mut lo: usize = 0;
    let mut hi: usize = keys.len();
    while lo < hi
        invariant
            0 <= lo <= hi <= keys@.len(),
            strictly_sorted(keys@),
            forall|j: int| 0 <= j < lo ==> keys@[j] < key,
            forall|j: int| hi <= j < keys@.len() ==> keys@[j] > key,
        decreases hi - lo,
    {
        let mid = lo + (hi - lo) / 2;
        let v = keys[mid];
        if v == key {
            return true;
        } else if v < key {
            lo = mid + 1;
        } else {
            hi = mid;
        }
    }
    assert(!keys@.contains(key));
    false
}

/// Runtime configuration: debounce and near-miss windows, reporting and
/// logging switches, and the per-key allow and ignore lists, each kept
/// sorted and free of duplicates.
#[derive(Clone, Debug)]
pub struct Config {
    debounce_time: Duration,
    near_miss_threshold: Duration,
    log_interval: Duration,
    pub log_all_events: bool,
    pub log_bounces: bool,
    pub stats_json: bool,
    pub verbose: bool,
    /// Filter directive for internal logging.
    pub log_filter: String,
    /// OTLP endpoint.
    pub otel_endpoint: Option<String>,
    /// Ring buffer size for debugging.
    pub ring_buffer_size: usize,
    debounce_keys: Vec<u16>,
    ignored_keys: Vec<u16>,
}

/// The abstract contents of a `Config`, with strings as character sequences.
pub struct ConfigView {
    pub debounce_time: Duration,
    pub near_miss_threshold: Duration,
    pub log_interval: Duration,
    pub log_all_events: bool,
    pub log_bounces: bool,
    pub stats_json: bool,
    pub verbose: bool,
    pub log_filter: Seq<char>,
    pub otel_endpoint: Option<Seq<char>>,
    pub ring_buffer_size: usize,
    pub debounce_keys: Seq<u16>,
    pub ignored_keys: Seq<u16>,
}

/// The characters of an optional string.
pub open spec fn opt_string_view(s: Option<String>) -> Option<Seq<char>> {
    match s {
        Some(t) => Some(t@),
        None => None,
    }
}

impl View for Config {
    type V = ConfigView;

    closed spec fn view(&self) -> ConfigView {
        ConfigView {
            debounce_time: self.debounce_time,
            near_miss_threshold: self.near_miss_threshold,
            log_interval: self.log_interval,
            log_all_events: self.log_all_events,
            log_bounces: self.log_bounces,
            stats_json: self.stats_json,
            verbose: self.verbose,
            log_filter: self.log_filter@,
            otel_endpoint: opt_string_view(self.otel_endpoint),
            ring_buffer_size: self.ring_buffer_size,
            debounce_keys: self.debounce_keys@,
            ignored_keys: self.ignored_keys@,
        }
    }
}

impl Config {
    /// Both key lists are strictly increasing.
    pub open spec fn wf(self) -> bool {
        &&& strictly_sorted(self@.debounce_keys)
        &&& strictly_sorted(self@.ignored_keys)
    }

    /// Whether the key with code `key_code` is debounced under this configuration.
    pub open spec fn debounces(self, key_code: u16) -> bool {
        spec_should_debounce(self@.debounce_keys, self@.ignored_keys, key_code)
    }

    /// Whole microseconds of `d`, or `u64::MAX` when they do not fit.
    pub open spec fn micros_saturated(d: Duration) -> u64 {
        if d@ / 1000 <= u64::MAX {
            (d@ / 1000) as u64
        } else {
            u64::MAX
        }
    }

    /// Creates a configuration; the key lists are sorted and deduplicated.
    #[allow(clippy::too_many_arguments)]
    pub fn new(
        debounce_time: Duration,
        near_miss_threshold: Duration,
        log_interval: Duration,
        log_all_events: bool,
        log_bounces: bool,
        stats_json: bool,
        verbose: bool,
        log_filter: String,
        otel_endpoint: Option<String>,
        ring_buffer_size: usize,
        debounce_keys: Vec<u16>,
        ignored_keys: Vec<u16>,
    ) -> (cfg: Self)
        ensures
            cfg.wf(),
            cfg@.debounce_time == debounce_time,
            cfg@.near_miss_threshold == near_miss_threshold,
            cfg@.log_interval == log_interval,
            cfg@.log_all_events == log_all_events,
            cfg@.log_bounces == log_bounces,
            cfg@.stats_json == stats_json,
            cfg@.verbose == verbose,
            cfg@.log_filter == log_filter@,
            cfg@.otel_endpoint == opt_string_view(otel_endpoint),
            cfg@.ring_buffer_size == ring_buffer_size,
            forall|k: u16| cfg@.debounce_keys.contains(k) <==> debounce_keys@.contains(k),
            forall|k: u16| cfg@.ignored_keys.contains(k) <==> ignored_keys@.contains(k),
    {
        let debounce_keys = sorted_unique(debounce_keys);
        let ignored_keys = sorted_unique(ignored_keys);
        Self {
            debounce_time,
            near_miss_threshold,
            log_interval,
            log_all_events,
            log_bounces,
            stats_json,
            verbose,
            log_filter,
            otel_endpoint,
            ring_buffer_size,
            debounce_keys,
            ignored_keys,
        }
    }

    /// The configuration that the command line `args` selects. The log filter is
    /// `env_log_filter` (the `RUST_LOG` setting) when present, otherwise
    /// `intercept_bounce=debug` in verbose mode and `intercept_bounce=info` else.
    pub fn from_args(args: &Args, env_log_filter: Option<String>) -> (cfg: Self)
        ensures
            cfg.wf(),
            cfg@.debounce_time == args.debounce_time,
            cfg@.near_miss_threshold == args.near_miss_threshold_time,
            cfg@.log_interval == args.log_interval,
            cfg@.log_all_events == args.log_all_events,
            cfg@.log_bounces == args.log_bounces,
            cfg@.stats_json == args.stats_json,
            cfg@.verbose == args.verbose,
            cfg@.log_filter == (match env_log_filter {
                Some(f) => f@,
                None => if args.verbose {
                    "intercept_bounce=debug"@
                } else {
                    "intercept_bounce=info"@
                },
            }),
            cfg@.otel_endpoint == opt_string_view(args.otel_endpoint),
            cfg@.ring_buffer_size == args.ring_buffer_size,
            forall|k: u16| cfg@.debounce_keys.contains(k) <==> args.debounce_keys@.contains(k),
            forall|k: u16| cfg@.ignored_keys.contains(k) <==> args.ignore_keys@.contains(k),
    {
        let log_filter = match env_log_filter {
            Some(f) => f,
            None => if args.verbose {
                String::from_str("intercept_bounce=debug")
            } else {
                String::from_str("intercept_bounce=info")
            },
        };
        let otel_endpoint = match &args.otel_endpoint {
            Some(e) => Some(e.clone()),
            None => None,
        };
        let mut debounce_keys: Vec<u16> = Vec::new();
        let mut i: usize = 0;
        while i < args.debounce_keys.len()
            invariant
                0 <= i <= args.debounce_keys.len(),
                debounce_keys@ == args.debounce_keys@.subrange(0, i as int),
            decreases args.debounce_keys.len() - i,
        {
            debounce_keys.push(args.debounce_keys[i]);
            i = i + 1;
        }
        let mut ignore_keys: Vec<u16> = Vec::new();
        let mut j: usize = 0;
        while j < args.ignore_keys.len()
            invariant
                0 <= j <= args.ignore_keys.len(),
                ignore_keys@ == args.ignore_keys@.subrange(0, j as int),
            decreases args.ignore_keys.len() - j,
        {
            ignore_keys.push(args.ignore_keys[j]);
            j = j + 1;
        }
        assert(debounce_keys@ == args.debounce_keys@);
        assert(ignore_keys@ == args.ignore_keys@);
        Config::new(
            args.debounce_time,
            args.near_miss_threshold_time,
            args.log_interval,
            args.log_all_events,
            args.log_bounces,
            args.stats_json,
            args.verbose,
            log_filter,
            otel_endpoint,
            args.ring_buffer_size,
            debounce_keys,
            ignore_keys,
        )
    }

    /// The debounce window.
    pub fn debounce_time(&self) -> (d: Duration)
        ensures
            d == self@.debounce_time,
    {
        self.debounce_time
    }

    /// The near-miss window.
    pub fn near_miss_threshold(&self) -> (d: Duration)
        ensures
            d == self@.near_miss_threshold,
    {
        self.near_miss_threshold
    }

    /// The period of statistics dumps.
    pub fn log_interval(&self) -> (d: Duration)
        ensures
            d == self@.log_interval,
    {
        self.log_interval
    }

    /// Whether every event is to be logged.
    pub fn logs_all_events(&self) -> (b: bool)
        ensures
            b == self@.log_all_events,
    {
        self.log_all_events
    }

    /// Whether dropped key events are to be logged.
    pub fn logs_bounces(&self) -> (b: bool)
        ensures
            b == self@.log_bounces,
    {
        self.log_bounces
    }

    /// The ignore list, sorted and without duplicates.
    pub fn ignored_keys(&self) -> (keys: &[u16])
        ensures
            keys@ == self@.ignored_keys,
    {
        self.ignored_keys.as_slice()
    }

    /// The key allowlist, sorted and without duplicates.
    pub fn debounce_keys(&self) -> (keys: &[u16])
        ensures
            keys@ == self@.debounce_keys,
    {
        self.debounce_keys.as_slice()
    }

    /// Whether events of the key `key_code` go through the debounce check:
    /// with a non-empty allowlist exactly the listed keys do; otherwise every
    /// key that is not ignored does.
    pub fn should_debounce(&self, key_code: u16) -> (b: bool)
        requires
            self.wf(),
        ensures
            b == self.debounces(key_code),
    {
        if self.debounce_keys.len() > 0 {
            return sorted_contains(self.debounce_keys.as_slice(), key_code);
        }
        !sorted_contains(self.ignored_keys.as_slice(), key_code)
    }

    /// Whether the key `key_code` is exempt from debouncing.
    pub fn is_key_ignored(&self, key_code: u16) -> (b: bool)
        requires
            self.wf(),
        ensures
            b == !self.debounces(key_code),
    {
        !self.should_debounce(key_code)
    }

    /// The debounce window in whole microseconds, `u64::MAX` when larger.
    pub fn debounce_us(&self) -> (us: u64)
        ensures
            us == Self::micros_saturated(self@.debounce_time),
    {
        saturate_micros(self.debounce_time.as_micros())
    }

    /// The near-miss window in whole microseconds, `u64::MAX` when larger.
    pub fn near_miss_threshold_us(&self) -> (us: u64)
        ensures
            us == Self::micros_saturated(self@.near_miss_threshold),
    {
        saturate_micros(self.near_miss_threshold.as_micros())
    }

    /// The period of statistics dumps in whole microseconds, `u64::MAX` when larger.
    pub fn log_interval_us(&self) -> (us: u64)
        ensures
            us == Self::micros_saturated(self@.log_interval),
    {
        saturate_micros(self.log_interval.as_micros())
    }
}

/// `m` as a `u64`, or `u64::MAX` when it does not fit.
fn saturate_micros(m: u128) -> (us: u64)
    ensures
        us == (if m <= u64::MAX { m as u64 } else { u64::MAX }),
{
    if m <= u64::MAX as u128 {
        m as u64
    } else {
        u64::MAX
    }
}

} // verus!
