//! Bounce filtering of key events: the state that the decision needs and
//! the decision itself.

pub mod keynames;
pub mod report;
pub mod stats;

use vstd::prelude::*;
use crate::config::Config;
use crate::duration::Duration;
use crate::event::{event_microseconds, input_event, is_key_event, spec_event_us, spec_is_key_event};
use crate::logger::EventInfo;

verus! {

/// Number of key codes tracked (0 to KEY_MAX inclusive).
pub const FILTER_MAP_SIZE: usize = 768;
/// Number of key states (0 = release, 1 = press, 2 = repeat).
pub const NUM_KEY_STATES: usize = 3;
/// Number of (key code, key state) slots.
pub const FILTER_SLOTS: usize = 2304;

/// The slot of `event` in the debounce table: key press and release events
/// of a tracked key code have one; every other event passes unchecked.
pub open spec fn spec_debounce_slot(event: input_event) -> Option<int> {
    if spec_is_key_event(event) && 0 <= event.value < 2 && (event.code as int) < FILTER_MAP_SIZE {
        Some(event.code as int * NUM_KEY_STATES as int + event.value as int)
    } else {
        None
    }
}

/// Whether an event at `event_us` is a bounce of a passed event at `last_us`
/// (`u64::MAX` meaning none) under the window `debounce`: it is when the window
/// is not empty, time did not go backwards and the gap is shorter than the window.
pub open spec fn spec_is_bounce(last_us: u64, event_us: u64, debounce: Duration) -> bool {
    &&& last_us != u64::MAX
    &&& event_us >= last_us
    &&& debounce@ > 0
    &&& ((event_us - last_us) as nat) * 1000 < debounce@
}

/// The abstract state of a `BounceFilter`.
pub struct FilterView {
    /// Per slot, the timestamp of the last passed event, `u64::MAX` when none passed.
    pub last_event_us: Seq<u64>,
    /// The ring buffer of recently passed events.
    pub recent: Seq<Option<input_event>>,
    /// Where the next passed event goes in the ring buffer.
    pub recent_idx: nat,
    /// Timestamp of the first event checked.
    pub first_us: Option<u64>,
    /// Timestamp of the last event checked.
    pub last_us: Option<u64>,
}

/// What `check_event` reports for `event` against the state `f`.
pub open spec fn spec_check_outcome(f: FilterView, event: input_event, debounce: Duration, skip_debounce: bool) -> EventInfo {
    let us = spec_event_us(event);
    let pass_unchecked = EventInfo { event, event_us: us, is_bounce: false, diff_us: None, last_passed_us: None };
    if skip_debounce {
        pass_unchecked
    } else {
        match spec_debounce_slot(event) {
            None => pass_unchecked,
            Some(slot) => {
                let last = f.last_event_us[slot];
                if last == u64::MAX {
                    pass_unchecked
                } else if spec_is_bounce(last, us, debounce) {
                    EventInfo { event, event_us: us, is_bounce: true, diff_us: Some((us - last) as u64), last_passed_us: Some(last) }
                } else {
                    EventInfo { event, event_us: us, is_bounce: false, diff_us: None, last_passed_us: Some(last) }
                }
            },
        }
    }
}

/// The state after `check_event` of `event` from the state `f`, with a ring buffer of `ring_size` slots.
pub open spec fn spec_check_next(f: FilterView, event: input_event, debounce: Duration, skip_debounce: bool, ring_size: nat) -> FilterView {
    let us = spec_event_us(event);
    let outcome = spec_check_outcome(f, event, debounce, skip_debounce);
    let table = if skip_debounce || outcome.is_bounce {
        f.last_event_us
    } else {
        match spec_debounce_slot(event) {
            Some(slot) => f.last_event_us.update(slot, us),
            None => f.last_event_us,
        }
    };
    let (recent, recent_idx) = if outcome.is_bounce || ring_size == 0 {
        (f.recent, f.recent_idx)
    } else {
        (f.recent.update(f.recent_idx as int, Some(event)), (f.recent_idx + 1) % ring_size)
    };
    FilterView {
        last_event_us: table,
        recent,
        recent_idx,
        first_us: match f.first_us {
            Some(t) => Some(t),
            None => Some(us),
        },
        last_us: Some(us),
    }
}

/// The time between the first and the last event checked in `f`, 0 when
/// time went backwards, or `None` when no event was checked.
pub open spec fn spec_runtime_us(f: FilterView) -> Option<u64> {
    match (f.first_us, f.last_us) {
        (Some(first), Some(last)) => Some(if last >= first { (last - first) as u64 } else { 0u64 }),
        _ => None,
    }
}

/// The state needed for bounce decisions: the timestamp of the last passed
/// event per key code and key value, a ring buffer of the most recently passed
/// events for debugging, and the first and last event timestamps seen.
pub struct BounceFilter {
    last_event_us: Vec<u64>,
    recent_passed_events: Vec<Option<input_event>>,
    recent_event_idx: usize,
    ring_buffer_size: usize,
    overall_first_event_us: Option<u64>,
    overall_last_event_us: Option<u64>,
}

impl View for BounceFilter {
    type V = FilterView;

    closed spec fn view(&self) -> FilterView {
        FilterView {
            last_event_us: self.last_event_us@,
            recent: self.recent_passed_events@,
            recent_idx: self.recent_event_idx as nat,
            first_us: self.overall_first_event_us,
            last_us: self.overall_last_event_us,
        }
    }
}

impl BounceFilter {
    /// The table has a slot per key code and key value, and the ring buffer
    /// position lies inside the ring buffer.
    #[verifier::type_invariant]
    closed spec fn wf(self) -> bool {
        &&& self.last_event_us@.len() == FILTER_SLOTS
        &&& self.recent_passed_events@.len() == self.ring_buffer_size
        &&& (self.ring_buffer_size > 0 ==> self.recent_event_idx < self.ring_buffer_size)
        &&& (self.ring_buffer_size == 0 ==> self.recent_event_idx == 0)
    }

    /// Number of slots in the ring buffer of recently passed events.
    pub closed spec fn spec_ring_buffer_size(self) -> nat {
        self.ring_buffer_size as nat
    }

    /// Creates a filter with no passed events and a ring buffer of
    /// `ring_buffer_size` empty slots (none allocated when it is 0).
    pub fn new(ring_buffer_size: usize) -> (f: Self)
        ensures
            f@.last_event_us == Seq::new(FILTER_SLOTS as nat, |i: int| u64::MAX),
            f@.recent == Seq::new(ring_buffer_size as nat, |i: int| None::<input_event>),
            f@.recent_idx == 0,
            f@.first_us is None,
            f@.last_us is None,
            f.spec_ring_buffer_size() == ring_buffer_size,
    {
        let mut table: Vec<u64> = Vec::new();
        let mut i: usize = 0;
        while i < FILTER_SLOTS
            invariant
                0 <= i <= FILTER_SLOTS,
                table@ == Seq::new(i as nat, |j: int| u64::MAX),
            decreases FILTER_SLOTS - i,
        {
            table.push(u64::MAX);
            i = i + 1;
        }
        let mut recent: Vec<Option<input_event>> = Vec::new();
        let mut k: usize = 0;
        while k < ring_buffer_size
            invariant
                0 <= k <= ring_buffer_size,
                recent@ == Seq::new(k as nat, |j: int| None::<input_event>),
            decreases ring_buffer_size - k,
        {
            recent.push(None);
            k = k + 1;
        }
        BounceFilter {
            last_event_us: table,
            recent_passed_events: recent,
            recent_event_idx: 0,
            ring_buffer_size,
            overall_first_event_us: None,
            overall_last_event_us: None,
        }
    }

    /// A filter without a ring buffer.
    pub fn default() -> (f: Self)
        ensures
            f@.last_event_us == Seq::new(FILTER_SLOTS as nat, |i: int| u64::MAX),
            f@.recent == Seq::<Option<input_event>>::empty(),
            f@.recent_idx == 0,
            f@.first_us is None,
            f@.last_us is None,
            f.spec_ring_buffer_size() == 0,
    {
        let f = Self::new(0);
        assert(f@.recent =~= Seq::<Option<input_event>>::empty());
        f
    }

    /// Records `event` in the ring buffer, when there is one.
    fn remember_passed(&mut self, event: &input_event)
        ensures
            final(self).last_event_us == old(self).last_event_us,
            final(self).overall_first_event_us == old(self).overall_first_event_us,
            final(self).overall_last_event_us == old(self).overall_last_event_us,
            final(self).ring_buffer_size == old(self).ring_buffer_size,
            old(self).ring_buffer_size == 0 ==> final(self).recent_passed_events@ == old(self).recent_passed_events@
                && final(self).recent_event_idx == old(self).recent_event_idx,
            old(self).ring_buffer_size > 0 ==> final(self).recent_passed_events@
                == old(self).recent_passed_events@.update(old(self).recent_event_idx as int, Some(*event))
                && final(self).recent_event_idx as nat == (old(self).recent_event_idx as nat + 1) % (old(self).ring_buffer_size as nat),
    {
        proof {
            use_type_invariant(&*self);
        }
        if self.ring_buffer_size > 0 {
            let idx = self.recent_event_idx;
            self.recent_passed_events[idx] = Some(*event);
            self.recent_event_idx = (idx + 1) % self.ring_buffer_size;
        }
    }

    /// Checks `event` against the debounce state and reports the decision.
    ///
    /// Non-key events, key repeats, keys exempted by `skip_debounce` and codes
    /// or values outside the table pass unchecked. A key press or release
    /// is a bounce when a previous event of the same key and value passed less
    /// than `debounce_time` before it; time going backwards is never a bounce.
    /// The table is updated only when the event passes, passed events enter
    /// the ring buffer, and the first and last timestamps seen are kept.
    pub fn check_event(&mut self, event: &input_event, debounce_time: Duration, skip_debounce: bool) -> (info: EventInfo)
        ensures
            info == spec_check_outcome(old(self)@, *event, debounce_time, skip_debounce),
            final(self)@ == spec_check_next(old(self)@, *event, debounce_time, skip_debounce, old(self).spec_ring_buffer_size()),
            final(self).spec_ring_buffer_size() == old(self).spec_ring_buffer_size(),
    {
        proof {
            use_type_invariant(&*self);
        }
        let event_us = event_microseconds(event);
        if self.overall_first_event_us.is_none() {
            self.overall_first_event_us = Some(event_us);
        }
        self.overall_last_event_us = Some(event_us);

        let unchecked = EventInfo { event: *event, event_us, is_bounce: false, diff_us: None, last_passed_us: None };
        if skip_debounce || !is_key_event(event) || event.value == 2 {
            self.remember_passed(event);
            return unchecked;
        }
        if !(event.value >= 0 && event.value < 2 && (event.code as usize) < FILTER_MAP_SIZE) {
            self.remember_passed(event);
            return unchecked;
        }
        let slot = (event.code as usize) * NUM_KEY_STATES + (event.value as usize);
        let last_passed_us = self.last_event_us[slot];
        if last_passed_us == u64::MAX {
            self.last_event_us[slot] = event_us;
            self.remember_passed(event);
            return unchecked;
        }
        if event_us >= last_passed_us {
            let diff_us = event_us - last_passed_us;
            if !debounce_time.is_zero() && Duration::from_micros(diff_us).lt(&debounce_time) {
                return EventInfo {
                    event: *event,
                    event_us,
                    is_bounce: true,
                    diff_us: Some(diff_us),
                    last_passed_us: Some(last_passed_us),
                };
            }
        }
        self.last_event_us[slot] = event_us;
        self.remember_passed(event);
        EventInfo { event: *event, event_us, is_bounce: false, diff_us: None, last_passed_us: Some(last_passed_us) }
    }

    /// The time between the first and the last event checked, 0 when time
    /// went backwards, or `None` when no event was checked.
    pub fn get_runtime_us(&self) -> (r: Option<u64>)
        ensures
            r == spec_runtime_us(self@),
    {
        match (self.overall_first_event_us, self.overall_last_event_us) {
            (Some(first), Some(last)) => Some(last.saturating_sub(first)),
            _ => None,
        }
    }
}

/// Whether `event` is exempt from debouncing under `config`: a key event of a
/// key that the per-key controls leave out.
pub open spec fn spec_exempt(config: Config, event: input_event) -> bool {
    spec_is_key_event(event) && !config.debounces(event.code)
}

impl BounceFilter {
    /// Checks `event` under `config`: with its debounce window, and exempt
    /// from debouncing when it is a key event of a key that the allow and
    /// ignore lists leave out.
    pub fn check_event_with_config(&mut self, event: &input_event, config: &Config) -> (info: EventInfo)
        requires
            config.wf(),
        ensures
            info == spec_check_outcome(old(self)@, *event, config@.debounce_time, spec_exempt(*config, *event)),
            final(self)@ == spec_check_next(
                old(self)@,
                *event,
                config@.debounce_time,
                spec_exempt(*config, *event),
                old(self).spec_ring_buffer_size(),
            ),
            final(self).spec_ring_buffer_size() == old(self).spec_ring_buffer_size(),
    {
        let skip = is_key_event(event) && config.is_key_ignored(event.code);
        self.check_event(event, config.debounce_time(), skip)
    }
}

} // verus!
