//! A span of time with nanosecond precision, as the filter and the
//! statistics read it: whole seconds plus a sub-second nanosecond part.

use vstd::prelude::*;

verus! {

/// Nanoseconds in one second.
pub const NANOS_PER_SEC: u32 = 1_000_000_000;

/// A span of time: `secs` seconds plus `nanos` nanoseconds, `nanos` below one second.
#[derive(Copy, Clone, Debug, PartialEq, Eq)]
pub struct Duration {
    secs: u64,
    nanos: u32,
}

impl View for Duration {
    /// The span in nanoseconds.
    type V = nat;

    closed spec fn view(&self) -> nat {
        (self.secs as nat) * 1_000_000_000 + (self.nanos as nat)
    }
}

/// A name for the text that `humantime::format_duration` renders for a span
/// of the given number of nanoseconds.
pub uninterp spec fn humantime_text(total_nanos: nat) -> Seq<char>;

impl Duration {
    #[verifier::type_invariant]
    closed spec fn inv(self) -> bool {
        self.nanos < NANOS_PER_SEC
    }

    /// Whole seconds of the span.
    pub closed spec fn spec_secs(self) -> u64 {
        self.secs
    }

    /// Sub-second nanoseconds of the span.
    pub closed spec fn spec_subsec_nanos(self) -> u32 {
        self.nanos
    }

    /// The span of `secs` seconds and `nanos` nanoseconds; nanoseconds past
    /// one second carry into the seconds.
    pub fn new(secs: u64, nanos: u32) -> (d: Duration)
        requires
            (secs as nat) + (nanos as nat) / 1_000_000_000 <= u64::MAX,
        ensures
            d@ == (secs as nat) * 1_000_000_000 + (nanos as nat),
    {
        let carry = (nanos / NANOS_PER_SEC) as u64;
        let rest = nanos % NANOS_PER_SEC;
        Duration { secs: secs + carry, nanos: rest }
    }

    /// The empty span.
    pub fn zero() -> (d: Duration)
        ensures
            d@ == 0,
    {
        Duration { secs: 0, nanos: 0 }
    }

    /// A span of whole seconds.
    pub fn from_secs(secs: u64) -> (d: Duration)
        ensures
            d@ == (secs as nat) * 1_000_000_000,
    {
        Duration { secs, nanos: 0 }
    }

    /// A span of whole milliseconds.
    pub fn from_millis(millis: u64) -> (d: Duration)
        ensures
            d@ == (millis as nat) * 1_000_000,
    {
        let secs = millis / 1000;
        let nanos = ((millis % 1000) as u32) * 1_000_000;
        Duration { secs, nanos }
    }

    /// A span of whole microseconds.
    pub fn from_micros(micros: u64) -> (d: Duration)
        ensures
            d@ == (micros as nat) * 1_000,
    {
        let secs = micros / 1_000_000;
        let nanos = ((micros % 1_000_000) as u32) * 1000;
        Duration { secs, nanos }
    }

    /// Whole seconds of the span.
    pub fn as_secs(&self) -> (s: u64)
        ensures
            s == self.spec_secs(),
    {
        self.secs
    }

    /// Sub-second nanoseconds of the span.
    pub fn subsec_nanos(&self) -> (n: u32)
        ensures
            n == self.spec_subsec_nanos(),
            n < 1_000_000_000,
    {
        proof {
            use_type_invariant(self);
        }
        self.nanos
    }

    /// Whole microseconds of the span.
    pub fn as_micros(&self) -> (m: u128)
        ensures
            m == self@ / 1000,
    {
        proof {
            use_type_invariant(self);
        }
        (self.secs as u128) * 1_000_000 + ((self.nanos / 1000) as u128)
    }

    /// Whether the span is empty.
    pub fn is_zero(&self) -> (b: bool)
        ensures
            b == (self@ == 0),
    {
        self.secs == 0 && self.nanos == 0
    }

    /// Whether this span is strictly shorter than `other`.
    pub fn lt(&self, other: &Duration) -> (b: bool)
        ensures
            b == (self@ < other@),
    {
        proof {
            use_type_invariant(self);
            use_type_invariant(other);
        }
        self.secs < other.secs || (self.secs == other.secs && self.nanos < other.nanos)
    }

    /// Whether this span is at most as long as `other`.
    pub fn le(&self, other: &Duration) -> (b: bool)
        ensures
            b == (self@ <= other@),
    {
        proof {
            use_type_invariant(self);
            use_type_invariant(other);
        }
        self.secs < other.secs || (self.secs == other.secs && self.nanos <= other.nanos)
    }
}

/// Renders `d` with `humantime::format_duration`, as "1h 2m 3s" or "25ms".
/// The contract says only that the text is the one that function renders
/// for this span; it does not restate humantime's rendering rules.
#[verifier::external_body]
pub fn format_duration(d: Duration) -> (s: String)
    ensures
        s@ == humantime_text(d@),
{
    humantime::format_duration(std::time::Duration::new(d.secs, d.nanos)).to_string()
}

} // verus!
