//! The Linux `input_event` record as this library sees it, and pure helpers on it.

use vstd::prelude::*;
use crate::text::{chars_of, parse_decimal_range, skip_prefixes, spec_parse_u64, spec_parse_unsigned, spec_starts_with, spec_strip_prefixes, starts_with_at};

verus! {

/// Event type of synchronisation markers.
pub const EV_SYN: u16 = 0x00;
/// Event type of key and button state changes.
pub const EV_KEY: u16 = 0x01;
/// Event type of relative axis changes.
pub const EV_REL: u16 = 0x02;
/// Event type of absolute axis changes.
pub const EV_ABS: u16 = 0x03;
/// Event type of miscellaneous events.
pub const EV_MSC: u16 = 0x04;
/// Event type of LED state changes.
pub const EV_LED: u16 = 0x11;
/// Event type of autorepeat settings.
pub const EV_REP: u16 = 0x14;
/// Highest event type number.
pub const EV_MAX: u16 = 0x1f;
/// Highest key code.
pub const KEY_MAX: u16 = 0x2ff;

/// Seconds and microseconds of an event timestamp, with the fields of the kernel's `timeval`.
#[allow(non_camel_case_types)]
#[derive(Copy, Clone, Debug, PartialEq, Eq)]
pub struct timeval {
    pub tv_sec: i64,
    pub tv_usec: i64,
}

/// One Linux input event, with the fields of the kernel's `struct input_event`.
#[allow(non_camel_case_types)]
#[derive(Copy, Clone, Debug, PartialEq, Eq)]
pub struct input_event {
    pub time: timeval,
    pub type_: u16,
    pub code: u16,
    pub value: i32,
}

/// The timestamp of `event` in microseconds: `tv_sec * 1_000_000 + tv_usec`,
/// both fields read as `u64`, or `u64::MAX` when that does not fit.
pub open spec fn spec_event_us(event: input_event) -> u64 {
    let sec = event.time.tv_sec as u64;
    let usec = event.time.tv_usec as u64;
    if sec * 1_000_000 + usec <= u64::MAX {
        (sec * 1_000_000 + usec) as u64
    } else {
        u64::MAX
    }
}

/// Whether `event` reports a key state change.
pub open spec fn spec_is_key_event(event: input_event) -> bool {
    event.type_ == EV_KEY
}

/// Calculates the event timestamp in microseconds from its timeval struct.
/// Returns `u64::MAX` if the calculation overflows.
pub fn event_microseconds(event: &input_event) -> (us: u64)
    ensures
        us == spec_event_us(*event),
{
    let sec = event.time.tv_sec as u64;
    let usec = event.time.tv_usec as u64;
    match sec.checked_mul(1_000_000) {
        Some(s) => match s.checked_add(usec) {
            Some(t) => t,
            None => u64::MAX,
        },
        None => u64::MAX,
    }
}

/// Checks if the event type is EV_KEY.
pub fn is_key_event(event: &input_event) -> (b: bool)
    ensures
        b == spec_is_key_event(*event),
{
    event.type_ == EV_KEY
}

/// Whether bit number `bit` is set in the little-endian bit array `buf`;
/// bits past the end of `buf` read as unset.
pub open spec fn spec_bit_set(buf: Seq<u8>, bit: int) -> bool {
    let byte_index = bit / 8;
    let bit_index = bit % 8;
    byte_index < buf.len() && (buf[byte_index] >> (bit_index as u8)) & 1u8 == 1u8
}

/// Checks whether a bit is set in a byte buffer holding a kernel capability bit array.
pub fn is_bit_set(buf: &[u8], bit: usize) -> (b: bool)
    ensures
        b == spec_bit_set(buf@, bit as int),
{
    let byte_index = bit / 8;
    let bit_index = bit % 8;
    if byte_index < buf.len() {
        let byte = buf[byte_index];
        let shift = bit_index as u8;
        assert(shift < 8);
        let set = (byte & (1u8 << shift)) != 0;
        assert(((byte & (1u8 << shift)) != 0) == ((byte >> shift) & 1u8 == 1u8)) by (bit_vector)
            requires
                shift < 8,
        ;
        set
    } else {
        false
    }
}

/// The device number of an input device file named `file_name`: `None` for
/// names that do not begin with `event`; otherwise what follows every leading
/// `event`, read as a decimal `u64` (`None` inside when it is none).
pub open spec fn spec_event_device_number(file_name: Seq<char>) -> Option<Option<u64>> {
    if spec_starts_with(file_name, "event"@) {
        Some(spec_parse_u64(spec_strip_prefixes(file_name, "event"@)))
    } else {
        None
    }
}

/// The device number of an input device file named `file_name`, as
/// `spec_event_device_number` gives it.
pub fn event_device_number(file_name: &str) -> (n: Option<Option<u64>>)
    ensures
        n == spec_event_device_number(file_name@),
{
    let v = chars_of(file_name);
    let prefix = chars_of("event");
    assert(v@.subrange(0, v@.len() as int) =~= v@);
    if !starts_with_at(&v, 0, &prefix) {
        return None;
    }
    proof {
        reveal_strlit("event");
        assert(prefix@.len() > 0);
    }
    let end = skip_prefixes(&v, 0, &prefix);
    let number = parse_decimal_range(&v, end, v.len(), u64::MAX);
    proof {
        let t = v@.subrange(end as int, v@.len() as int);
        match spec_parse_unsigned(t, u64::MAX as nat) {
            Some(k) => assert(number == Some(k as u64)),
            None => assert(number is None),
        }
    }
    Some(number)
}

/// The capability names listed for a device whose event type bits are `bits`,
/// in the order synchronisation, keys, relative, absolute, misc, LEDs, repeat.
pub open spec fn spec_capability_names(bits: Seq<u8>) -> Seq<Seq<char>> {
    (if spec_bit_set(bits, EV_SYN as int) { seq!["EV_SYN (Sync)"@] } else { Seq::empty() })
    + (if spec_bit_set(bits, EV_KEY as int) { seq!["EV_KEY (Keyboard)"@] } else { Seq::empty() })
    + (if spec_bit_set(bits, EV_REL as int) { seq!["EV_REL (Relative)"@] } else { Seq::empty() })
    + (if spec_bit_set(bits, EV_ABS as int) { seq!["EV_ABS (Absolute)"@] } else { Seq::empty() })
    + (if spec_bit_set(bits, EV_MSC as int) { seq!["EV_MSC (Misc)"@] } else { Seq::empty() })
    + (if spec_bit_set(bits, EV_LED as int) { seq!["EV_LED (LEDs)"@] } else { Seq::empty() })
    + (if spec_bit_set(bits, EV_REP as int) { seq!["EV_REP (Repeat)"@] } else { Seq::empty() })
}

/// Appends `name` to `caps` when `bit` is set in `bits`.
fn push_capability(caps: &mut Vec<&'static str>, bits: &[u8], bit: u16, name: &'static str)
    ensures
        final(caps)@.map_values(|c: &'static str| c@) == old(caps)@.map_values(|c: &'static str| c@)
            + (if spec_bit_set(bits@, bit as int) { seq![name@] } else { Seq::empty() }),
{
    let ghost before = caps@;
    if is_bit_set(bits, bit as usize) {
        caps.push(name);
        assert(caps@.map_values(|c: &'static str| c@) =~= before.map_values(|c: &'static str| c@) + seq![name@]);
    } else {
        assert(caps@.map_values(|c: &'static str| c@) =~= before.map_values(|c: &'static str| c@) + Seq::empty());
    }
}

/// The capability names of a device whose event type bits are `type_bits`.
pub fn device_capabilities(type_bits: &[u8]) -> (caps: Vec<&'static str>)
    ensures
        caps@.map_values(|c: &'static str| c@) == spec_capability_names(type_bits@),
{
    let mut caps: Vec<&'static str> = Vec::new();
    assert(caps@.map_values(|c: &'static str| c@) =~= Seq::<Seq<char>>::empty());
    push_capability(&mut caps, type_bits, EV_SYN, "EV_SYN (Sync)");
    push_capability(&mut caps, type_bits, EV_KEY, "EV_KEY (Keyboard)");
    push_capability(&mut caps, type_bits, EV_REL, "EV_REL (Relative)");
    push_capability(&mut caps, type_bits, EV_ABS, "EV_ABS (Absolute)");
    push_capability(&mut caps, type_bits, EV_MSC, "EV_MSC (Misc)");
    push_capability(&mut caps, type_bits, EV_LED, "EV_LED (LEDs)");
    push_capability(&mut caps, type_bits, EV_REP, "EV_REP (Repeat)");
    assert(caps@.map_values(|c: &'static str| c@) =~= spec_capability_names(type_bits@));
    caps
}

/// Device numbers order with no number first, then by increasing number.
pub open spec fn spec_number_lt(a: Option<u64>, b: Option<u64>) -> bool {
    match (a, b) {
        (None, Some(_)) => true,
        (Some(x), Some(y)) => x < y,
        _ => false,
    }
}

/// Entry `i` comes before entry `j` when sorting by `numbers` stably.
pub open spec fn spec_entry_before(numbers: Seq<Option<u64>>, i: int, j: int) -> bool {
    spec_number_lt(numbers[i], numbers[j]) || (numbers[i] == numbers[j] && i < j)
}

/// Whether device number `a` sorts after `b`.
fn number_gt(a: Option<u64>, b: Option<u64>) -> (gt: bool)
    ensures
        gt == spec_number_lt(b, a),
{
    match (a, b) {
        (Some(x), None) => true,
        (Some(x), Some(y)) => x > y,
        _ => false,
    }
}

/// The positions of `numbers` in the order of a stable sort by device number.
pub fn device_order(numbers: &Vec<Option<u64>>) -> (order: Vec<usize>)
    ensures
        order@.len() == numbers@.len(),
        forall|a: int, b: int| 0 <= a < b < order@.len() ==> spec_entry_before(numbers@, order@[a] as int, order@[b] as int),
        forall|i: usize| i < numbers@.len() ==> order@.contains(i),
        forall|a: int| 0 <= a < order@.len() ==> order@[a] < numbers@.len(),
{
    let n = numbers.len();
    let mut order: Vec<usize> = Vec::new();
    let mut i: usize = 0;
    while i < n
        invariant
            n == numbers@.len(),
            0 <= i <= n,
            order@.len() == i,
            forall|a: int| 0 <= a < order@.len() ==> order@[a] < i,
            forall|a: int, b: int| 0 <= a < b < order@.len() ==> spec_entry_before(numbers@, order@[a] as int, order@[b] as int),
            forall|k: usize| k < i ==> order@.contains(k),
        decreases n - i,
    {
        let key = numbers[i];
        let mut pos: usize = 0;
        while pos < order.len() && !number_gt(numbers[order[pos]], key)
            invariant
                n == numbers@.len(),
                0 <= pos <= order@.len(),
                order@.len() == i,
                i < n,
                key == numbers@[i as int],
                forall|a: int| 0 <= a < order@.len() ==> order@[a] < i,
                forall|a: int| 0 <= a < pos ==> !spec_number_lt(numbers@[i as int], numbers@[order@[a] as int]),
            decreases order@.len() - pos,
        {
            pos = pos + 1;
        }
        let ghost before = order@;
        order.insert(pos, i);
        proof {
            assert forall|a: int, b: int| 0 <= a < b < order@.len() implies spec_entry_before(numbers@, order@[a] as int, order@[b] as int) by {
                if b < pos {
                    assert(order@[a] == before[a] && order@[b] == before[b]);
                } else if b == pos {
                    assert(order@[a] == before[a]);
                    assert(!spec_number_lt(numbers@[i as int], numbers@[before[a] as int]));
                } else if a < pos {
                    assert(order@[a] == before[a] && order@[b] == before[b - 1]);
                } else if a == pos {
                    assert(order@[b] == before[b - 1]);
                    assert(spec_number_lt(numbers@[i as int], numbers@[before[pos as int] as int]) || b - 1 == pos
                        || spec_entry_before(numbers@, before[pos as int] as int, before[b - 1] as int));
                    if b - 1 > pos {
                        assert(spec_entry_before(numbers@, before[pos as int] as int, before[b - 1] as int));
                    }
                } else {
                    assert(order@[a] == before[a - 1] && order@[b] == before[b - 1]);
                }
            }
            assert forall|k: usize| k < i + 1 implies order@.contains(k) by {
                if k == i {
                    assert(order@[pos as int] == i);
                } else {
                    assert(before.contains(k));
                    let t = choose|t: int| 0 <= t < before.len() && before[t] == k;
                    if t < pos {
                        assert(order@[t] == k);
                    } else {
                        assert(order@[t + 1] == k);
                    }
                }
            }
            assert forall|a: int| 0 <= a < order@.len() implies order@[a] < i + 1 by {
                if a < pos {
                    assert(order@[a] == before[a]);
                } else if a > pos {
                    assert(order@[a] == before[a - 1]);
                }
            }
        }
        i = i + 1;
    }
    order
}

/// Length of the buffer that receives a device's name.
pub const DEVICE_NAME_LEN: usize = 256;

/// The bits of a Linux read ioctl request: the read direction in the top two
/// bits, the argument size shifted to bit 16, the type character shifted to
/// bit 8 and the request number.
pub open spec fn spec_ioctl_read_request(ty: u8, nr: u8, size: usize) -> u64 {
    0x8000_0000u64 | ((size as u64) << 16u64) | ((ty as u64) << 8u64) | (nr as u64)
}

/// The request number of a Linux read ioctl (`_IOR`): the read direction in
/// the top two bits, the argument size from bit 16, the type character from
/// bit 8 and the request number in the low byte. The kernel gives the size
/// 14 bits; a larger size spills into the direction bits.
pub fn ioctl_read_request(ty: u8, nr: u8, size: usize) -> (r: u64)
    ensures
        r == spec_ioctl_read_request(ty, nr, size),
        size < 0x4000 ==> r == 0x8000_0000 + (size as nat) * 0x10000 + (ty as nat) * 0x100 + (nr as nat),
        r % 0x10000 == (ty as nat) * 0x100 + (nr as nat),
{
    let sz = size as u64;
    let t = ty as u64;
    let n = nr as u64;
    let r = (2u64 << 30) | (sz << 16) | (t << 8) | n;
    assert((2u64 << 30) == 0x8000_0000u64) by (bit_vector);
    assert(r % 0x10000 == t * 0x100 + n) by (bit_vector)
        requires
            r == (2u64 << 30) | (sz << 16) | (t << 8) | n,
            t < 256,
            n < 256,
    ;
    assert(sz < 0x4000 ==> r == 0x8000_0000 + sz * 0x10000 + t * 0x100 + n) by (bit_vector)
        requires
            r == (2u64 << 30) | (sz << 16) | (t << 8) | n,
            t < 256,
            n < 256,
    ;
    r
}

/// The request that reads a device's name into a buffer of `len` bytes.
pub fn device_name_request(len: usize) -> (r: u64)
    ensures
        r == spec_ioctl_read_request(0x45, 0x06, len),
        len < 0x4000 ==> r == 0x8000_0000 + (len as nat) * 0x10000 + 0x4506,
{
    ioctl_read_request(0x45, 0x06, len)
}

/// The request that reads the bits of event type `ev_type` (0 for the
/// supported event types) into a buffer of `len` bytes.
pub fn event_bits_request(ev_type: u8, len: usize) -> (r: u64)
    requires
        ev_type < 0xe0,
    ensures
        r == spec_ioctl_read_request(0x45, (0x20 + ev_type) as u8, len),
        len < 0x4000 ==> r == 0x8000_0000 + (len as nat) * 0x10000 + 0x4520 + (ev_type as nat),
{
    ioctl_read_request(0x45, 0x20 + ev_type, len)
}

} // verus!
