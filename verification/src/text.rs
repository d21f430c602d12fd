//! Character-level text handling: whitespace, trimming and decimal numbers,
//! as `str::trim` and `str::parse` treat them.

use vstd::prelude::*;

verus! {

/// Whether `c` has the Unicode `White_Space` property.
pub open spec fn spec_is_whitespace(c: char) -> bool {
    ||| ('\u{9}' <= c && c <= '\u{d}')
    ||| c == ' '
    ||| c == '\u{85}'
    ||| c == '\u{a0}'
    ||| c == '\u{1680}'
    ||| ('\u{2000}' <= c && c <= '\u{200a}')
    ||| c == '\u{2028}'
    ||| c == '\u{2029}'
    ||| c == '\u{202f}'
    ||| c == '\u{205f}'
    ||| c == '\u{3000}'
}

/// Whether `c` has the Unicode `White_Space` property.
pub fn is_whitespace(c: char) -> (b: bool)
    ensures
        b == spec_is_whitespace(c),
{
    ('\u{9}' <= c && c <= '\u{d}') || c == ' ' || c == '\u{85}' || c == '\u{a0}' || c
        == '\u{1680}' || ('\u{2000}' <= c && c <= '\u{200a}') || c == '\u{2028}' || c
        == '\u{2029}' || c == '\u{202f}' || c == '\u{205f}' || c == '\u{3000}'
}

/// `s` without its leading whitespace.
pub open spec fn spec_trim_start(s: Seq<char>) -> Seq<char>
    decreases s.len(),
{
    if s.len() > 0 && spec_is_whitespace(s[0]) {
        spec_trim_start(s.drop_first())
    } else {
        s
    }
}

/// `s` without its trailing whitespace.
pub open spec fn spec_trim_end(s: Seq<char>) -> Seq<char>
    decreases s.len(),
{
    if s.len() > 0 && spec_is_whitespace(s.last()) {
        spec_trim_end(s.drop_last())
    } else {
        s
    }
}

/// `s` without leading and trailing whitespace.
pub open spec fn spec_trim(s: Seq<char>) -> Seq<char> {
    spec_trim_end(spec_trim_start(s))
}

/// Whether `c` is an ASCII decimal digit.
pub open spec fn spec_is_digit(c: char) -> bool {
    '0' <= c && c <= '9'
}

/// The number that the decimal digits `d` spell.
pub open spec fn spec_digits_value(d: Seq<char>) -> nat
    decreases d.len(),
{
    if d.len() == 0 {
        0
    } else {
        spec_digits_value(d.drop_last()) * 10 + ((d.last() as nat) - ('0' as nat)) as nat
    }
}

/// The digits part of `t`: `t` without one leading `+`.
pub open spec fn spec_unsigned_digits(t: Seq<char>) -> Seq<char> {
    if t.len() > 0 && t[0] == '+' {
        t.drop_first()
    } else {
        t
    }
}

/// A character other than a digit in the digits part makes the parse fail.
proof fn lemma_parse_fails_on_non_digit(t: Seq<char>, k: int, max: nat)
    requires
        0 <= k < spec_unsigned_digits(t).len(),
        !spec_is_digit(spec_unsigned_digits(t)[k]),
    ensures
        spec_parse_unsigned(t, max) is None,
{
}

/// The number at most `max` that `t` spells in decimal, with an optional
/// leading `+`, as `str::parse` reads an unsigned integer type whose largest
/// value is `max`; `None` when `t` is no such number or it is larger.
pub open spec fn spec_parse_unsigned(t: Seq<char>, max: nat) -> Option<nat> {
    let d = spec_unsigned_digits(t);
    if d.len() > 0 && (forall|i: int| 0 <= i < d.len() ==> spec_is_digit(d[i])) && spec_digits_value(d) <= max {
        Some(spec_digits_value(d))
    } else {
        None
    }
}

/// The `u16` that `t` spells, as `str::parse::<u16>` reads it.
pub open spec fn spec_parse_u16(t: Seq<char>) -> Option<u16> {
    match spec_parse_unsigned(t, u16::MAX as nat) {
        Some(v) => Some(v as u16),
        None => None,
    }
}

/// The `u64` that `t` spells, as `str::parse::<u64>` reads it.
pub open spec fn spec_parse_u64(t: Seq<char>) -> Option<u64> {
    match spec_parse_unsigned(t, u64::MAX as nat) {
        Some(v) => Some(v as u64),
        None => None,
    }
}

/// The characters of `s`, in order.
pub fn chars_of(s: &str) -> (v: Vec<char>)
    ensures
        v@ == s@,
{
    let n = s.unicode_len();
    let mut v: Vec<char> = Vec::new();
    let mut i: usize = 0;
    while i < n
        invariant
            n == s@.len(),
            0 <= i <= n,
            v@ == s@.subrange(0, i as int),
        decreases n - i,
    {
        v.push(s.get_char(i));
        i = i + 1;
    }
    assert(v@ == s@);
    v
}

/// The bounds of `v` without its leading and trailing whitespace.
pub fn trim_bounds(v: &Vec<char>) -> (r: (usize, usize))
    ensures
        r.0 <= r.1 <= v@.len(),
        v@.subrange(r.0 as int, r.1 as int) == spec_trim(v@),
{
    let len = v.len();
    let mut lo: usize = 0;
    assert(v@.subrange(0, len as int) =~= v@);
    while lo < len && is_whitespace(v[lo])
        invariant
            len == v@.len(),
            0 <= lo <= len,
            spec_trim_start(v@) == spec_trim_start(v@.subrange(lo as int, len as int)),
        decreases len - lo,
    {
        let ghost sub = v@.subrange(lo as int, len as int);
        assert(sub.drop_first() =~= v@.subrange(lo + 1, len as int));
        lo = lo + 1;
    }
    let ghost front = v@.subrange(lo as int, len as int);
    assert(spec_trim_start(v@) == front);
    let mut hi: usize = len;
    while hi > lo && is_whitespace(v[hi - 1])
        invariant
            len == v@.len(),
            0 <= lo <= hi <= len,
            front == v@.subrange(lo as int, len as int),
            spec_trim_end(front) == spec_trim_end(v@.subrange(lo as int, hi as int)),
        decreases hi - lo,
    {
        let ghost sub = v@.subrange(lo as int, hi as int);
        assert(sub.drop_last() =~= v@.subrange(lo as int, hi - 1));
        hi = hi - 1;
    }
    (lo, hi)
}

/// The number at most `max` spelled by `v[lo..hi]`, read as `spec_parse_unsigned` reads it.
pub fn parse_decimal_range(v: &Vec<char>, lo: usize, hi: usize, max: u64) -> (r: Option<u64>)
    requires
        lo <= hi <= v@.len(),
    ensures
        match spec_parse_unsigned(v@.subrange(lo as int, hi as int), max as nat) {
            Some(n) => r == Some(n as u64),
            None => r is None,
        },
{
    let ghost t = v@.subrange(lo as int, hi as int);
    let mut start = lo;
    if start < hi && v[start] == '+' {
        start = start + 1;
    }
    let ghost d = v@.subrange(start as int, hi as int);
    assert(d =~= spec_unsigned_digits(t));
    if start == hi {
        return None;
    }
    let cap: u128 = (max as u128) + 1;
    let mut acc: u128 = 0;
    let mut i: usize = start;
    assert(v@.subrange(start as int, start as int) =~= Seq::<char>::empty());
    while i < hi
        invariant
            lo <= start < hi <= v@.len(),
            start <= i <= hi,
            d == v@.subrange(start as int, hi as int),
            t == v@.subrange(lo as int, hi as int),
            d == spec_unsigned_digits(t),
            forall|j: int| start <= j < i ==> spec_is_digit(v@[j]),
            cap == max + 1,
            acc as nat == (if spec_digits_value(v@.subrange(start as int, i as int)) <= cap {
                spec_digits_value(v@.subrange(start as int, i as int))
            } else {
                cap as nat
            }),
        decreases hi - i,
    {
        let c = v[i];
        if !('0' <= c && c <= '9') {
            assert(!spec_is_digit(d[i - start]));
            proof {
                lemma_parse_fails_on_non_digit(t, i - start, max as nat);
            }
            return None;
        }
        let digit = ((c as u32) - ('0' as u32)) as u128;
        let ghost prefix = v@.subrange(start as int, i + 1);
        assert(prefix.drop_last() =~= v@.subrange(start as int, i as int));
        assert(spec_digits_value(prefix) == spec_digits_value(v@.subrange(start as int, i as int)) * 10
            + digit);
        if acc * 10 + digit > cap {
            acc = cap;
        } else {
            acc = acc * 10 + digit;
        }
        i = i + 1;
    }
    assert(v@.subrange(start as int, i as int) =~= d);
    if acc <= max as u128 {
        Some(acc as u64)
    } else {
        None
    }
}

/// Whether `s` begins with `p`.
pub open spec fn spec_starts_with(s: Seq<char>, p: Seq<char>) -> bool {
    p.len() <= s.len() && s.subrange(0, p.len() as int) == p
}

/// `s` with every leading repetition of the non-empty pattern `p` removed,
/// as `str::trim_start_matches` does.
pub open spec fn spec_strip_prefixes(s: Seq<char>, p: Seq<char>) -> Seq<char>
    decreases s.len(),
{
    if p.len() > 0 && spec_starts_with(s, p) {
        spec_strip_prefixes(s.skip(p.len() as int), p)
    } else {
        s
    }
}

/// Whether `v[pos..]` begins with `p`.
pub fn starts_with_at(v: &Vec<char>, pos: usize, p: &Vec<char>) -> (b: bool)
    requires
        pos <= v@.len(),
    ensures
        b == spec_starts_with(v@.subrange(pos as int, v@.len() as int), p@),
{
    let ghost sub = v@.subrange(pos as int, v@.len() as int);
    let n = v.len();
    if p.len() > n - pos {
        return false;
    }
    let mut i: usize = 0;
    while i < p.len()
        invariant
            n == v@.len(),
            pos + p@.len() <= v@.len(),
            sub == v@.subrange(pos as int, v@.len() as int),
            0 <= i <= p@.len(),
            forall|j: int| 0 <= j < i ==> v@[pos + j] == p@[j],
        decreases p@.len() - i,
    {
        assert(pos + i < v@.len());
        if v[pos + i] != p[i] {
            assert(sub.subrange(0, p@.len() as int)[i as int] != p@[i as int]);
            return false;
        }
        i = i + 1;
    }
    assert(sub.subrange(0, p@.len() as int) =~= p@);
    true
}

/// The position in `v` after every leading repetition of the non-empty `p` from `pos` on.
pub fn skip_prefixes(v: &Vec<char>, pos: usize, p: &Vec<char>) -> (end: usize)
    requires
        pos <= v@.len(),
        p@.len() > 0,
    ensures
        pos <= end <= v@.len(),
        v@.subrange(end as int, v@.len() as int) == spec_strip_prefixes(v@.subrange(pos as int, v@.len() as int), p@),
{
    let n = v.len();
    let mut end = pos;
    let mut more = starts_with_at(v, end, p);
    while more
        invariant
            n == v@.len(),
            pos <= end <= v@.len(),
            p@.len() > 0,
            more == spec_starts_with(v@.subrange(end as int, v@.len() as int), p@),
            spec_strip_prefixes(v@.subrange(pos as int, v@.len() as int), p@)
                == spec_strip_prefixes(v@.subrange(end as int, v@.len() as int), p@),
        decreases v@.len() - end,
    {
        let ghost sub = v@.subrange(end as int, v@.len() as int);
        assert(p@.len() <= sub.len());
        assert(sub.skip(p@.len() as int) =~= v@.subrange(end + p@.len(), v@.len() as int));
        end = end + p.len();
        more = starts_with_at(v, end, p);
    }
    end
}

} // verus!
