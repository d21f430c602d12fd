//! Names of key codes, event types and key values, and lookup of key codes by name.

use vstd::prelude::*;
use crate::text::{
    chars_of, parse_decimal_range, spec_digits_value, spec_is_digit, spec_parse_u16, spec_parse_unsigned,
    spec_is_whitespace, spec_trim, spec_trim_end, spec_trim_start, spec_unsigned_digits, trim_bounds,
};
use crate::event::{EV_ABS, EV_KEY, EV_LED, EV_MSC, EV_REL, EV_SYN};

verus! {

/// The largest key code that has a name.
pub const MAX_NAMED_KEY_CODE: u16 = 127;

/// The name of the key with code `code`, if it has one.
pub open spec fn spec_key_name(code: u16) -> Option<Seq<char>> {
    match code {
        0 => Some("KEY_RESERVED"@),
        1 => Some("KEY_ESC"@),
        2 => Some("KEY_1"@),
        3 => Some("KEY_2"@),
        4 => Some("KEY_3"@),
        5 => Some("KEY_4"@),
        6 => Some("KEY_5"@),
        7 => Some("KEY_6"@),
        8 => Some("KEY_7"@),
        9 => Some("KEY_8"@),
        10 => Some("KEY_9"@),
        11 => Some("KEY_0"@),
        12 => Some("KEY_MINUS"@),
        13 => Some("KEY_EQUAL"@),
        14 => Some("KEY_BACKSPACE"@),
        15 => Some("KEY_TAB"@),
        16 => Some("KEY_Q"@),
        17 => Some("KEY_W"@),
        18 => Some("KEY_E"@),
        19 => Some("KEY_R"@),
        20 => Some("KEY_T"@),
        21 => Some("KEY_Y"@),
        22 => Some("KEY_U"@),
        23 => Some("KEY_I"@),
        24 => Some("KEY_O"@),
        25 => Some("KEY_P"@),
        26 => Some("KEY_LEFTBRACE"@),
        27 => Some("KEY_RIGHTBRACE"@),
        28 => Some("KEY_ENTER"@),
        29 => Some("KEY_LEFTCTRL"@),
        30 => Some("KEY_A"@),
        31 => Some("KEY_S"@),
        32 => Some("KEY_D"@),
        33 => Some("KEY_F"@),
        34 => Some("KEY_G"@),
        35 => Some("KEY_H"@),
        36 => Some("KEY_J"@),
        37 => Some("KEY_K"@),
        38 => Some("KEY_L"@),
        39 => Some("KEY_SEMICOLON"@),
        40 => Some("KEY_APOSTROPHE"@),
        41 => Some("KEY_GRAVE"@),
        42 => Some("KEY_LEFTSHIFT"@),
        43 => Some("KEY_BACKSLASH"@),
        44 => Some("KEY_Z"@),
        45 => Some("KEY_X"@),
        46 => Some("KEY_C"@),
        47 => Some("KEY_V"@),
        48 => Some("KEY_B"@),
        49 => Some("KEY_N"@),
        50 => Some("KEY_M"@),
        51 => Some("KEY_COMMA"@),
        52 => Some("KEY_DOT"@),
        53 => Some("KEY_SLASH"@),
        54 => Some("KEY_RIGHTSHIFT"@),
        55 => Some("KEY_KPASTERISK"@),
        56 => Some("KEY_LEFTALT"@),
        57 => Some("KEY_SPACE"@),
        58 => Some("KEY_CAPSLOCK"@),
        59 => Some("KEY_F1"@),
        60 => Some("KEY_F2"@),
        61 => Some("KEY_F3"@),
        62 => Some("KEY_F4"@),
        63 => Some("KEY_F5"@),
        64 => Some("KEY_F6"@),
        65 => Some("KEY_F7"@),
        66 => Some("KEY_F8"@),
        67 => Some("KEY_F9"@),
        68 => Some("KEY_F10"@),
        69 => Some("KEY_NUMLOCK"@),
        70 => Some("KEY_SCROLLLOCK"@),
        71 => Some("KEY_KP7"@),
        72 => Some("KEY_KP8"@),
        73 => Some("KEY_KP9"@),
        74 => Some("KEY_KPMINUS"@),
        75 => Some("KEY_KP4"@),
        76 => Some("KEY_KP5"@),
        77 => Some("KEY_KP6"@),
        78 => Some("KEY_KPPLUS"@),
        79 => Some("KEY_KP1"@),
        80 => Some("KEY_KP2"@),
        81 => Some("KEY_KP3"@),
        82 => Some("KEY_KP0"@),
        83 => Some("KEY_KPDOT"@),
        85 => Some("KEY_ZENKAKUHANKAKU"@),
        86 => Some("KEY_102ND"@),
        87 => Some("KEY_F11"@),
        88 => Some("KEY_F12"@),
        89 => Some("KEY_RO"@),
        90 => Some("KEY_KATAKANA"@),
        91 => Some("KEY_HIRAGANA"@),
        92 => Some("KEY_HENKAN"@),
        93 => Some("KEY_KATAKANAHIRAGANA"@),
        94 => Some("KEY_MUHENKAN"@),
        95 => Some("KEY_KPJPCOMMA"@),
        96 => Some("KEY_KPENTER"@),
        97 => Some("KEY_RIGHTCTRL"@),
        98 => Some("KEY_KPSLASH"@),
        99 => Some("KEY_SYSRQ"@),
        100 => Some("KEY_RIGHTALT"@),
        101 => Some("KEY_LINEFEED"@),
        102 => Some("KEY_HOME"@),
        103 => Some("KEY_UP"@),
        104 => Some("KEY_PAGEUP"@),
        105 => Some("KEY_LEFT"@),
        106 => Some("KEY_RIGHT"@),
        107 => Some("KEY_END"@),
        108 => Some("KEY_DOWN"@),
        109 => Some("KEY_PAGEDOWN"@),
        110 => Some("KEY_INSERT"@),
        111 => Some("KEY_DELETE"@),
        112 => Some("KEY_MACRO"@),
        113 => Some("KEY_MUTE"@),
        114 => Some("KEY_VOLUMEDOWN"@),
        115 => Some("KEY_VOLUMEUP"@),
        116 => Some("KEY_POWER"@),
        117 => Some("KEY_KPEQUAL"@),
        118 => Some("KEY_KPPLUSMINUS"@),
        119 => Some("KEY_PAUSE"@),
        120 => Some("KEY_SCALE"@),
        121 => Some("KEY_KPCOMMA"@),
        122 => Some("KEY_HANGEUL"@),
        123 => Some("KEY_HANJA"@),
        124 => Some("KEY_YEN"@),
        125 => Some("KEY_LEFTMETA"@),
        126 => Some("KEY_RIGHTMETA"@),
        127 => Some("KEY_COMPOSE"@),
        _ => None,
    }
}

/// The name shown for the key with code `code`: its name, or `UNKNOWN`.
pub open spec fn spec_display_key_name(code: u16) -> Seq<char> {
    match spec_key_name(code) {
        Some(name) => name,
        None => "UNKNOWN"@,
    }
}

/// The name of the key with code `code`, if it has one.
pub fn key_name_entry(code: u16) -> (name: Option<&'static str>)
    ensures
        match name {
            Some(n) => spec_key_name(code) == Some(n@),
            None => spec_key_name(code) is None,
        },
{
    match code {
        0 => Some("KEY_RESERVED"),
        1 => Some("KEY_ESC"),
        2 => Some("KEY_1"),
        3 => Some("KEY_2"),
        4 => Some("KEY_3"),
        5 => Some("KEY_4"),
        6 => Some("KEY_5"),
        7 => Some("KEY_6"),
        8 => Some("KEY_7"),
        9 => Some("KEY_8"),
        10 => Some("KEY_9"),
        11 => Some("KEY_0"),
        12 => Some("KEY_MINUS"),
        13 => Some("KEY_EQUAL"),
        14 => Some("KEY_BACKSPACE"),
        15 => Some("KEY_TAB"),
        16 => Some("KEY_Q"),
        17 => Some("KEY_W"),
        18 => Some("KEY_E"),
        19 => Some("KEY_R"),
        20 => Some("KEY_T"),
        21 => Some("KEY_Y"),
        22 => Some("KEY_U"),
        23 => Some("KEY_I"),
        24 => Some("KEY_O"),
        25 => Some("KEY_P"),
        26 => Some("KEY_LEFTBRACE"),
        27 => Some("KEY_RIGHTBRACE"),
        28 => Some("KEY_ENTER"),
        29 => Some("KEY_LEFTCTRL"),
        30 => Some("KEY_A"),
        31 => Some("KEY_S"),
        32 => Some("KEY_D"),
        33 => Some("KEY_F"),
        34 => Some("KEY_G"),
        35 => Some("KEY_H"),
        36 => Some("KEY_J"),
        37 => Some("KEY_K"),
        38 => Some("KEY_L"),
        39 => Some("KEY_SEMICOLON"),
        40 => Some("KEY_APOSTROPHE"),
        41 => Some("KEY_GRAVE"),
        42 => Some("KEY_LEFTSHIFT"),
        43 => Some("KEY_BACKSLASH"),
        44 => Some("KEY_Z"),
        45 => Some("KEY_X"),
        46 => Some("KEY_C"),
        47 => Some("KEY_V"),
        48 => Some("KEY_B"),
        49 => Some("KEY_N"),
        50 => Some("KEY_M"),
        51 => Some("KEY_COMMA"),
        52 => Some("KEY_DOT"),
        53 => Some("KEY_SLASH"),
        54 => Some("KEY_RIGHTSHIFT"),
        55 => Some("KEY_KPASTERISK"),
        56 => Some("KEY_LEFTALT"),
        57 => Some("KEY_SPACE"),
        58 => Some("KEY_CAPSLOCK"),
        59 => Some("KEY_F1"),
        60 => Some("KEY_F2"),
        61 => Some("KEY_F3"),
        62 => Some("KEY_F4"),
        63 => Some("KEY_F5"),
        64 => Some("KEY_F6"),
        65 => Some("KEY_F7"),
        66 => Some("KEY_F8"),
        67 => Some("KEY_F9"),
        68 => Some("KEY_F10"),
        69 => Some("KEY_NUMLOCK"),
        70 => Some("KEY_SCROLLLOCK"),
        71 => Some("KEY_KP7"),
        72 => Some("KEY_KP8"),
        73 => Some("KEY_KP9"),
        74 => Some("KEY_KPMINUS"),
        75 => Some("KEY_KP4"),
        76 => Some("KEY_KP5"),
        77 => Some("KEY_KP6"),
        78 => Some("KEY_KPPLUS"),
        79 => Some("KEY_KP1"),
        80 => Some("KEY_KP2"),
        81 => Some("KEY_KP3"),
        82 => Some("KEY_KP0"),
        83 => Some("KEY_KPDOT"),
        85 => Some("KEY_ZENKAKUHANKAKU"),
        86 => Some("KEY_102ND"),
        87 => Some("KEY_F11"),
        88 => Some("KEY_F12"),
        89 => Some("KEY_RO"),
        90 => Some("KEY_KATAKANA"),
        91 => Some("KEY_HIRAGANA"),
        92 => Some("KEY_HENKAN"),
        93 => Some("KEY_KATAKANAHIRAGANA"),
        94 => Some("KEY_MUHENKAN"),
        95 => Some("KEY_KPJPCOMMA"),
        96 => Some("KEY_KPENTER"),
        97 => Some("KEY_RIGHTCTRL"),
        98 => Some("KEY_KPSLASH"),
        99 => Some("KEY_SYSRQ"),
        100 => Some("KEY_RIGHTALT"),
        101 => Some("KEY_LINEFEED"),
        102 => Some("KEY_HOME"),
        103 => Some("KEY_UP"),
        104 => Some("KEY_PAGEUP"),
        105 => Some("KEY_LEFT"),
        106 => Some("KEY_RIGHT"),
        107 => Some("KEY_END"),
        108 => Some("KEY_DOWN"),
        109 => Some("KEY_PAGEDOWN"),
        110 => Some("KEY_INSERT"),
        111 => Some("KEY_DELETE"),
        112 => Some("KEY_MACRO"),
        113 => Some("KEY_MUTE"),
        114 => Some("KEY_VOLUMEDOWN"),
        115 => Some("KEY_VOLUMEUP"),
        116 => Some("KEY_POWER"),
        117 => Some("KEY_KPEQUAL"),
        118 => Some("KEY_KPPLUSMINUS"),
        119 => Some("KEY_PAUSE"),
        120 => Some("KEY_SCALE"),
        121 => Some("KEY_KPCOMMA"),
        122 => Some("KEY_HANGEUL"),
        123 => Some("KEY_HANJA"),
        124 => Some("KEY_YEN"),
        125 => Some("KEY_LEFTMETA"),
        126 => Some("KEY_RIGHTMETA"),
        127 => Some("KEY_COMPOSE"),
        _ => None,
    }
}

/// The name of the key with code `code`, or `UNKNOWN`.
pub fn get_key_name(code: u16) -> (name: &'static str)
    ensures
        name@ == spec_display_key_name(code),
{
    match key_name_entry(code) {
        Some(n) => n,
        None => "UNKNOWN",
    }
}


/// The name of the event type `type_`.
pub open spec fn spec_event_type_name(type_: u16) -> Seq<char> {
    if type_ == EV_SYN {
        "EV_SYN"@
    } else if type_ == EV_KEY {
        "EV_KEY"@
    } else if type_ == EV_REL {
        "EV_REL"@
    } else if type_ == EV_ABS {
        "EV_ABS"@
    } else if type_ == EV_MSC {
        "EV_MSC"@
    } else if type_ == EV_LED {
        "EV_LED"@
    } else {
        "Unknown"@
    }
}

/// The name of the event type `type_`: `EV_SYN`, `EV_KEY`, `EV_REL`, `EV_ABS`,
/// `EV_MSC`, `EV_LED` or `Unknown`.
pub fn get_event_type_name(type_: u16) -> (name: &'static str)
    ensures
        name@ == spec_event_type_name(type_),
{
    if type_ == EV_SYN {
        "EV_SYN"
    } else if type_ == EV_KEY {
        "EV_KEY"
    } else if type_ == EV_REL {
        "EV_REL"
    } else if type_ == EV_ABS {
        "EV_ABS"
    } else if type_ == EV_MSC {
        "EV_MSC"
    } else if type_ == EV_LED {
        "EV_LED"
    } else {
        "Unknown"
    }
}

/// The name of the key value `value`.
pub open spec fn spec_value_name(value: i32) -> Seq<char> {
    if value == 0 {
        "Release"@
    } else if value == 1 {
        "Press"@
    } else if value == 2 {
        "Repeat"@
    } else {
        "Unknown"@
    }
}

/// The name of the key value `value`: `Release` (0), `Press` (1), `Repeat` (2) or `Unknown`.
pub fn get_value_name(value: i32) -> (name: &'static str)
    ensures
        name@ == spec_value_name(value),
{
    match value {
        0 => "Release",
        1 => "Press",
        2 => "Repeat",
        _ => "Unknown",
    }
}

/// `c` with ASCII lowercase letters mapped to uppercase.
pub open spec fn spec_ascii_upper(c: char) -> char {
    if 'a' <= c && c <= 'z' {
        ((c as u32) - 32) as char
    } else {
        c
    }
}

/// `t` with ASCII lowercase letters mapped to uppercase.
pub open spec fn spec_ascii_uppercase(t: Seq<char>) -> Seq<char> {
    Seq::new(t.len(), |i: int| spec_ascii_upper(t[i]))
}

/// `code` is the smallest key code whose name is `name`.
pub open spec fn spec_least_code_named(code: u16, name: Seq<char>) -> bool {
    &&& spec_key_name(code) == Some(name)
    &&& forall|c: u16| c < code ==> spec_key_name(c) != Some(name)
}

/// The key code that `identifier` denotes: after trimming whitespace, a
/// decimal `u16`, or else a key name compared without regard to ASCII case.
pub open spec fn spec_resolve_key_code(identifier: Seq<char>) -> Option<u16> {
    let t = spec_trim(identifier);
    if t.len() == 0 {
        None
    } else if spec_parse_u16(t) is Some {
        spec_parse_u16(t)
    } else if exists|c: u16| spec_key_name(c) == Some(spec_ascii_uppercase(t)) {
        Some(choose|c: u16| spec_least_code_named(c, spec_ascii_uppercase(t)))
    } else {
        None
    }
}

/// `c` with ASCII lowercase letters mapped to uppercase.
fn ascii_upper(c: char) -> (u: char)
    ensures
        u == spec_ascii_upper(c),
{
    if 'a' <= c && c <= 'z' {
        ((c as u8) - 32) as char
    } else {
        c
    }
}

/// Whether `name` equals `v[lo..hi]` with ASCII lowercase letters made uppercase.
fn matches_uppercased(name: &str, v: &Vec<char>, lo: usize, hi: usize) -> (b: bool)
    requires
        lo <= hi <= v@.len(),
    ensures
        b == (name@ == spec_ascii_uppercase(v@.subrange(lo as int, hi as int))),
{
    let ghost u = spec_ascii_uppercase(v@.subrange(lo as int, hi as int));
    let n = name.unicode_len();
    if n != hi - lo {
        return false;
    }
    let mut i: usize = 0;
    while i < n
        invariant
            n == name@.len(),
            n == hi - lo,
            lo <= hi <= v@.len(),
            u == spec_ascii_uppercase(v@.subrange(lo as int, hi as int)),
            0 <= i <= n,
            forall|j: int| 0 <= j < i ==> name@[j] == u[j],
        decreases n - i,
    {
        if name.get_char(i) != ascii_upper(v[lo + i]) {
            assert(name@[i as int] != u[i as int]);
            return false;
        }
        i = i + 1;
    }
    assert(name@ =~= u);
    true
}

/// An identifier that is no number resolves to the smallest code named by its uppercase form.
proof fn lemma_resolve_by_name(s: Seq<char>, code: u16)
    requires
        spec_trim(s).len() > 0,
        spec_parse_u16(spec_trim(s)) is None,
        spec_least_code_named(code, spec_ascii_uppercase(spec_trim(s))),
    ensures
        spec_resolve_key_code(s) == Some(code),
{
    let u = spec_ascii_uppercase(spec_trim(s));
    assert(exists|c: u16| spec_key_name(c) == Some(u));
    let chosen = choose|c: u16| spec_least_code_named(c, u);
    assert(spec_least_code_named(chosen, u));
    if chosen < code {
        assert(spec_key_name(chosen) != Some(u));
    } else if code < chosen {
        assert(spec_key_name(code) != Some(u));
    }
}

/// Resolves a key identifier (numeric code or symbolic name) to a key code.
/// Surrounding whitespace is ignored, a decimal number is taken as the code
/// itself, and names are compared without regard to ASCII case.
pub fn resolve_key_code(identifier: &str) -> (code: Option<u16>)
    ensures
        code == spec_resolve_key_code(identifier@),
{
    let v = chars_of(identifier);
    let (lo, hi) = trim_bounds(&v);
    let ghost t = spec_trim(identifier@);
    if lo == hi {
        return None;
    }
    match parse_decimal_range(&v, lo, hi, 65535) {
        Some(c) => {
            return Some(c as u16);
        },
        None => {},
    }
    let ghost u = spec_ascii_uppercase(t);
    let mut code: u16 = 0;
    while code <= MAX_NAMED_KEY_CODE
        invariant
            lo <= hi <= v@.len(),
            v@ == identifier@,
            t == v@.subrange(lo as int, hi as int),
            t == spec_trim(identifier@),
            u == spec_ascii_uppercase(t),
            code <= MAX_NAMED_KEY_CODE + 1,
            lo < hi,
            spec_parse_u16(t) is None,
            forall|c: u16| c < code ==> spec_key_name(c) != Some(u),
        decreases MAX_NAMED_KEY_CODE + 1 - code,
    {
        match key_name_entry(code) {
            Some(name) => {
                if matches_uppercased(name, &v, lo, hi) {
                    proof {
                        lemma_resolve_by_name(identifier@, code);
                    }
                    return Some(code);
                }
            },
            None => {},
        }
        code = code + 1;
    }
    assert forall|c: u16| spec_key_name(c) != Some(u) by {
        if c > MAX_NAMED_KEY_CODE {
            assert(spec_key_name(c) is None);
        }
    }
    None
}

/// The decimal digit character for `d` (below 10).
pub open spec fn spec_digit_char(d: nat) -> char {
    (('0' as nat) + d) as char
}

/// The decimal text of `n`, most significant digit first, without leading zeros.
pub open spec fn spec_decimal(n: nat) -> Seq<char>
    decreases n,
{
    if n < 10 {
        seq![spec_digit_char(n)]
    } else {
        spec_decimal(n / 10).push(spec_digit_char(n % 10))
    }
}

/// The decimal text of `n` is a non-empty run of digits that spells `n`.
proof fn lemma_decimal_spells(n: nat)
    ensures
        spec_decimal(n).len() > 0,
        forall|i: int| 0 <= i < spec_decimal(n).len() ==> spec_is_digit(#[trigger] spec_decimal(n)[i]),
        spec_digits_value(spec_decimal(n)) == n,
    decreases n,
{
    let s = spec_decimal(n);
    let d = n % 10;
    assert((spec_digit_char(d) as nat) == ('0' as nat) + d);
    if n < 10 {
        assert(s.drop_last() =~= Seq::<char>::empty());
        assert(s.last() == spec_digit_char(d));
        assert(spec_digits_value(s.drop_last()) == 0);
        assert(spec_digits_value(s) == spec_digits_value(s.drop_last()) * 10 + ((s.last() as nat) - ('0' as nat)) as nat);
    } else {
        lemma_decimal_spells(n / 10);
        let t = spec_decimal(n / 10);
        assert(s.drop_last() =~= t);
        assert(s.last() == spec_digit_char(d));
        assert((n / 10) * 10 + d == n);
        assert forall|i: int| 0 <= i < s.len() implies spec_is_digit(#[trigger] s[i]) by {
            if i < t.len() {
                assert(s[i] == t[i]);
            }
        }
    }
}

/// A key code written in decimal resolves to itself.
pub proof fn law_decimal_code_round_trip(code: u16)
    ensures
        spec_resolve_key_code(spec_decimal(code as nat)) == Some(code),
{
    let s = spec_decimal(code as nat);
    lemma_decimal_spells(code as nat);
    assert(spec_is_digit(s[0]) && spec_is_digit(s[s.len() - 1]));
    assert(spec_trim_start(s) == s);
    assert(spec_trim_end(s) == s);
    assert(spec_trim(s) == s);
    assert(spec_unsigned_digits(s) == s);
    assert(spec_parse_unsigned(s, u16::MAX as nat) == Some(code as nat));
}

/// The key code whose name is `n`, read off a decision tree over the length
/// and a few characters of the names in the table: it gives back the code of
/// every name in the table (see `lemma_key_name_facts`), so no two codes
/// share a name.
pub open spec fn spec_code_named(n: Seq<char>) -> Option<u16> {
    if n.len() == 5 {
        if n[4] == '0' {
            Some(11u16)
        } else if n[4] == '1' {
            Some(2u16)
        } else if n[4] == '2' {
            Some(3u16)
        } else if n[4] == '3' {
            Some(4u16)
        } else if n[4] == '4' {
            Some(5u16)
        } else if n[4] == '5' {
            Some(6u16)
        } else if n[4] == '6' {
            Some(7u16)
        } else if n[4] == '7' {
            Some(8u16)
        } else if n[4] == '8' {
            Some(9u16)
        } else if n[4] == '9' {
            Some(10u16)
        } else if n[4] == 'A' {
            Some(30u16)
        } else if n[4] == 'B' {
            Some(48u16)
        } else if n[4] == 'C' {
            Some(46u16)
        } else if n[4] == 'D' {
            Some(32u16)
        } else if n[4] == 'E' {
            Some(18u16)
        } else if n[4] == 'F' {
            Some(33u16)
        } else if n[4] == 'G' {
            Some(34u16)
        } else if n[4] == 'H' {
            Some(35u16)
        } else if n[4] == 'I' {
            Some(23u16)
        } else if n[4] == 'J' {
            Some(36u16)
        } else if n[4] == 'K' {
            Some(37u16)
        } else if n[4] == 'L' {
            Some(38u16)
        } else if n[4] == 'M' {
            Some(50u16)
        } else if n[4] == 'N' {
            Some(49u16)
        } else if n[4] == 'O' {
            Some(24u16)
        } else if n[4] == 'P' {
            Some(25u16)
        } else if n[4] == 'Q' {
            Some(16u16)
        } else if n[4] == 'R' {
            Some(19u16)
        } else if n[4] == 'S' {
            Some(31u16)
        } else if n[4] == 'T' {
            Some(20u16)
        } else if n[4] == 'U' {
            Some(22u16)
        } else if n[4] == 'V' {
            Some(47u16)
        } else if n[4] == 'W' {
            Some(17u16)
        } else if n[4] == 'X' {
            Some(45u16)
        } else if n[4] == 'Y' {
            Some(21u16)
        } else if n[4] == 'Z' {
            Some(44u16)
        } else {
            None
        }
    } else if n.len() == 6 {
        if n[5] == '1' {
            Some(59u16)
        } else if n[5] == '2' {
            Some(60u16)
        } else if n[5] == '3' {
            Some(61u16)
        } else if n[5] == '4' {
            Some(62u16)
        } else if n[5] == '5' {
            Some(63u16)
        } else if n[5] == '6' {
            Some(64u16)
        } else if n[5] == '7' {
            Some(65u16)
        } else if n[5] == '8' {
            Some(66u16)
        } else if n[5] == '9' {
            Some(67u16)
        } else if n[5] == 'O' {
            Some(89u16)
        } else if n[5] == 'P' {
            Some(103u16)
        } else {
            None
        }
    } else if n.len() == 7 {
        if n[6] == '0' {
            if n[4] == 'F' {
                Some(68u16)
            } else if n[4] == 'K' {
                Some(82u16)
            } else {
                None
            }
        } else if n[6] == '1' {
            if n[4] == 'F' {
                Some(87u16)
            } else if n[4] == 'K' {
                Some(79u16)
            } else {
                None
            }
        } else if n[6] == '2' {
            if n[4] == 'F' {
                Some(88u16)
            } else if n[4] == 'K' {
                Some(80u16)
            } else {
                None
            }
        } else if n[6] == '3' {
            Some(81u16)
        } else if n[6] == '4' {
            Some(75u16)
        } else if n[6] == '5' {
            Some(76u16)
        } else if n[6] == '6' {
            Some(77u16)
        } else if n[6] == '7' {
            Some(71u16)
        } else if n[6] == '8' {
            Some(72u16)
        } else if n[6] == '9' {
            Some(73u16)
        } else if n[6] == 'B' {
            Some(15u16)
        } else if n[6] == 'C' {
            Some(1u16)
        } else if n[6] == 'D' {
            Some(107u16)
        } else if n[6] == 'N' {
            Some(124u16)
        } else if n[6] == 'T' {
            Some(52u16)
        } else {
            None
        }
    } else if n.len() == 8 {
        if n[4] == 'D' {
            Some(108u16)
        } else if n[4] == 'H' {
            Some(102u16)
        } else if n[4] == 'L' {
            Some(105u16)
        } else if n[4] == 'M' {
            Some(113u16)
        } else {
            None
        }
    } else if n.len() == 9 {
        if n[7] == 'A' {
            Some(13u16)
        } else if n[7] == 'C' {
            Some(57u16)
        } else if n[7] == 'E' {
            if n[4] == 'E' {
                Some(28u16)
            } else if n[4] == 'P' {
                Some(116u16)
            } else {
                None
            }
        } else if n[7] == 'H' {
            Some(106u16)
        } else if n[7] == 'J' {
            Some(123u16)
        } else if n[7] == 'L' {
            Some(120u16)
        } else if n[7] == 'M' {
            Some(51u16)
        } else if n[7] == 'N' {
            Some(86u16)
        } else if n[7] == 'O' {
            Some(83u16)
        } else if n[7] == 'R' {
            if n[4] == 'M' {
                Some(112u16)
            } else if n[4] == 'S' {
                Some(99u16)
            } else {
                None
            }
        } else if n[7] == 'S' {
            if n[4] == 'P' {
                Some(119u16)
            } else if n[4] == 'S' {
                Some(53u16)
            } else {
                None
            }
        } else if n[7] == 'U' {
            Some(12u16)
        } else if n[7] == 'V' {
            Some(41u16)
        } else {
            None
        }
    } else if n.len() == 10 {
        if n[4] == 'D' {
            Some(111u16)
        } else if n[4] == 'H' {
            Some(92u16)
        } else if n[4] == 'I' {
            Some(110u16)
        } else if n[4] == 'K' {
            Some(78u16)
        } else if n[4] == 'P' {
            Some(104u16)
        } else {
            None
        }
    } else if n.len() == 11 {
        if n[7] == 'G' {
            Some(122u16)
        } else if n[7] == 'I' {
            Some(74u16)
        } else if n[7] == 'L' {
            if n[4] == 'K' {
                Some(98u16)
            } else if n[4] == 'N' {
                Some(69u16)
            } else {
                None
            }
        } else if n[7] == 'N' {
            Some(96u16)
        } else if n[7] == 'O' {
            Some(121u16)
        } else if n[7] == 'P' {
            Some(127u16)
        } else if n[7] == 'Q' {
            Some(117u16)
        } else if n[7] == 'T' {
            Some(56u16)
        } else {
            None
        }
    } else if n.len() == 12 {
        if n[8] == 'C' {
            Some(29u16)
        } else if n[8] == 'D' {
            Some(109u16)
        } else if n[8] == 'F' {
            Some(101u16)
        } else if n[8] == 'G' {
            Some(91u16)
        } else if n[8] == 'K' {
            Some(90u16)
        } else if n[8] == 'L' {
            Some(58u16)
        } else if n[8] == 'M' {
            if n[4] == 'L' {
                Some(125u16)
            } else if n[4] == 'V' {
                Some(115u16)
            } else {
                None
            }
        } else if n[8] == 'N' {
            Some(94u16)
        } else if n[8] == 'R' {
            Some(0u16)
        } else if n[8] == 'T' {
            Some(100u16)
        } else {
            None
        }
    } else if n.len() == 13 {
        if n[9] == 'C' {
            Some(97u16)
        } else if n[9] == 'H' {
            Some(42u16)
        } else if n[9] == 'L' {
            Some(43u16)
        } else if n[9] == 'M' {
            Some(126u16)
        } else if n[9] == 'O' {
            if n[4] == 'K' {
                Some(95u16)
            } else if n[4] == 'S' {
                Some(39u16)
            } else {
                None
            }
        } else if n[9] == 'P' {
            Some(14u16)
        } else if n[9] == 'R' {
            Some(26u16)
        } else {
            None
        }
    } else if n.len() == 14 {
        if n[4] == 'A' {
            Some(40u16)
        } else if n[4] == 'K' {
            Some(55u16)
        } else if n[4] == 'R' {
            if n[9] == 'B' {
                Some(27u16)
            } else if n[9] == 'S' {
                Some(54u16)
            } else {
                None
            }
        } else if n[4] == 'S' {
            Some(70u16)
        } else if n[4] == 'V' {
            Some(114u16)
        } else {
            None
        }
    } else if n.len() == 15 {
        Some(118u16)
    } else if n.len() == 18 {
        Some(85u16)
    } else if n.len() == 20 {
        Some(93u16)
    } else {
        None
    }
}

/// Whether `ch` can occur in a key name: an uppercase ASCII letter, a digit or `_`.
pub open spec fn spec_name_char(ch: char) -> bool {
    ('A' <= ch && ch <= 'Z') || ('0' <= ch && ch <= '9') || ch == '_'
}

/// Whether `n` looks like a key name: it starts with `K` and holds only name characters.
pub open spec fn spec_plain_name(n: Seq<char>) -> bool {
    &&& n.len() > 0
    &&& n[0] == 'K'
    &&& forall|i: int| 0 <= i < n.len() ==> spec_name_char(#[trigger] n[i])
}

/// Facts about the names of the table: each is plain, and the decision tree
/// gives back its code.
pub open spec fn spec_name_facts(code: u16) -> bool {
    spec_key_name(code) matches Some(n) ==> spec_plain_name(n) && spec_code_named(n) == Some(code)
}

proof fn lemma_key_name_facts_0(code: u16)
    requires
        0 <= code <= 15,
    ensures
        spec_name_facts(code),
{
    match code {
        0 => {
            reveal_strlit("KEY_RESERVED");
        },
        1 => {
            reveal_strlit("KEY_ESC");
        },
        2 => {
            reveal_strlit("KEY_1");
        },
        3 => {
            reveal_strlit("KEY_2");
        },
        4 => {
            reveal_strlit("KEY_3");
        },
        5 => {
            reveal_strlit("KEY_4");
        },
        6 => {
            reveal_strlit("KEY_5");
        },
        7 => {
            reveal_strlit("KEY_6");
        },
        8 => {
            reveal_strlit("KEY_7");
        },
        9 => {
            reveal_strlit("KEY_8");
        },
        10 => {
            reveal_strlit("KEY_9");
        },
        11 => {
            reveal_strlit("KEY_0");
        },
        12 => {
            reveal_strlit("KEY_MINUS");
        },
        13 => {
            reveal_strlit("KEY_EQUAL");
        },
        14 => {
            reveal_strlit("KEY_BACKSPACE");
        },
        15 => {
            reveal_strlit("KEY_TAB");
        },
        _ => {},
    }
}

proof fn lemma_key_name_facts_1(code: u16)
    requires
        16 <= code <= 31,
    ensures
        spec_name_facts(code),
{
    match code {
        16 => {
            reveal_strlit("KEY_Q");
        },
        17 => {
            reveal_strlit("KEY_W");
        },
        18 => {
            reveal_strlit("KEY_E");
        },
        19 => {
            reveal_strlit("KEY_R");
        },
        20 => {
            reveal_strlit("KEY_T");
        },
        21 => {
            reveal_strlit("KEY_Y");
        },
        22 => {
            reveal_strlit("KEY_U");
        },
        23 => {
            reveal_strlit("KEY_I");
        },
        24 => {
            reveal_strlit("KEY_O");
        },
        25 => {
            reveal_strlit("KEY_P");
        },
        26 => {
            reveal_strlit("KEY_LEFTBRACE");
        },
        27 => {
            reveal_strlit("KEY_RIGHTBRACE");
        },
        28 => {
            reveal_strlit("KEY_ENTER");
        },
        29 => {
            reveal_strlit("KEY_LEFTCTRL");
        },
        30 => {
            reveal_strlit("KEY_A");
        },
        31 => {
            reveal_strlit("KEY_S");
        },
        _ => {},
    }
}

proof fn lemma_key_name_facts_2(code: u16)
    requires
        32 <= code <= 47,
    ensures
        spec_name_facts(code),
{
    match code {
        32 => {
            reveal_strlit("KEY_D");
        },
        33 => {
            reveal_strlit("KEY_F");
        },
        34 => {
            reveal_strlit("KEY_G");
        },
        35 => {
            reveal_strlit("KEY_H");
        },
        36 => {
            reveal_strlit("KEY_J");
        },
        37 => {
            reveal_strlit("KEY_K");
        },
        38 => {
            reveal_strlit("KEY_L");
        },
        39 => {
            reveal_strlit("KEY_SEMICOLON");
        },
        40 => {
            reveal_strlit("KEY_APOSTROPHE");
        },
        41 => {
            reveal_strlit("KEY_GRAVE");
        },
        42 => {
            reveal_strlit("KEY_LEFTSHIFT");
        },
        43 => {
            reveal_strlit("KEY_BACKSLASH");
        },
        44 => {
            reveal_strlit("KEY_Z");
        },
        45 => {
            reveal_strlit("KEY_X");
        },
        46 => {
            reveal_strlit("KEY_C");
        },
        47 => {
            reveal_strlit("KEY_V");
        },
        _ => {},
    }
}

proof fn lemma_key_name_facts_3(code: u16)
    requires
        48 <= code <= 63,
    ensures
        spec_name_facts(code),
{
    match code {
        48 => {
            reveal_strlit("KEY_B");
        },
        49 => {
            reveal_strlit("KEY_N");
        },
        50 => {
            reveal_strlit("KEY_M");
        },
        51 => {
            reveal_strlit("KEY_COMMA");
        },
        52 => {
            reveal_strlit("KEY_DOT");
        },
        53 => {
            reveal_strlit("KEY_SLASH");
        },
        54 => {
            reveal_strlit("KEY_RIGHTSHIFT");
        },
        55 => {
            reveal_strlit("KEY_KPASTERISK");
        },
        56 => {
            reveal_strlit("KEY_LEFTALT");
        },
        57 => {
            reveal_strlit("KEY_SPACE");
        },
        58 => {
            reveal_strlit("KEY_CAPSLOCK");
        },
        59 => {
            reveal_strlit("KEY_F1");
        },
        60 => {
            reveal_strlit("KEY_F2");
        },
        61 => {
            reveal_strlit("KEY_F3");
        },
        62 => {
            reveal_strlit("KEY_F4");
        },
        63 => {
            reveal_strlit("KEY_F5");
        },
        _ => {},
    }
}

proof fn lemma_key_name_facts_4(code: u16)
    requires
        64 <= code <= 79,
    ensures
        spec_name_facts(code),
{
    match code {
        64 => {
            reveal_strlit("KEY_F6");
        },
        65 => {
            reveal_strlit("KEY_F7");
        },
        66 => {
            reveal_strlit("KEY_F8");
        },
        67 => {
            reveal_strlit("KEY_F9");
        },
        68 => {
            reveal_strlit("KEY_F10");
        },
        69 => {
            reveal_strlit("KEY_NUMLOCK");
        },
        70 => {
            reveal_strlit("KEY_SCROLLLOCK");
        },
        71 => {
            reveal_strlit("KEY_KP7");
        },
        72 => {
            reveal_strlit("KEY_KP8");
        },
        73 => {
            reveal_strlit("KEY_KP9");
        },
        74 => {
            reveal_strlit("KEY_KPMINUS");
        },
        75 => {
            reveal_strlit("KEY_KP4");
        },
        76 => {
            reveal_strlit("KEY_KP5");
        },
        77 => {
            reveal_strlit("KEY_KP6");
        },
        78 => {
            reveal_strlit("KEY_KPPLUS");
        },
        79 => {
            reveal_strlit("KEY_KP1");
        },
        _ => {},
    }
}

proof fn lemma_key_name_facts_5(code: u16)
    requires
        80 <= code <= 96,
    ensures
        spec_name_facts(code),
{
    match code {
        80 => {
            reveal_strlit("KEY_KP2");
        },
        81 => {
            reveal_strlit("KEY_KP3");
        },
        82 => {
            reveal_strlit("KEY_KP0");
        },
        83 => {
            reveal_strlit("KEY_KPDOT");
        },
        85 => {
            reveal_strlit("KEY_ZENKAKUHANKAKU");
        },
        86 => {
            reveal_strlit("KEY_102ND");
        },
        87 => {
            reveal_strlit("KEY_F11");
        },
        88 => {
            reveal_strlit("KEY_F12");
        },
        89 => {
            reveal_strlit("KEY_RO");
        },
        90 => {
            reveal_strlit("KEY_KATAKANA");
        },
        91 => {
            reveal_strlit("KEY_HIRAGANA");
        },
        92 => {
            reveal_strlit("KEY_HENKAN");
        },
        93 => {
            reveal_strlit("KEY_KATAKANAHIRAGANA");
        },
        94 => {
            reveal_strlit("KEY_MUHENKAN");
        },
        95 => {
            reveal_strlit("KEY_KPJPCOMMA");
        },
        96 => {
            reveal_strlit("KEY_KPENTER");
        },
        _ => {},
    }
}

proof fn lemma_key_name_facts_6(code: u16)
    requires
        97 <= code <= 112,
    ensures
        spec_name_facts(code),
{
    match code {
        97 => {
            reveal_strlit("KEY_RIGHTCTRL");
        },
        98 => {
            reveal_strlit("KEY_KPSLASH");
        },
        99 => {
            reveal_strlit("KEY_SYSRQ");
        },
        100 => {
            reveal_strlit("KEY_RIGHTALT");
        },
        101 => {
            reveal_strlit("KEY_LINEFEED");
        },
        102 => {
            reveal_strlit("KEY_HOME");
        },
        103 => {
            reveal_strlit("KEY_UP");
        },
        104 => {
            reveal_strlit("KEY_PAGEUP");
        },
        105 => {
            reveal_strlit("KEY_LEFT");
        },
        106 => {
            reveal_strlit("KEY_RIGHT");
        },
        107 => {
            reveal_strlit("KEY_END");
        },
        108 => {
            reveal_strlit("KEY_DOWN");
        },
        109 => {
            reveal_strlit("KEY_PAGEDOWN");
        },
        110 => {
            reveal_strlit("KEY_INSERT");
        },
        111 => {
            reveal_strlit("KEY_DELETE");
        },
        112 => {
            reveal_strlit("KEY_MACRO");
        },
        _ => {},
    }
}

proof fn lemma_key_name_facts_7(code: u16)
    requires
        113 <= code <= 127,
    ensures
        spec_name_facts(code),
{
    match code {
        113 => {
            reveal_strlit("KEY_MUTE");
        },
        114 => {
            reveal_strlit("KEY_VOLUMEDOWN");
        },
        115 => {
            reveal_strlit("KEY_VOLUMEUP");
        },
        116 => {
            reveal_strlit("KEY_POWER");
        },
        117 => {
            reveal_strlit("KEY_KPEQUAL");
        },
        118 => {
            reveal_strlit("KEY_KPPLUSMINUS");
        },
        119 => {
            reveal_strlit("KEY_PAUSE");
        },
        120 => {
            reveal_strlit("KEY_SCALE");
        },
        121 => {
            reveal_strlit("KEY_KPCOMMA");
        },
        122 => {
            reveal_strlit("KEY_HANGEUL");
        },
        123 => {
            reveal_strlit("KEY_HANJA");
        },
        124 => {
            reveal_strlit("KEY_YEN");
        },
        125 => {
            reveal_strlit("KEY_LEFTMETA");
        },
        126 => {
            reveal_strlit("KEY_RIGHTMETA");
        },
        127 => {
            reveal_strlit("KEY_COMPOSE");
        },
        _ => {},
    }
}

/// Every name of the table is plain, and the decision tree gives back its code.
pub proof fn lemma_key_name_facts(code: u16)
    ensures
        spec_name_facts(code),
{
    if code <= 15 {
        lemma_key_name_facts_0(code);
    } else if code <= 31 {
        lemma_key_name_facts_1(code);
    } else if code <= 47 {
        lemma_key_name_facts_2(code);
    } else if code <= 63 {
        lemma_key_name_facts_3(code);
    } else if code <= 79 {
        lemma_key_name_facts_4(code);
    } else if code <= 96 {
        lemma_key_name_facts_5(code);
    } else if code <= 112 {
        lemma_key_name_facts_6(code);
    } else if code <= 127 {
        lemma_key_name_facts_7(code);
    }
}

/// `c` with ASCII uppercase letters mapped to lowercase.
pub open spec fn spec_ascii_lower(c: char) -> char {
    if 'A' <= c && c <= 'Z' {
        ((c as u32) + 32) as char
    } else {
        c
    }
}

/// `t` with ASCII uppercase letters mapped to lowercase.
pub open spec fn spec_ascii_lowercase(t: Seq<char>) -> Seq<char> {
    Seq::new(t.len(), |i: int| spec_ascii_lower(t[i]))
}

/// A plain name, in upper or lower case, is its own trimmed form, is no
/// number, and reads back as itself in uppercase.
proof fn lemma_plain_name_reads_back(n: Seq<char>, t: Seq<char>)
    requires
        spec_plain_name(n),
        t == n || t == spec_ascii_lowercase(n),
    ensures
        spec_trim(t) == t,
        t.len() > 0,
        spec_parse_u16(t) is None,
        spec_ascii_uppercase(t) == n,
{
    assert(spec_name_char(n[n.len() - 1]));
    assert(spec_name_char(n[0]));
    assert forall|i: int| 0 <= i < n.len() implies spec_ascii_upper(#[trigger] spec_ascii_lower(n[i])) == n[i]
        && spec_ascii_upper(n[i]) == n[i] by {
        assert(spec_name_char(n[i]));
    }
    assert(!spec_is_whitespace(t[0]));
    assert(!spec_is_whitespace(t[t.len() - 1]));
    assert(spec_trim_start(t) == t);
    assert(spec_trim_end(t) == t);
    assert(spec_unsigned_digits(t) == t);
    assert(!spec_is_digit(t[0]));
    assert(spec_ascii_uppercase(t) =~= n);
}

/// A named key code resolves back from its name, written as in the table or
/// in lowercase.
pub proof fn law_key_name_round_trip(code: u16)
    requires
        spec_key_name(code) is Some,
    ensures
        spec_resolve_key_code(spec_key_name(code)->0) == Some(code),
        spec_resolve_key_code(spec_ascii_lowercase(spec_key_name(code)->0)) == Some(code),
{
    let n = spec_key_name(code)->0;
    lemma_key_name_facts(code);
    assert forall|c: u16| c < code implies spec_key_name(c) != Some(n) by {
        lemma_key_name_facts(c);
    }
    assert(spec_least_code_named(code, n));
    let l = spec_ascii_lowercase(n);
    lemma_plain_name_reads_back(n, n);
    lemma_plain_name_reads_back(n, l);
    lemma_resolve_by_name(n, code);
    lemma_resolve_by_name(l, code);
}

} // verus!
