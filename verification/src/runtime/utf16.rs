//! Text as the byte array and coder of a compact `java/lang/String`.

use vstd::prelude::*;

use super::text::chars_of;

verus! {

/// `char::from_u32`: a character exactly for the Unicode scalar values.
pub assume_specification[ char::from_u32 ](x: u32) -> (r: Option<char>)
    ensures
        r == if is_scalar(x as int) {
            Some(x as char)
        } else {
            None
        },
;

/// Whether `x` is a Unicode scalar value.
pub open spec fn is_scalar(x: int) -> bool {
    0 <= x < 0xD800 || 0xE000 <= x <= 0x10FFFF
}

/// A character is a Unicode scalar value.
proof fn char_range(c: char)
    ensures
        is_scalar(c as int),
{
}

/// The UTF-16 code units of a character.
pub open spec fn units_of(c: char) -> Seq<u16> {
    if (c as int) < 0x10000 {
        seq![c as u16]
    } else {
        seq![(0xD800 + (c as int - 0x10000) / 0x400) as u16, (0xDC00 + (c as int - 0x10000) % 0x400) as u16]
    }
}

/// The UTF-16 code units of a text.
pub open spec fn utf16(text: Seq<char>) -> Seq<u16>
    decreases text.len(),
{
    if text.len() == 0 {
        Seq::empty()
    } else {
        utf16(text.drop_last()) + units_of(text.last())
    }
}

/// Whether every unit fits one byte.
pub open spec fn latin1(units: Seq<u16>) -> bool {
    forall|i: int| 0 <= i < units.len() ==> #[trigger] units[i] <= 0xFF
}

/// The low byte of each unit.
pub open spec fn low_bytes(units: Seq<u16>) -> Seq<u8> {
    Seq::new(units.len(), |i: int| (units[i] % 256) as u8)
}

/// Each unit as two bytes, high byte first.
pub open spec fn wide_bytes(units: Seq<u16>) -> Seq<u8> {
    Seq::new(
        2 * units.len(),
        |i: int|
            if i % 2 == 0 {
                (units[i / 2] / 256) as u8
            } else {
                (units[i / 2] % 256) as u8
            },
    )
}

/// Bytes and coder of a text: coder 0 is Latin-1, one byte a unit; coder 1 is UTF-16, big-endian.
pub open spec fn encoded(text: Seq<char>) -> (Seq<u8>, u8) {
    let units = utf16(text);
    if latin1(units) {
        (low_bytes(units), 0)
    } else {
        (wide_bytes(units), 1)
    }
}

/// The units in a big-endian byte sequence; an odd last byte is left out.
pub open spec fn units_in(bytes: Seq<u8>) -> Seq<u16> {
    Seq::new((bytes.len() / 2) as nat, |i: int| (bytes[2 * i] * 256 + bytes[2 * i + 1]) as u16)
}

/// Whether a unit is the first half of a pair.
pub open spec fn is_high(u: u16) -> bool {
    0xD800 <= u <= 0xDBFF
}

/// Whether a unit is the second half of a pair.
pub open spec fn is_low(u: u16) -> bool {
    0xDC00 <= u <= 0xDFFF
}

/// The character that a pair of halves stands for.
pub open spec fn pair_char(hi: u16, lo: u16) -> char {
    (0x10000 + (hi - 0xD800) * 0x400 + (lo - 0xDC00)) as char
}

/// The text that units from `at` on stand for; a half without its other half becomes U+FFFD.
pub open spec fn text_from(units: Seq<u16>, at: int) -> Seq<char>
    decreases units.len() - at,
{
    if at < 0 || at >= units.len() {
        Seq::empty()
    } else if is_high(units[at]) && at + 1 < units.len() && is_low(units[at + 1]) {
        seq![pair_char(units[at], units[at + 1])] + text_from(units, at + 2)
    } else if is_high(units[at]) || is_low(units[at]) {
        seq!['\u{FFFD}'] + text_from(units, at + 1)
    } else {
        seq![units[at] as char] + text_from(units, at + 1)
    }
}

/// The text that bytes and coder stand for.
pub open spec fn decoded(bytes: Seq<u8>, coder: u8) -> Seq<char> {
    if coder == 0 {
        bytes.map_values(|b: u8| b as char)
    } else {
        text_from(units_in(bytes), 0)
    }
}

fn units(text: &str) -> (r: Vec<u16>)
    ensures
        r@ == utf16(text@),
{
    let cs: Vec<char> = chars_of(text);
    let mut out: Vec<u16> = Vec::new();
    let mut i: usize = 0;
    while i < cs.len()
        invariant
            i <= cs@.len(),
            out@ == utf16(cs@.take(i as int)),
        decreases cs@.len() - i,
    {
        let ch: char = cs[i];
        let c: u32 = ch as u32;
        proof {
            char_range(ch);
        }
        if c < 0x10000 {
            out.push(c as u16);
        } else {
            let v: u32 = c - 0x10000;
            out.push((0xD800 + v / 0x400) as u16);
            out.push((0xDC00 + v % 0x400) as u16);
        }
        i = i + 1;
        proof {
            let t = cs@.take(i as int);
            assert(t.drop_last() =~= cs@.take(i - 1));
            assert(t.last() == cs@[i - 1]);
            assert(out@ =~= utf16(t.drop_last()) + units_of(t.last()));
        }
    }
    assert(cs@.take(i as int) =~= cs@);
    out
}

/// Number of UTF-16 code units of a text.
pub fn utf16_len(text: &str) -> (r: usize)
    ensures
        r == utf16(text@).len(),
{
    units(text).len()
}

/// Encodes a text as the byte array and coder of a string.
pub fn encode(text: &str) -> (r: (Vec<u8>, u8))
    ensures
        (r.0@, r.1) == encoded(text@),
{
    let us: Vec<u16> = units(text);
    let mut narrow: bool = true;
    let mut i: usize = 0;
    while i < us.len()
        invariant
            i <= us@.len(),
            narrow == (forall|j: int| 0 <= j < i ==> #[trigger] us@[j] <= 0xFF),
        decreases us@.len() - i,
    {
        if us[i] > 0xFF {
            narrow = false;
        }
        i = i + 1;
    }
    let mut bytes: Vec<u8> = Vec::new();
    let mut k: usize = 0;
    if narrow {
        while k < us.len()
            invariant
                k <= us@.len(),
                bytes@ == low_bytes(us@.take(k as int)),
            decreases us@.len() - k,
        {
            bytes.push((us[k] % 256) as u8);
            k = k + 1;
            assert(bytes@ =~= low_bytes(us@.take(k as int)));
        }
        assert(us@.take(k as int) =~= us@);
        (bytes, 0)
    } else {
        while k < us.len()
            invariant
                k <= us@.len(),
                bytes@ == wide_bytes(us@.take(k as int)),
            decreases us@.len() - k,
        {
            bytes.push((us[k] / 256) as u8);
            bytes.push((us[k] % 256) as u8);
            k = k + 1;
            assert(bytes@ =~= wide_bytes(us@.take(k as int)));
        }
        assert(us@.take(k as int) =~= us@);
        (bytes, 1)
    }
}

fn decode_latin1(bytes: &Vec<u8>) -> (r: String)
    ensures
        r@ == bytes@.map_values(|b: u8| b as char),
{
    let mut out: String = String::new();
    let mut i: usize = 0;
    while i < bytes.len()
        invariant
            i <= bytes@.len(),
            out@ == bytes@.take(i as int).map_values(|b: u8| b as char),
        decreases bytes@.len() - i,
    {
        out.push(scalar_char(bytes[i] as u32));
        i = i + 1;
        assert(out@ =~= bytes@.take(i as int).map_values(|b: u8| b as char));
    }
    assert(bytes@.take(i as int) =~= bytes@);
    out
}

fn scalar_char(x: u32) -> (r: char)
    requires
        is_scalar(x as int),
    ensures
        r == x as char,
{
    match char::from_u32(x) {
        Some(c) => c,
        None => '?',
    }
}

fn decode_utf16(bytes: &Vec<u8>) -> (r: String)
    ensures
        r@ == text_from(units_in(bytes@), 0),
{
    let n: usize = bytes.len() / 2;
    let ghost us = units_in(bytes@);
    let mut out: String = String::new();
    let mut i: usize = 0;
    while i < n
        invariant
            i <= n,
            n == bytes@.len() / 2,
            us == units_in(bytes@),
            out@ + text_from(us, i as int) == text_from(us, 0),
        decreases n - i,
    {
        let u: u16 = unit_at(bytes, i);
        let ghost before = out@;
        if u >= 0xD800 && u <= 0xDBFF && i + 1 < n {
            let w: u16 = unit_at(bytes, i + 1);
            if w >= 0xDC00 && w <= 0xDFFF {
                let c: char = scalar_char(0x10000 + (u as u32 - 0xD800) * 0x400 + (w as u32 - 0xDC00));
                assert(c == pair_char(u, w));
                out.push(c);
                assert(before + text_from(us, i as int) =~= out@ + text_from(us, i + 2));
                i = i + 2;
            } else {
                out.push('\u{FFFD}');
                assert(before + text_from(us, i as int) =~= out@ + text_from(us, i + 1));
                i = i + 1;
            }
        } else if u >= 0xD800 && u <= 0xDFFF {
            out.push('\u{FFFD}');
            assert(before + text_from(us, i as int) =~= out@ + text_from(us, i + 1));
            i = i + 1;
        } else {
            out.push(scalar_char(u as u32));
            assert(before + text_from(us, i as int) =~= out@ + text_from(us, i + 1));
            i = i + 1;
        }
    }
    assert(out@ =~= text_from(us, 0));
    out
}

fn unit_at(bytes: &Vec<u8>, i: usize) -> (r: u16)
    requires
        2 * i + 1 < bytes@.len(),
    ensures
        r == units_in(bytes@)[i as int],
{
    let n: usize = bytes.len();
    (bytes[2 * i] as u16) * 256 + (bytes[2 * i + 1] as u16)
}

/// The text that bytes and coder stand for.
pub fn decode(bytes: &Vec<u8>, coder: u8) -> (r: String)
    ensures
        r@ == decoded(bytes@, coder),
{
    if coder == 0 {
        decode_latin1(bytes)
    } else {
        decode_utf16(bytes)
    }
}

proof fn utf16_last(text: Seq<char>)
    requires
        text.len() > 0,
    ensures
        utf16(text) == units_of(text[0]) + utf16(text.drop_first()),
    decreases text.len(),
{
    if text.len() == 1 {
        assert(text.drop_last() =~= Seq::<char>::empty());
        assert(text.drop_first() =~= Seq::<char>::empty());
        assert(utf16(text) =~= units_of(text[0]) + utf16(text.drop_first()));
    } else {
        let t = text.drop_last();
        utf16_last(t);
        assert(t.drop_first() =~= text.drop_first().drop_last());
        assert(text.drop_first().last() == text.last());
        assert(utf16(text) =~= units_of(text[0]) + utf16(text.drop_first()));
    }
}

proof fn text_from_shift(a: Seq<u16>, b: Seq<u16>, at: int)
    requires
        0 <= at,
    ensures
        text_from(a + b, a.len() + at) == text_from(b, at),
    decreases b.len() - at,
{
    let s = a + b;
    if at < b.len() {
        assert(s[a.len() + at] == b[at]);
        if at + 1 < b.len() {
            assert(s[a.len() + at + 1] == b[at + 1]);
            text_from_shift(a, b, at + 2);
        }
        text_from_shift(a, b, at + 1);
    }
}

proof fn text_of_units(text: Seq<char>)
    ensures
        text_from(utf16(text), 0) == text,
    decreases text.len(),
{
    if text.len() == 0 {
        assert(text_from(utf16(text), 0) =~= text);
    } else {
        let c = text[0];
        let rest = text.drop_first();
        utf16_last(text);
        text_of_units(rest);
        let us = utf16(text);
        let r = utf16(rest);
        text_from_shift(units_of(c), r, 0);
        char_range(c);
        if (c as int) < 0x10000 {
            assert(us[0] == c as u16);
            assert(!is_high(us[0]) && !is_low(us[0]));
            assert(us[0] as char == c);
            assert(text_from(us, 0) == seq![c] + text_from(us, 1));
        } else {
            let v = c as int - 0x10000;
            assert(us[0] == (0xD800 + v / 0x400) as u16);
            assert(us[1] == (0xDC00 + v % 0x400) as u16);
            assert(is_high(us[0]) && is_low(us[1]));
            assert(pair_char(us[0], us[1]) == c);
            assert(text_from(us, 0) == seq![c] + text_from(us, 2));
        }
        assert(text_from(us, 0) =~= text);
    }
}

proof fn latin1_chars(text: Seq<char>)
    requires
        latin1(utf16(text)),
    ensures
        low_bytes(utf16(text)).map_values(|b: u8| b as char) == text,
    decreases text.len(),
{
    let us = utf16(text);
    if text.len() == 0 {
        assert(low_bytes(us).map_values(|b: u8| b as char) =~= text);
    } else {
        let t = text.drop_last();
        let c = text.last();
        let vs = utf16(t);
        assert(us == vs + units_of(c));
        assert(latin1(vs)) by {
            assert forall|i: int| 0 <= i < vs.len() implies #[trigger] vs[i] <= 0xFF by {
                assert(us[i] == vs[i]);
            }
        }
        latin1_chars(t);
        let n = vs.len() as int;
        char_range(c);
        assert(us[n] == units_of(c)[0]);
        assert(us[n] <= 0xFF);
        assert((c as int) < 0x10000);
        assert(us[n] == c as u16);
        assert((us[n] % 256) as u8 as char == c);
        assert(low_bytes(us) =~= low_bytes(vs).push((us[n] % 256) as u8));
        let f = |b: u8| b as char;
        assert(low_bytes(us).map_values(f) =~= low_bytes(vs).map_values(f).push(c));
        assert(text =~= t.push(c));
    }
}

proof fn units_of_bytes(units: Seq<u16>)
    ensures
        units_in(wide_bytes(units)) == units,
{
    let b = wide_bytes(units);
    assert(units_in(b).len() == units.len());
    assert forall|i: int| 0 <= i < units.len() implies units_in(b)[i] == units[i] by {
        assert((2 * i) % 2 == 0 && (2 * i) / 2 == i);
        assert((2 * i + 1) % 2 == 1 && (2 * i + 1) / 2 == i);
        assert(b[2 * i] == (units[i] / 256) as u8);
        assert(b[2 * i + 1] == (units[i] % 256) as u8);
    }
    assert(units_in(b) =~= units);
}

/// Decoding gives back the text that was encoded.
pub proof fn law_decode_encode(text: Seq<char>)
    ensures
        decoded(encoded(text).0, encoded(text).1) == text,
{
    if latin1(utf16(text)) {
        latin1_chars(text);
    } else {
        text_of_units(text);
        units_of_bytes(utf16(text));
    }
}

} // verus!
