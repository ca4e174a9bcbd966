//! How text is held in a `java/lang/String`.

use vstd::prelude::*;

use super::heap::handle_space;
use super::oop::{slot_or_top, Object};
use super::slot::{Reference, Slot};
use super::string::{build_layout, built, byte_slots, interned, low_byte, signed, slot_bytes, text_at};
use super::text::{begins_with, replaced};
use super::utf16::{decoded, encoded, units_of, utf16};
use super::value::VmError;
use super::vm::State;
use crate::metadata::class_registry::LoadedClass;

verus! {

/// A character up to U+FFFF is one UTF-16 unit, its number; any other is two: the first tells the upper, the second the
/// lower ten bits of its number less 0x10000.
pub proof fn law_units(c: char)
    ensures
        c as int <= 0xFFFF ==> units_of(c).len() == 1 && units_of(c)[0] == c as int,
        c as int > 0xFFFF ==> {
            let u = units_of(c);
            &&& u.len() == 2
            &&& 0xD800 <= u[0] <= 0xDBFF
            &&& 0xDC00 <= u[1] <= 0xDFFF
            &&& 0x10000 + (u[0] - 0xD800) * 1024 + (u[1] - 0xDC00) == c as int
        },
{
    if c as int > 0xFFFF {
        let n = c as int - 0x10000;
        assert(n <= 0xFFFFF);
        assert(n / 0x400 <= 0x3FF && 0 <= n % 0x400 < 0x400 && n == (n / 0x400) * 0x400 + n % 0x400);
    }
}

/// The units of a text are those of its characters, one after the other.
pub proof fn law_units_in_order(text: Seq<char>, c: char)
    ensures
        utf16(Seq::<char>::empty()) == Seq::<u16>::empty(),
        utf16(text.push(c)) == utf16(text) + units_of(c),
{
    assert(text.push(c).drop_last() =~= text);
}

/// A text whose units all fit a byte is held with coder 0, one byte for each; any other with coder 1, two bytes for each
/// unit, the high byte first.
pub proof fn law_bytes_of_a_text(text: Seq<char>, i: int)
    requires
        0 <= i < utf16(text).len(),
    ensures
        ({
            let u = utf16(text);
            let (bytes, coder) = encoded(text);
            let narrow = forall|j: int| 0 <= j < u.len() ==> #[trigger] u[j] <= 255;
            &&& narrow ==> coder == 0 && bytes.len() == u.len() && bytes[i] == u[i]
            &&& !narrow ==> coder == 1 && bytes.len() == 2 * u.len() && u[i] == bytes[2 * i] * 256 + bytes[2 * i + 1]
        }),
{
    let u = utf16(text);
    assert((2 * i) % 2 == 0 && (2 * i) / 2 == i);
    assert((2 * i + 1) % 2 == 1 && (2 * i + 1) / 2 == i);
    if forall|j: int| 0 <= j < u.len() ==> #[trigger] u[j] <= 255 {
        assert(u[i] <= 255);
    }
}

/// Bytes are held as signed numbers, from -128 to 127, and read back modulo 256.
pub proof fn law_signed_bytes(bytes: Seq<u8>, i: int, v: i32)
    requires
        0 <= i < bytes.len(),
    ensures
        -128 <= signed(bytes[i]) <= 127,
        (signed(bytes[i]) - bytes[i]) % 256 == 0,
        byte_slots(bytes).len() == bytes.len(),
        byte_slots(bytes)[i] == Slot::Int(signed(bytes[i])),
        (v - low_byte(v)) % 256 == 0,
        slot_bytes(byte_slots(bytes)) == bytes,
{
    assert forall|j: int| 0 <= j < bytes.len() implies slot_bytes(byte_slots(bytes))[j] == bytes[j] by {
        let b = bytes[j];
        assert(byte_slots(bytes)[j] == Slot::Int(signed(b)));
        assert((b - 256) % 256 == b) by {
            assert(0 <= b < 256);
        }
    }
    assert(slot_bytes(byte_slots(bytes)) =~= bytes);
}

/// Text with coder 0 is read byte by byte; with any other coder by units of two bytes, the high byte first: a unit that
/// is no half of a pair is its character, a pair is one character, and a half without the other is U+FFFD.
pub proof fn law_reading_bytes(bytes: Seq<u8>, hi: u8, lo: u8, c: char)
    ensures
        decoded(bytes, 0).len() == bytes.len(),
        forall|i: int| 0 <= i < bytes.len() ==> (#[trigger] decoded(bytes, 0)[i]) as int == bytes[i],
        decoded(Seq::<u8>::empty(), 1) == Seq::<char>::empty(),
        !(0xD8 <= hi <= 0xDF) ==> decoded(seq![hi, lo], 1).len() == 1 && decoded(seq![hi, lo], 1)[0] as int == hi * 256
            + lo,
        0xD8 <= hi <= 0xDF ==> decoded(seq![hi, lo], 1) == seq!['\u{FFFD}'],
{
    let two = seq![hi, lo];
    let u = super::utf16::units_in(two);
    assert(u.len() == 1);
    assert(u[0] == hi * 256 + lo);
    reveal_with_fuel(super::utf16::text_from, 3);
    assert(super::utf16::text_from(u, 1) =~= Seq::<char>::empty());
    assert(super::utf16::units_in(Seq::<u8>::empty()).len() == 0);
}

/// A string that is built is a new instance of `java/lang/String` whose `value` is a `byte` array of its bytes and whose
/// `coder` says how to read them; every object that was there before stays as it was.
pub proof fn law_built_strings(s: State, text: Seq<char>, other: Reference)
    requires
        built(s, text).1 is Ok,
        s.vm.heap.len() + 2 <= handle_space(),
    ensures
        ({
            let (t, r) = built(s, text);
            let (bytes, coder) = encoded(text);
            let c = s.class("java/lang/String"@)->0;
            let v = c.typed_ord_of("value"@, "[B"@)->0;
            let k = c.typed_ord_of("coder"@, "B"@)->0;
            &&& s.class("java/lang/String"@) is Some
            &&& s.object(r->Ok_0) is None
            &&& t.object(r->Ok_0) is Some && t.object(r->Ok_0)->0 is Instance
            &&& t.object(r->Ok_0)->0->Instance_class == "java/lang/String"@
            &&& slot_or_top(t.object(r->Ok_0)->0->fields, k) == Slot::Int(coder as i32)
            &&& slot_or_top(t.object(r->Ok_0)->0->fields, v) is Reference
            &&& t.object(slot_or_top(t.object(r->Ok_0)->0->fields, v)->Reference_0) == Some(
                (Object::Array { class: "[B"@, elements: byte_slots(bytes) }),
            )
            &&& s.object(other) is Some ==> t.object(other) == s.object(other)
            &&& t.vm.strings == s.vm.strings
        }),
{
    super::string::layout_positions(s);
    let (c, v, k) = build_layout(s)->Ok_0;
    let (t, r) = built(s, text);
    let value = Reference(Some(s.vm.heap.len() as u32));
    assert(t.object(value) == Some((Object::Array { class: "[B"@, elements: byte_slots(encoded(text).0) })));
}

/// Only an instance of `java/lang/String` has a text.
pub proof fn law_what_has_a_text(s: State, r: Reference)
    ensures
        text_at(s, r) matches Ok(Some(_)) ==> (s.object(r) matches Some(Object::Instance { class, .. }) && class
            == "java/lang/String"@),
        s.object(r) is None ==> text_at(s, r) == Ok::<Option<Seq<char>>, VmError>(None),
{
}

/// A text is interned once: the first time a string is built, from then on that one is given; a text that is interned
/// already is not built again. No other text is affected.
pub proof fn law_interning(s: State, text: Seq<char>, other: Seq<char>)
    requires
        interned(s, text).1 is Ok,
    ensures
        s.vm.strings.contains_key(text) ==> interned(s, text) == (s, Ok::<Reference, VmError>(s.vm.strings[text])),
        !s.vm.strings.contains_key(text) ==> interned(s, text).1 == built(s, text).1 && interned(s, text).0.vm.heap
            == built(s, text).0.vm.heap,
        interned(s, text).0.vm.strings.get(text) == Some(interned(s, text).1->Ok_0),
        other != text ==> interned(s, text).0.vm.strings.get(other) == s.vm.strings.get(other),
{
}

/// Replacing a character keeps the length and every other character; a text begins with its first character.
pub proof fn law_characters(text: Seq<char>, from: char, to: char, c: char)
    ensures
        replaced(text, from, to).len() == text.len(),
        forall|i: int| 0 <= i < text.len() && text[i] == from ==> #[trigger] replaced(text, from, to)[i] == to,
        forall|i: int| 0 <= i < text.len() && text[i] != from ==> #[trigger] replaced(text, from, to)[i] == text[i],
        begins_with(text, c) == (exists|rest: Seq<char>| text == #[trigger] (seq![c] + rest)),
{
    if begins_with(text, c) {
        assert(text =~= seq![c] + text.skip(1));
    }
    if exists|rest: Seq<char>| text == #[trigger] (seq![c] + rest) {
        let rest = choose|rest: Seq<char>| text == #[trigger] (seq![c] + rest);
        assert((seq![c] + rest)[0] == c);
    }
}

/// Without the classes, or with a string class that lacks one of its two fields, no string can be built, which is named,
/// and nothing changes.
pub proof fn law_strings_that_cannot_be_built(s: State, text: Seq<char>, class: LoadedClass)
    requires
        s.pending_initializer("java/lang/String"@) is None,
    ensures
        s.vm.registry is None ==> built(s, text) == (
            s,
            Err::<Reference, VmError>(VmError::BadConstant("构造 String 需类注册表")),
        ),
        s.vm.registry is Some && s.class("java/lang/String"@) is None ==> built(s, text) == (
            s,
            Err::<Reference, VmError>(VmError::BadConstant("java/lang/String 未加载(原始类须预载)")),
        ),
        s.class("java/lang/String"@) == Some(class) && class.typed_ord_of("value"@, "[B"@) is None ==> built(s, text) == (
            s,
            Err::<Reference, VmError>(VmError::BadConstant("String.value 字段未找到")),
        ),
        s.class("java/lang/String"@) == Some(class) && class.typed_ord_of("value"@, "[B"@) is Some && class.typed_ord_of(
            "coder"@,
            "B"@,
        ) is None ==> built(s, text) == (
            s,
            Err::<Reference, VmError>(VmError::BadConstant("String.coder 字段未找到")),
        ),
        !s.vm.strings.contains_key(text) && built(s, text).1 is Err ==> interned(s, text) == built(s, text),
{
}

/// Without the classes, or with a string class that lacks one of its two fields, no string can be read, which is named;
/// a string whose fields do not hold an array and a number has no text, nor has any other object.
pub proof fn law_strings_that_cannot_be_read(s: State, r: Reference, fields: Seq<Slot>, class: LoadedClass)
    ensures
        s.object(r) == Some((Object::Instance { class: "java/lang/String"@, fields })) ==> {
            let t = text_at(s, r);
            let value = class.typed_ord_of("value"@, "[B"@);
            let coder = class.typed_ord_of("coder"@, "B"@);
            &&& s.vm.registry is None ==> t == Err::<Option<Seq<char>>, VmError>(
                VmError::BadConstant("读 String 文本需类注册表"),
            )
            &&& s.vm.registry is Some && s.class("java/lang/String"@) is None ==> t == Err::<Option<Seq<char>>, VmError>(
                VmError::BadConstant("java/lang/String 未加载"),
            )
            &&& s.class("java/lang/String"@) == Some(class) && value is None ==> t == Err::<Option<Seq<char>>, VmError>(
                VmError::BadConstant("String.value 字段未找到"),
            )
            &&& s.class("java/lang/String"@) == Some(class) && value is Some && coder is None ==> t == Err::<
                Option<Seq<char>>,
                VmError,
            >(VmError::BadConstant("String.coder 字段未找到"))
            &&& s.class("java/lang/String"@) == Some(class) && value is Some && coder is Some ==> {
                let held = slot_or_top(fields, value->0);
                &&& !(held is Reference) || !(slot_or_top(fields, coder->0) is Int) ==> t == Ok::<
                    Option<Seq<char>>,
                    VmError,
                >(None)
                &&& held is Reference && !(s.object(held->Reference_0) matches Some(Object::Array { .. })) ==> t == Ok::<
                    Option<Seq<char>>,
                    VmError,
                >(None)
                &&& held is Reference && slot_or_top(fields, coder->0) is Int && (s.object(
                    held->Reference_0,
                ) matches Some(Object::Array { .. })) ==> t matches Ok(Some(_))
            }
        },
        !(s.object(r) matches Some(Object::Instance { class: c, .. }) && c == "java/lang/String"@) ==> text_at(s, r)
            == Ok::<Option<Seq<char>>, VmError>(None),
{
}

} // verus!
