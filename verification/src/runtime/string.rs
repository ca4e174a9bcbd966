//! Real `java/lang/String` instances: building, interning and reading back.

use vstd::prelude::*;

use super::heap::handle_space;
use super::oop::{slot_or_top, with_slot, ArrayOop, InstanceOop, Object, Oop};
use super::slot::{Reference, Slot};
use super::text::{first_index, is_first, str_eq};
use super::utf16::{decode, decoded, encoded, law_decode_encode};
use super::value::VmError;
use super::vm::{Shared, State, VmThread};
use crate::metadata::class_registry::{default_fields, is_typed_first, LoadedClass};

pub use super::utf16::encode;

verus! {

broadcast use super::oop::oop_variant;

/// A byte as the signed value that a `byte` array holds.
pub open spec fn signed(b: u8) -> i32 {
    if b < 128 {
        b as i32
    } else {
        (b - 256) as i32
    }
}

/// The lowest eight bits of a value.
pub open spec fn low_byte(v: i32) -> u8 {
    (v as int % 256) as u8
}

/// Elements of the `byte` array that holds `bytes`.
pub open spec fn byte_slots(bytes: Seq<u8>) -> Seq<Slot> {
    bytes.map_values(|b: u8| Slot::Int(signed(b)))
}

/// The bytes in the elements of a `byte` array.
pub open spec fn slot_bytes(elements: Seq<Slot>) -> Seq<u8> {
    elements.map_values(
        |e: Slot|
            match e {
                Slot::Int(v) => low_byte(v),
                _ => 0u8,
            },
    )
}

/// The string class and the positions of its `value` and `coder` fields; the two errors are those for
/// a missing registry and a missing class.
pub open spec fn string_layout(s: State, no_registry: VmError, no_class: VmError) -> Result<
    (LoadedClass, int, int),
    VmError,
> {
    if s.vm.registry is None {
        Err(no_registry)
    } else {
        match s.class("java/lang/String"@) {
            None => Err(no_class),
            Some(c) => match (c.typed_ord_of("value"@, "[B"@), c.typed_ord_of("coder"@, "B"@)) {
                (None, _) => Err(VmError::BadConstant("String.value 字段未找到")),
                (_, None) => Err(VmError::BadConstant("String.coder 字段未找到")),
                (Some(v), Some(k)) => Ok((c, v, k)),
            },
        }
    }
}

/// Layout for building strings.
pub open spec fn build_layout(s: State) -> Result<(LoadedClass, int, int), VmError> {
    string_layout(
        s,
        VmError::BadConstant("构造 String 需类注册表"),
        VmError::BadConstant("java/lang/String 未加载(原始类须预载)"),
    )
}

/// Layout for reading strings.
pub open spec fn read_layout(s: State) -> Result<(LoadedClass, int, int), VmError> {
    string_layout(
        s,
        VmError::BadConstant("读 String 文本需类注册表"),
        VmError::BadConstant("java/lang/String 未加载"),
    )
}

/// A new string instance of `text`: the state after it and the reference.
pub open spec fn built(s: State, text: Seq<char>) -> (State, Result<Reference, VmError>) {
    match s.pending_initializer("java/lang/String"@) {
        Some(i) => (s, Err(VmError::InitializerPending(i as usize))),
        None => match build_layout(s) {
            Err(e) => (s, Err(e)),
            Ok((c, v, k)) => {
                let (bytes, coder) = encoded(text);
                let (s1, value) = s.alloc_object(
                    Object::Array { class: "[B"@, elements: byte_slots(bytes) },
                );
                let fields = with_slot(
                    with_slot(default_fields(c.instance_fields@), v, Slot::Reference(value)),
                    k,
                    Slot::Int(coder as i32),
                );
                let (s2, r) = s1.alloc_object(Object::Instance { class: c.name@, fields });
                (s2, Ok(r))
            },
        },
    }
}

/// Whether the static initializer of the string class has to run before `text` can be interned, and if so the
/// place of the class.
pub open spec fn text_pending(s: State, text: Seq<char>) -> Option<int> {
    if s.vm.strings.contains_key(text) {
        None
    } else {
        s.pending_initializer("java/lang/String"@)
    }
}

/// The interned string of `text`: the state after it and the reference.
pub open spec fn interned(s: State, text: Seq<char>) -> (State, Result<Reference, VmError>) {
    if s.vm.strings.contains_key(text) {
        (s, Ok(s.vm.strings[text]))
    } else {
        match built(s, text) {
            (t, Ok(r)) => (
                State { vm: Shared { strings: t.vm.strings.insert(text, r), ..t.vm }, ..t },
                Ok(r),
            ),
            (t, Err(e)) => (t, Err(e)),
        }
    }
}

/// The outcome of what has to wait for the static initializer of the class at `i`: nothing has changed, and once
/// the initializer has run it can be tried again.
pub open spec fn held_up<T>(s: State, i: int) -> (State, Result<T, VmError>) {
    (s, Err(VmError::InitializerPending(i as usize)))
}

/// The text of the string behind `r`; `None` if `r` is no intact string.
pub open spec fn text_at(s: State, r: Reference) -> Result<Option<Seq<char>>, VmError> {
    match s.object(r) {
        Some(Object::Instance { class, fields }) => if class == "java/lang/String"@ {
            match read_layout(s) {
                Err(e) => Err(e),
                Ok((_, v, k)) => match (slot_or_top(fields, v), slot_or_top(fields, k)) {
                    (Slot::Reference(value), Slot::Int(coder)) => match s.object(value) {
                        Some(Object::Array { elements, .. }) => Ok(
                            Some(decoded(slot_bytes(elements), low_byte(coder))),
                        ),
                        _ => Ok(None),
                    },
                    _ => Ok(None),
                },
            }
        } else {
            Ok(None)
        },
        _ => Ok(None),
    }
}

/// The model of what [`read_text`] returns.
pub open spec fn text_result(r: Result<Option<String>, VmError>) -> Result<Option<Seq<char>>, VmError> {
    match r {
        Ok(Some(t)) => Ok(Some(t@)),
        Ok(None) => Ok(None),
        Err(e) => Err(e),
    }
}

fn byte_elements(bytes: &Vec<u8>) -> (r: Vec<Slot>)
    ensures
        r@ == byte_slots(bytes@),
{
    let mut out: Vec<Slot> = Vec::new();
    let mut i: usize = 0;
    while i < bytes.len()
        invariant
            i <= bytes@.len(),
            out@ == byte_slots(bytes@.take(i as int)),
        decreases bytes@.len() - i,
    {
        let b: u8 = bytes[i];
        let v: i32 = if b < 128 {
            b as i32
        } else {
            b as i32 - 256
        };
        out.push(Slot::Int(v));
        i = i + 1;
        assert(out@ =~= byte_slots(bytes@.take(i as int)));
    }
    assert(bytes@.take(i as int) =~= bytes@);
    out
}

fn truncate_byte(v: i32) -> (r: u8)
    ensures
        r == low_byte(v),
{
    let shifted: u64 = (v as i64 + 0x8000_0000i64) as u64;
    (shifted % 256) as u8
}

fn element_bytes(a: &ArrayOop) -> (r: Vec<u8>)
    ensures
        a@ is Array,
        r@ == slot_bytes(a@->elements),
{
    let n: usize = a.length();
    let mut out: Vec<u8> = Vec::new();
    let mut i: usize = 0;
    while i < n
        invariant
            a@ is Array,
            n == a@->elements.len(),
            i <= n,
            out@ == slot_bytes(a@->elements.take(i as int)),
        decreases n - i,
    {
        let b: u8 = match a.element(i) {
            Slot::Int(v) => truncate_byte(v),
            _ => 0,
        };
        out.push(b);
        i = i + 1;
        assert(out@ =~= slot_bytes(a@->elements.take(i as int)));
    }
    assert(a@->elements.take(i as int) =~= a@->elements);
    out
}

/// Positions of the `value` and `coder` fields, with the errors for a missing registry and class.
fn layout(vm: &VmThread, no_registry: VmError, no_class: VmError) -> (r: Result<(&LoadedClass, usize, usize), VmError>)
    ensures
        match r {
            Ok((c, v, k)) => string_layout(vm@, no_registry, no_class) == Ok::<(LoadedClass, int, int), VmError>(
                (*c, v as int, k as int),
            ),
            Err(e) => string_layout(vm@, no_registry, no_class) == Err::<(LoadedClass, int, int), VmError>(e),
        },
{
    match vm.registry() {
        None => Err(no_registry),
        Some(reg) => match reg.get("java/lang/String") {
            None => Err(no_class),
            Some(c) => match c.typed_field_index("value", "[B") {
                None => Err(VmError::BadConstant("String.value 字段未找到")),
                Some(v) => match c.typed_field_index("coder", "B") {
                    None => Err(VmError::BadConstant("String.coder 字段未找到")),
                    Some(k) => Ok((c, v, k)),
                },
            },
        },
    }
}

/// Builds a new string instance of `text`.
pub fn build(vm: &mut VmThread, text: &str) -> (r: Result<Reference, VmError>)
    ensures
        (final(vm)@, r) == built(old(vm)@, text@),
{
    match vm.ensure_class_initialized("java/lang/String") {
        Ok(_) => {},
        Err(e) => {
            return Err(e);
        },
    }
    let (bytes, coder) = encode(text);
    let (mut inst, v, k) = match layout(
        vm,
        VmError::BadConstant("构造 String 需类注册表"),
        VmError::BadConstant("java/lang/String 未加载(原始类须预载)"),
    ) {
        Ok((c, v, k)) => (c.new_instance(), v, k),
        Err(e) => {
            return Err(e);
        },
    };
    let elements: Vec<Slot> = byte_elements(&bytes);
    let value: Reference = vm.alloc_object(Oop::Array(ArrayOop::new("[B".to_owned(), elements)));
    inst.set_field(v, Slot::Reference(value));
    inst.set_field(k, Slot::Int(coder as i32));
    Ok(vm.alloc_object(Oop::Instance(inst)))
}

/// Whether `text` can be interned at once; the error names the class whose initializer has to run first.
pub fn ensure_text_ready(vm: &VmThread, text: &str) -> (r: Result<(), VmError>)
    ensures
        match text_pending(vm@, text@) {
            Some(i) => r == Err::<(), VmError>(VmError::InitializerPending(i as usize)),
            None => r == Ok::<(), VmError>(()),
        },
{
    match vm.pooled(text) {
        Some(_) => Ok(()),
        None => vm.ensure_class_initialized("java/lang/String"),
    }
}

/// The interned string of `text`: always the same reference for the same text.
pub fn intern(vm: &mut VmThread, text: &str) -> (r: Result<Reference, VmError>)
    ensures
        (final(vm)@, r) == interned(old(vm)@, text@),
{
    match vm.pooled(text) {
        Some(r) => Ok(r),
        None => match build(vm, text) {
            Ok(r) => {
                vm.pool(text, r);
                Ok(r)
            },
            Err(e) => Err(e),
        },
    }
}

/// Reads the text of the string behind `r`; `None` if `r` is no intact string.
pub fn read_text(vm: &VmThread, r: Reference) -> (t: Result<Option<String>, VmError>)
    ensures
        text_result(t) == text_at(vm@, r),
{
    let inst: &InstanceOop = match vm.heap().get(r) {
        Some(Oop::Instance(i)) => if str_eq(i.class_name(), "java/lang/String") {
            i
        } else {
            return Ok(None);
        },
        _ => {
            return Ok(None);
        },
    };
    let (v, k) = match layout(
        vm,
        VmError::BadConstant("读 String 文本需类注册表"),
        VmError::BadConstant("java/lang/String 未加载"),
    ) {
        Ok((_, v, k)) => (v, k),
        Err(e) => {
            return Err(e);
        },
    };
    let value: Reference = match inst.field(v) {
        Slot::Reference(value) => value,
        _ => {
            return Ok(None);
        },
    };
    let coder: u8 = match inst.field(k) {
        Slot::Int(c) => truncate_byte(c),
        _ => {
            return Ok(None);
        },
    };
    match vm.heap().get(value) {
        Some(Oop::Array(a)) => {
            let raw: Vec<u8> = element_bytes(a);
            Ok(Some(decode(&raw, coder)))
        },
        _ => Ok(None),
    }
}

proof fn low_byte_of_signed(b: u8)
    ensures
        low_byte(signed(b)) == b,
{
}

proof fn bytes_survive(bytes: Seq<u8>)
    ensures
        slot_bytes(byte_slots(bytes)) == bytes,
{
    assert forall|i: int| 0 <= i < bytes.len() implies slot_bytes(byte_slots(bytes))[i] == bytes[i] by {
        low_byte_of_signed(bytes[i]);
    }
    assert(slot_bytes(byte_slots(bytes)) =~= bytes);
}

proof fn value_is_not_coder()
    ensures
        "value"@ != "coder"@,
{
    reveal_strlit("value");
    reveal_strlit("coder");
    assert("value"@[0] == 'v');
    assert("coder"@[0] == 'c');
}

/// The positions of the two fields of a string are those of different fields.
pub(crate) proof fn layout_positions(s: State)
    requires
        build_layout(s) is Ok,
    ensures
        ({
            let (c, v, k) = build_layout(s)->Ok_0;
            &&& 0 <= v < c.instance_fields@.len()
            &&& 0 <= k < c.instance_fields@.len()
            &&& v != k
            &&& c.name@ == "java/lang/String"@
            &&& read_layout(s) == build_layout(s)
        }),
{
    let (c, v, k) = build_layout(s)->Ok_0;
    assert(is_typed_first(c.instance_fields@, "value"@, "[B"@, v));
    assert(is_typed_first(c.instance_fields@, "coder"@, "B"@, k));
    value_is_not_coder();
    let reg = s.vm.registry->0;
    let cs = crate::metadata::class_registry::class_names(reg.classes());
    assert(first_index(cs, "java/lang/String"@) is Some);
    let i = first_index(cs, "java/lang/String"@)->0;
    assert(is_first(cs, "java/lang/String"@, i));
    assert(cs[i] == c.name@);
}

/// A string that was built reads back as the text that it was built from, as long as the heap had room
/// for its two objects.
pub proof fn law_built_string_reads_back(s: State, text: Seq<char>)
    requires
        built(s, text).1 is Ok,
        s.vm.heap.len() + 2 <= handle_space(),
    ensures
        text_at(built(s, text).0, built(s, text).1->Ok_0) == Ok::<Option<Seq<char>>, VmError>(Some(text)),
{
    layout_positions(s);
    let (c, v, k) = build_layout(s)->Ok_0;
    let (bytes, coder) = encoded(text);
    bytes_survive(bytes);
    law_decode_encode(text);
    let (t, r) = built(s, text);
    assert(read_layout(t) == read_layout(s));
    assert(t.object(r->Ok_0) is Some);
    assert(low_byte(coder as i32) == coder);
    let value = Reference(Some(s.vm.heap.len() as u32));
    assert(t.object(value) == Some(Object::Array { class: "[B"@, elements: byte_slots(bytes) }));
}

/// Interning a text twice gives one reference, and the second time nothing changes.
pub proof fn law_intern_is_stable(s: State, text: Seq<char>)
    requires
        interned(s, text).1 is Ok,
    ensures
        interned(interned(s, text).0, text) == interned(s, text),
{
}

/// Whether every interned string reads back as its text.
pub open spec fn pool_reads_back(s: State) -> bool {
    forall|t: Seq<char>|
        #[trigger] s.vm.strings.contains_key(t) ==> text_at(s, s.vm.strings[t]) == Ok::<
            Option<Seq<char>>,
            VmError,
        >(Some(t))
}

/// A string keeps its text while objects are added to the heap.
pub proof fn law_text_survives_allocation(s: State, t: State, r: Reference, text: Seq<char>)
    requires
        text_at(s, r) == Ok::<Option<Seq<char>>, VmError>(Some(text)),
        t.vm.registry == s.vm.registry,
        s.vm.heap.len() <= t.vm.heap.len(),
        t.vm.heap.take(s.vm.heap.len() as int) == s.vm.heap,
    ensures
        text_at(t, r) == Ok::<Option<Seq<char>>, VmError>(Some(text)),
{
    let n = s.vm.heap.len() as int;
    assert forall|x: Reference| s.object(x) is Some implies t.object(x) == s.object(x) by {
        assert(t.vm.heap.take(n)[x.0->0 as int] == t.vm.heap[x.0->0 as int]);
    }
    assert(read_layout(t) == read_layout(s));
}

/// Interning keeps every interned string intact and gives one that reads back as the text asked for.
pub proof fn law_interned_strings_read_back(s: State, text: Seq<char>)
    requires
        pool_reads_back(s),
        interned(s, text).1 is Ok,
        s.vm.heap.len() + 2 <= handle_space(),
    ensures
        pool_reads_back(interned(s, text).0),
        text_at(interned(s, text).0, interned(s, text).1->Ok_0) == Ok::<Option<Seq<char>>, VmError>(Some(text)),
{
    let (t, r) = interned(s, text);
    if !s.vm.strings.contains_key(text) {
        law_built_string_reads_back(s, text);
        let b = built(s, text).0;
        assert(b.vm.heap.take(s.vm.heap.len() as int) =~= s.vm.heap);
        assert(t.vm.heap == b.vm.heap);
        assert(text_at(t, r->Ok_0) == text_at(b, r->Ok_0)) by {
            assert(read_layout(t) == read_layout(b));
        }
        assert forall|k: Seq<char>| #[trigger] t.vm.strings.contains_key(k) implies text_at(t, t.vm.strings[k])
            == Ok::<Option<Seq<char>>, VmError>(Some(k)) by {
            if k != text {
                assert(s.vm.strings.contains_key(k));
                law_text_survives_allocation(s, t, s.vm.strings[k], k);
            }
        }
    }
}

/// Interning has to wait for an initializer exactly if one is pending for the text, and nothing has changed then.
pub proof fn law_interning_waits_for_the_string_class(s: State, text: Seq<char>)
    ensures
        text_pending(s, text) matches Some(i) ==> interned(s, text) == held_up::<Reference>(s, i),
        text_pending(s, text) is None ==> !(interned(s, text).1 matches Err(VmError::InitializerPending(_))),
{
}

} // verus!
