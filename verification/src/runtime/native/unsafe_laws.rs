//! How the offsets and scales that `Unsafe` answers lead to fields and array elements.

use vstd::prelude::*;

use super::java_lang::{self, JavaLang};
use super::jdk_internal::{element_index, index_scale, law_offset_of_element, outcome, scale_of, JdkInternal};
use super::step::Step;
use crate::metadata::descriptor::{descriptor, Type};
use crate::runtime::oop::{slot_or_top, Object};
use crate::runtime::slot::{Reference, Slot};
use crate::runtime::string::text_at;
use crate::runtime::value::{Value, VmError};
use crate::runtime::vm::class_mirrors::name_of;
use crate::runtime::vm::exceptions::thrown;
use crate::runtime::vm::State;

verus! {

/// Outcome of a native method of `Unsafe` that changes nothing.
pub open spec fn answers(s: State, native: JdkInternal, args: Seq<Value>, v: Value) -> bool {
    outcome(s, native, args) == (s, Step::Done(Ok::<Value, VmError>(v)))
}

/// Whether a native method of `Unsafe` threw an exception of `class`.
pub open spec fn raises(s: State, native: JdkInternal, args: Seq<Value>, class: Seq<char>) -> bool {
    outcome(s, native, args) == (
        thrown(s, class).0,
        Step::Done(Err::<Value, VmError>(VmError::ThrownException(thrown(s, class).1))),
    )
}

/// Name of the class of arrays with components of a type.
pub open spec fn array_class(t: Type) -> Seq<char> {
    seq!['['] + descriptor(t)
}

proof fn scales(t: Type)
    ensures
        index_scale(Some(array_class(t))) == scale_of(array_class(t)),
        scale_of(array_class(t)) == match t {
            Type::Char | Type::Short => 2int,
            Type::Int | Type::Float => 4int,
            Type::Long | Type::Double => 8int,
            _ => 1int,
        },
{
    reveal_strlit("[B");
    reveal_strlit("[Z");
    reveal_strlit("[C");
    reveal_strlit("[S");
    reveal_strlit("[I");
    reveal_strlit("[F");
    reveal_strlit("[J");
    reveal_strlit("[D");
    let n = array_class(t);
    let d = descriptor(t);
    assert(n[0] == '[' && n.skip(1) =~= d);
    match t {
        Type::Class(c) => {
            assert(d[0] == 'L');
            assert(n[1] == 'L');
            assert("[B"@[1] == 'B' && "[Z"@[1] == 'Z' && "[C"@[1] == 'C' && "[S"@[1] == 'S');
            assert("[I"@[1] == 'I' && "[F"@[1] == 'F' && "[J"@[1] == 'J' && "[D"@[1] == 'D');
        },
        Type::Array(c) => {
            assert(d[0] == '[');
            assert(n[1] == '[');
            assert("[B"@[1] == 'B' && "[Z"@[1] == 'Z' && "[C"@[1] == 'C' && "[S"@[1] == 'S');
            assert("[I"@[1] == 'I' && "[F"@[1] == 'F' && "[J"@[1] == 'J' && "[D"@[1] == 'D');
        },
        Type::Byte => {
            assert(n =~= "[B"@);
        },
        Type::Boolean => {
            assert(n =~= "[Z"@);
        },
        Type::Char => {
            assert(n =~= "[C"@);
            assert(n[1] == 'C' && "[B"@[1] == 'B' && "[Z"@[1] == 'Z');
        },
        Type::Short => {
            assert(n =~= "[S"@);
            assert(n[1] == 'S' && "[B"@[1] == 'B' && "[Z"@[1] == 'Z');
        },
        Type::Int => {
            assert(n =~= "[I"@);
            assert(n[1] == 'I' && "[B"@[1] == 'B' && "[Z"@[1] == 'Z' && "[C"@[1] == 'C' && "[S"@[1] == 'S');
        },
        Type::Float => {
            assert(n =~= "[F"@);
            assert(n[1] == 'F' && "[B"@[1] == 'B' && "[Z"@[1] == 'Z' && "[C"@[1] == 'C' && "[S"@[1] == 'S');
        },
        Type::Long => {
            assert(n =~= "[J"@);
            assert(n[1] == 'J' && "[B"@[1] == 'B' && "[Z"@[1] == 'Z' && "[C"@[1] == 'C' && "[S"@[1] == 'S');
            assert("[I"@[1] == 'I' && "[F"@[1] == 'F');
        },
        Type::Double => {
            assert(n =~= "[D"@);
            assert(n[1] == 'D' && "[B"@[1] == 'B' && "[Z"@[1] == 'Z' && "[C"@[1] == 'C' && "[S"@[1] == 'S');
            assert("[I"@[1] == 'I' && "[F"@[1] == 'F');
        },
    }
}

/// The scale that is answered for an array class is the number of bytes that a component takes in Java, and 1 for
/// references; the base offset is the same for all.
pub proof fn law_answered_scales(s: State, t: Type, mirror: Reference)
    requires
        name_of(s.vm.class_mirrors, mirror) == Some(array_class(t)),
    ensures
        answers(s, JdkInternal::ArrayBaseOffset, seq![Value::Reference(mirror)], Value::Int(16)),
        ({
            let scale = |k: i32|
                answers(s, JdkInternal::ArrayIndexScale, seq![Value::Reference(mirror)], Value::Int(k));
            match t {
                Type::Byte | Type::Boolean => scale(1),
                Type::Char | Type::Short => scale(2),
                Type::Int | Type::Float => scale(4),
                Type::Long | Type::Double => scale(8),
                Type::Class(_) | Type::Array(_) => scale(1),
            }
        }),
{
    scales(t);
}

/// Whether `offset` is the base offset plus `i` times the scale, both as they are answered for the array class.
pub open spec fn offset_of(s: State, mirror: Reference, i: int, offset: i64) -> bool {
    exists|base: i32, scale: i32|
        answers(s, JdkInternal::ArrayBaseOffset, seq![Value::Reference(mirror)], Value::Int(base)) && answers(
            s,
            JdkInternal::ArrayIndexScale,
            seq![Value::Reference(mirror)],
            Value::Int(scale),
        ) && #[trigger] pairs(base, scale) && offset == base + i * scale
}

/// A base offset and a scale.
pub open spec fn pairs(base: i32, scale: i32) -> bool {
    true
}

proof fn offset_leads_to(s: State, t: Type, mirror: Reference, i: int, offset: i64)
    requires
        name_of(s.vm.class_mirrors, mirror) == Some(array_class(t)),
        0 <= i,
        offset_of(s, mirror, i, offset),
    ensures
        element_index(array_class(t), offset) == i,
{
    scales(t);
    let (base, scale) = choose|base: i32, scale: i32|
        answers(s, JdkInternal::ArrayBaseOffset, seq![Value::Reference(mirror)], Value::Int(base)) && answers(
            s,
            JdkInternal::ArrayIndexScale,
            seq![Value::Reference(mirror)],
            Value::Int(scale),
        ) && #[trigger] pairs(base, scale) && offset == base + i * scale;
    assert(outcome(s, JdkInternal::ArrayIndexScale, seq![Value::Reference(mirror)]).1 == Step::Done(
        Ok::<Value, VmError>(Value::Int(index_scale(Some(array_class(t))))),
    ));
    assert(scale == scale_of(array_class(t)));
    law_offset_of_element(array_class(t), i, offset);
}

/// With the base offset and the scale that are answered for its class, base plus `i` times scale reaches element `i` of
/// an array: a read gives that element, a write changes that element and nothing else, and a compare and set acts on
/// that element and says whether it found the expected value. A read of another kind of value than the element holds
/// gives 0 or `null`.
pub proof fn law_offsets_reach_elements(
    s: State,
    t: Type,
    mirror: Reference,
    o: Reference,
    elements: Seq<Slot>,
    i: int,
    offset: i64,
    e: i32,
    x: i32,
    y: i64,
    z: i64,
    p: Reference,
    q: Reference,
)
    requires
        name_of(s.vm.class_mirrors, mirror) == Some(array_class(t)),
        s.object(o) == Some((Object::Array { class: array_class(t), elements })),
        0 <= i < elements.len(),
        offset_of(s, mirror, i, offset),
    ensures
        ({
            let place = seq![Value::Reference(o), Value::Long(offset)];
            let written = |slot: Slot|
                s.with_heap(
                    s.vm.heap.update(
                        o.0->0 as int,
                        Object::Array { class: array_class(t), elements: elements.update(i, slot) },
                    ),
                );
            let with = |a: Value| place.push(a);
            let with2 = |a: Value, b: Value| place.push(a).push(b);
            &&& answers(
                s,
                JdkInternal::GetIntVolatile,
                place,
                Value::Int(
                    match elements[i] {
                        Slot::Int(v) => v,
                        _ => 0,
                    },
                ),
            )
            &&& answers(
                s,
                JdkInternal::GetLongVolatile,
                place,
                Value::Long(
                    match elements[i] {
                        Slot::Long(v) => v,
                        _ => 0,
                    },
                ),
            )
            &&& answers(
                s,
                JdkInternal::GetReferenceVolatile,
                place,
                Value::Reference(
                    match elements[i] {
                        Slot::Reference(v) => v,
                        _ => Reference(None),
                    },
                ),
            )
            &&& outcome(s, JdkInternal::PutIntVolatile, with(Value::Int(x))) == (
                written(Slot::Int(x)),
                Step::Done(Ok(Value::Void)),
            )
            &&& outcome(s, JdkInternal::PutReferenceVolatile, with(Value::Reference(p))) == (
                written(Slot::Reference(p)),
                Step::Done(Ok(Value::Void)),
            )
            &&& outcome(s, JdkInternal::CompareAndSetInt, with2(Value::Int(e), Value::Int(x))) == if elements[i]
                == Slot::Int(e) {
                (written(Slot::Int(x)), Step::Done(Ok::<Value, VmError>(Value::Int(1))))
            } else {
                (s, Step::Done(Ok::<Value, VmError>(Value::Int(0))))
            }
            &&& outcome(s, JdkInternal::CompareAndSetLong, with2(Value::Long(y), Value::Long(z))) == if elements[i]
                == Slot::Long(y) {
                (written(Slot::Long(z)), Step::Done(Ok::<Value, VmError>(Value::Int(1))))
            } else {
                (s, Step::Done(Ok::<Value, VmError>(Value::Int(0))))
            }
            &&& outcome(s, JdkInternal::CompareAndSetReference, with2(Value::Reference(p), Value::Reference(q)))
                == if elements[i] == Slot::Reference(p) {
                (written(Slot::Reference(q)), Step::Done(Ok::<Value, VmError>(Value::Int(1))))
            } else {
                (s, Step::Done(Ok::<Value, VmError>(Value::Int(0))))
            }
            &&& outcome(s, JdkInternal::CompareAndExchangeInt, with2(Value::Int(e), Value::Int(x))) == match elements[i] {
                Slot::Int(v) => if v == e {
                    (written(Slot::Int(x)), Step::Done(Ok::<Value, VmError>(Value::Int(e))))
                } else {
                    (s, Step::Done(Ok::<Value, VmError>(Value::Int(v))))
                },
                _ => (s, Step::Done(Ok::<Value, VmError>(Value::Int(0)))),
            }
        }),
{
    offset_leads_to(s, t, mirror, i, offset);
}

/// An offset is the position of a field in an instance: a read gives that field, a write changes that field alone, and
/// a compare and set acts on it.
pub proof fn law_offsets_reach_fields(
    s: State,
    o: Reference,
    class: Seq<char>,
    fields: Seq<Slot>,
    offset: i64,
    e: i32,
    x: i32,
    y: i64,
    z: i64,
    p: Reference,
    q: Reference,
)
    requires
        s.object(o) == Some((Object::Instance { class, fields })),
        0 <= offset < fields.len(),
    ensures
        ({
            let place = seq![Value::Reference(o), Value::Long(offset)];
            let written = |slot: Slot|
                s.with_heap(
                    s.vm.heap.update(
                        o.0->0 as int,
                        Object::Instance { class, fields: fields.update(offset as int, slot) },
                    ),
                );
            let with = |a: Value| place.push(a);
            let with2 = |a: Value, b: Value| place.push(a).push(b);
            let field = fields[offset as int];
            &&& answers(
                s,
                JdkInternal::GetIntVolatile,
                place,
                Value::Int(
                    match field {
                        Slot::Int(v) => v,
                        _ => 0,
                    },
                ),
            )
            &&& answers(
                s,
                JdkInternal::GetLongVolatile,
                place,
                Value::Long(
                    match field {
                        Slot::Long(v) => v,
                        _ => 0,
                    },
                ),
            )
            &&& answers(
                s,
                JdkInternal::GetReferenceVolatile,
                place,
                Value::Reference(
                    match field {
                        Slot::Reference(v) => v,
                        _ => Reference(None),
                    },
                ),
            )
            &&& outcome(s, JdkInternal::PutIntVolatile, with(Value::Int(x))) == (
                written(Slot::Int(x)),
                Step::Done(Ok(Value::Void)),
            )
            &&& outcome(s, JdkInternal::PutReferenceVolatile, with(Value::Reference(p))) == (
                written(Slot::Reference(p)),
                Step::Done(Ok(Value::Void)),
            )
            &&& outcome(s, JdkInternal::CompareAndSetInt, with2(Value::Int(e), Value::Int(x))) == if field == Slot::Int(
                e,
            ) {
                (written(Slot::Int(x)), Step::Done(Ok::<Value, VmError>(Value::Int(1))))
            } else {
                (s, Step::Done(Ok::<Value, VmError>(Value::Int(0))))
            }
            &&& outcome(s, JdkInternal::CompareAndSetLong, with2(Value::Long(y), Value::Long(z))) == if field
                == Slot::Long(y) {
                (written(Slot::Long(z)), Step::Done(Ok::<Value, VmError>(Value::Int(1))))
            } else {
                (s, Step::Done(Ok::<Value, VmError>(Value::Int(0))))
            }
            &&& outcome(s, JdkInternal::CompareAndSetReference, with2(Value::Reference(p), Value::Reference(q)))
                == if field == Slot::Reference(p) {
                (written(Slot::Reference(q)), Step::Done(Ok::<Value, VmError>(Value::Int(1))))
            } else {
                (s, Step::Done(Ok::<Value, VmError>(Value::Int(0))))
            }
            &&& outcome(s, JdkInternal::CompareAndExchangeInt, with2(Value::Int(e), Value::Int(x))) == match field {
                Slot::Int(v) => if v == e {
                    (written(Slot::Int(x)), Step::Done(Ok::<Value, VmError>(Value::Int(e))))
                } else {
                    (s, Step::Done(Ok::<Value, VmError>(Value::Int(v))))
                },
                _ => (s, Step::Done(Ok::<Value, VmError>(Value::Int(0)))),
            }
        }),
{
}

/// A byte goes to and comes from the element whose index is the offset less the base offset. Before the first and
/// behind the last element there is an `ArrayIndexOutOfBoundsException`, and an `InternalError` on what is no array.
pub proof fn law_bytes(s: State, o: Reference, class: Seq<char>, elements: Seq<Slot>, offset: i64, b: i32)
    requires
        s.object(o) == Some((Object::Array { class, elements })),
    ensures
        ({
            let place = seq![Value::Reference(o), Value::Long(offset)];
            let i = offset - 16;
            &&& 0 <= i < elements.len() ==> outcome(s, JdkInternal::PutByte, place.push(Value::Int(b))) == (
                s.with_heap(
                    s.vm.heap.update(
                        o.0->0 as int,
                        Object::Array { class, elements: elements.update(i, Slot::Int(b)) },
                    ),
                ),
                Step::Done(Ok::<Value, VmError>(Value::Void)),
            )
            &&& 0 <= i < elements.len() && elements[i] is Int ==> answers(
                s,
                JdkInternal::GetByte,
                place,
                Value::Int(elements[i]->Int_0),
            )
            &&& !(0 <= i < elements.len()) ==> raises(
                s,
                JdkInternal::PutByte,
                place.push(Value::Int(b)),
                "java/lang/ArrayIndexOutOfBoundsException"@,
            ) && raises(s, JdkInternal::GetByte, place, "java/lang/ArrayIndexOutOfBoundsException"@)
        }),
{
}

/// A write that reaches no element is an `ArrayIndexOutOfBoundsException`, a read that reaches none gives 0 or `null`,
/// and a compare and set that reaches none does not succeed. On what is neither instance nor array a write is an
/// `InternalError`.
pub proof fn law_offsets_that_reach_nothing(
    s: State,
    t: Type,
    mirror: Reference,
    o: Reference,
    i: int,
    offset: i64,
    e: i32,
    x: i32,
    p: Reference,
)
    requires
        name_of(s.vm.class_mirrors, mirror) == Some(array_class(t)),
        s.object(o) matches Some(Object::Array { class, elements }) ==> class == array_class(t) && i >= elements.len(),
        !(s.object(o) matches Some(Object::Instance { .. })),
        0 <= i,
        offset_of(s, mirror, i, offset),
    ensures
        ({
            let place = seq![Value::Reference(o), Value::Long(offset)];
            let class = if s.object(o) matches Some(Object::Array { .. }) {
                "java/lang/ArrayIndexOutOfBoundsException"@
            } else {
                "java/lang/InternalError"@
            };
            &&& answers(s, JdkInternal::GetIntVolatile, place, Value::Int(0))
            &&& answers(s, JdkInternal::GetReferenceVolatile, place, Value::Reference(Reference(None)))
            &&& answers(
                s,
                JdkInternal::CompareAndSetInt,
                place.push(Value::Int(e)).push(Value::Int(x)),
                Value::Int(0),
            )
            &&& raises(s, JdkInternal::PutIntVolatile, place.push(Value::Int(x)), class)
            &&& raises(s, JdkInternal::PutReferenceVolatile, place.push(Value::Reference(p)), class)
        }),
{
    offset_leads_to(s, t, mirror, i, offset);
}

/// The offset of a field is its position among the instance fields of the class, -1 if the class has no such field.
pub proof fn law_answered_field_offsets(s: State, mirror: Reference, name: Reference, class: Seq<char>, field: Seq<char>)
    requires
        name_of(s.vm.class_mirrors, mirror) == Some(class),
        text_at(s, name) == Ok::<Option<Seq<char>>, VmError>(Some(field)),
        s.class(class) matches Some(c) ==> c.instance_fields@.len() <= i64::MAX,
    ensures
        outcome(s, JdkInternal::ObjectFieldOffset, seq![Value::Reference(mirror), Value::Reference(name)]).0 == s,
        match outcome(s, JdkInternal::ObjectFieldOffset, seq![Value::Reference(mirror), Value::Reference(name)]).1 {
            Step::Done(Ok(Value::Long(at))) => match s.class(class) {
                Some(c) => if at == -1 {
                    forall|j: int|
                        0 <= j < c.instance_fields@.len() ==> (#[trigger] c.instance_fields@[j]).name@ != field
                } else {
                    0 <= at < c.instance_fields@.len() && c.instance_fields@[at as int].name@ == field
                },
                None => at == -1,
            },
            _ => false,
        },
{
    match s.class(class) {
        Some(c) => crate::metadata::registry_laws::law_field_positions(c, field, field),
        None => {},
    }
}

/// Methods that have nothing to do, and methods that answer 0, whatever they are asked with.
pub proof fn law_answers_without_looking(s: State, args: Seq<Value>)
    ensures
        answers(s, JdkInternal::Nothing, args, Value::Void),
        answers(s, JdkInternal::ZeroInt, args, Value::Int(0)),
        answers(s, JdkInternal::ZeroLong, args, Value::Long(0)),
{
}

/// The counter for thread ids stands behind `null`, at the offset that `getNextThreadIdOffset` answers: there it is read,
/// and set if it is what was expected. Behind an object the same offset is one like any other.
pub proof fn law_counter_of_thread_ids(s: State, offset: i64, e: i64, x: i64, o: Reference, fields: Seq<Slot>, args: Seq<Value>)
    requires
        java_lang::outcome(s, JavaLang::NextThreadIdOffset, None, args).1 == Step::Done(
            Ok::<Value, VmError>(Value::Long(offset)),
        ),
    ensures
        ({
            let null = Value::Reference(Reference(None));
            let now = s.vm.next_tid as i64;
            let set = outcome(
                s,
                JdkInternal::CompareAndSetLong,
                seq![null, Value::Long(offset), Value::Long(e), Value::Long(x)],
            );
            &&& answers(s, JdkInternal::GetLongVolatile, seq![null, Value::Long(offset)], Value::Long(now))
            &&& e == now ==> set.1 == Step::Done(Ok::<Value, VmError>(Value::Int(1))) && set.0.vm.next_tid == x as u64
                && set.0.vm.heap == s.vm.heap && set.0.thread == s.thread
            &&& e != now ==> answers(
                s,
                JdkInternal::CompareAndSetLong,
                seq![null, Value::Long(offset), Value::Long(e), Value::Long(x)],
                Value::Int(0),
            )
            &&& s.object(o) == Some((Object::Instance { class: "java/lang/Object"@, fields })) ==> answers(
                s,
                JdkInternal::GetLongVolatile,
                seq![Value::Reference(o), Value::Long(offset)],
                Value::Long(
                    match slot_or_top(fields, offset as int) {
                        Slot::Long(v) => v,
                        _ => 0,
                    },
                ),
            )
        }),
{
}

} // verus!
