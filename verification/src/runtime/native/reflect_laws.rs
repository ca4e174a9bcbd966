//! What reflective calls hand over and give back.

use vstd::prelude::*;

use super::jdk_internal_reflect::{
    call_arguments, call_finished, call_of, call_target, class_access_flags, construction_finished, local_written,
    locals_filled, object_elements, unboxed, unboxed_from, wrapper_of,
};
use super::step::refused;
use crate::metadata::class_file::Code;
use crate::metadata::descriptor::{MethodType, Type};
use crate::metadata::registry_laws::law_found_classes;
use crate::runtime::heap::handle_space;
use crate::runtime::invocation::empty_locals;
use crate::runtime::oop::{slot_or_top, Object};
use crate::runtime::slot::{Reference, Slot};
use crate::runtime::value::{Value, VmError};
use crate::runtime::vm::class_mirrors::name_of;
use crate::runtime::vm::State;
use crate::testkit::args::{law_arguments_read_back, offset_of, placed};

verus! {

/// Whether `v` is a value as a method with a result of the primitive type `t` returns it, and `slot` is how a field
/// holds it.
pub open spec fn fits(t: Type, v: Value, slot: Slot) -> bool {
    match v {
        Value::Int(x) => slot == Slot::Int(x) && (t is Boolean || t is Byte || t is Char || t is Short || t is Int),
        Value::Long(x) => slot == Slot::Long(x) && t is Long,
        Value::Float(x) => slot == Slot::Float(x) && t is Float,
        Value::Double(x) => slot == Slot::Double(x) && t is Double,
        _ => false,
    }
}

/// Whether `class` is the class whose instances hold a value of the primitive type `t`.
pub open spec fn wraps(class: Seq<char>, t: Type) -> bool {
    ||| t is Boolean && class == "java/lang/Boolean"@
    ||| t is Byte && class == "java/lang/Byte"@
    ||| t is Char && class == "java/lang/Character"@
    ||| t is Short && class == "java/lang/Short"@
    ||| t is Int && class == "java/lang/Integer"@
    ||| t is Long && class == "java/lang/Long"@
    ||| t is Float && class == "java/lang/Float"@
    ||| t is Double && class == "java/lang/Double"@
}

/// What a method with a primitive result returned comes back as a new instance of the wrapper class of exactly that
/// type, whose field `value` holds it; every object that was there before stays as it was.
pub proof fn law_results_are_wrapped(s: State, t: Type, v: Value, slot: Slot, class: Seq<char>, other: Reference)
    requires
        wraps(class, t),
        fits(t, v, slot),
        s.class(class) matches Some(c) && c.ord_of("value"@) is Some,
        s.vm.heap.len() < handle_space(),
    ensures
        ({
            let (after, r) = call_finished(s, Some(t), Ok(v));
            let c = s.class(class)->0;
            &&& r is Ok && r->Ok_0 is Reference
            &&& {
                let x = r->Ok_0->Reference_0;
                &&& s.object(x) is None
                &&& after.object(x) is Some && after.object(x)->0 is Instance
                &&& after.object(x)->0->Instance_class == class
                &&& after.object(x)->0->fields.len() == c.instance_fields@.len()
                &&& exists|i: int|
                    0 <= i < c.instance_fields@.len() && (#[trigger] c.instance_fields@[i]).name@ == "value"@
                        && after.object(x)->0->fields[i] == slot
            }
            &&& s.object(other) is Some ==> after.object(other) == s.object(other)
        }),
{
    let c = s.class(class)->0;
    law_found_classes(s.vm.registry->0, class);
    crate::metadata::registry_laws::law_field_positions(c, "value"@, "value"@);
    let i = c.ord_of("value"@)->0;
    assert(wrapper_of(t) == Some(class));
    let (u, x) = s.alloc_fresh(class);
    assert(u.object(x) == Some(c.fresh()));
    let after = u.write_field(x, i, slot);
    assert(call_finished(s, Some(t), Ok(v)).0 == after);
    assert(after.object(x)->0->fields[i] == slot);
    assert(c.instance_fields@[i].name@ == "value"@);
}

/// Values of different primitive types come back as instances of different classes.
pub proof fn law_wrapper_classes_differ(t: Type, u: Type, a: Seq<char>, b: Seq<char>)
    requires
        wraps(a, t),
        wraps(b, u),
        t != u,
    ensures
        a != b,
        wrapper_of(t) == Some(a),
        wrapper_of(u) == Some(b),
        wrapper_of(t) != wrapper_of(u),
{
    reveal_strlit("java/lang/Boolean");
    reveal_strlit("java/lang/Byte");
    reveal_strlit("java/lang/Character");
    reveal_strlit("java/lang/Short");
    reveal_strlit("java/lang/Integer");
    reveal_strlit("java/lang/Long");
    reveal_strlit("java/lang/Float");
    reveal_strlit("java/lang/Double");
    assert("java/lang/Boolean"@[10] == 'B' && "java/lang/Boolean"@.len() == 17);
    assert("java/lang/Byte"@[10] == 'B' && "java/lang/Byte"@.len() == 14);
    assert("java/lang/Character"@[10] == 'C');
    assert("java/lang/Short"@[10] == 'S');
    assert("java/lang/Integer"@[10] == 'I');
    assert("java/lang/Long"@[10] == 'L');
    assert("java/lang/Float"@[10] == 'F');
    assert("java/lang/Double"@[10] == 'D');
}

/// A method without result gives `null`, one with a reference gives that reference, and a constructor gives the instance
/// that it was called on; nothing changes. A value of another kind than the result type says is refused.
pub proof fn law_results_that_are_not_wrapped(s: State, t: Type, v: Value, r: Reference, instance: Reference)
    requires
        t is Class || t is Array,
    ensures
        call_finished(s, None, Ok(v)) == (s, Ok::<Value, VmError>(Value::Reference(Reference(None)))),
        call_finished(s, Some(t), Ok(Value::Reference(r))) == (s, Ok::<Value, VmError>(Value::Reference(r))),
        v is Int || v is Long || v is Float || v is Double ==> call_finished(s, Some(t), Ok(v)).1 is Err && call_finished(
            s,
            Some(t),
            Ok(v),
        ).0 == s,
        construction_finished(s, instance, Ok(v)) == (s, Ok::<Value, VmError>(Value::Reference(instance))),
{
}

/// A value that is not of the primitive type that a method returns is refused, and nothing changes.
pub proof fn law_wrong_results_are_refused(s: State, t: Type, v: Value)
    requires
        !(t is Class) && !(t is Array),
        forall|slot: Slot| !#[trigger] fits(t, v, slot),
    ensures
        call_finished(s, Some(t), Ok(v)).0 == s,
        call_finished(s, Some(t), Ok(v)).1 is Err,
{
    match v {
        Value::Int(x) => {
            assert(!fits(t, v, Slot::Int(x)));
        },
        Value::Long(x) => {
            assert(!fits(t, v, Slot::Long(x)));
        },
        Value::Float(x) => {
            assert(!fits(t, v, Slot::Float(x)));
        },
        Value::Double(x) => {
            assert(!fits(t, v, Slot::Double(x)));
        },
        _ => {},
    }
}

/// An argument for a parameter of a reference type is handed over as it is; one for a parameter of a primitive type is
/// what the field `value` of its wrapper holds, and a `NullPointerException` if it is `null`.
pub proof fn law_arguments_are_unwrapped(s: State, arg: Reference, t: Type, class: Seq<char>, i: int)
    requires
        wraps(class, t),
        s.class(class) matches Some(c) && 0 <= i < c.instance_fields@.len() && c.instance_fields@[i].name@ == "value"@
            && forall|j: int| 0 <= j < i ==> (#[trigger] c.instance_fields@[j]).name@ != "value"@,
    ensures
        s.object(arg) matches Some(Object::Instance { fields, .. }) ==> unboxed(s, arg, t) == Ok::<
            Slot,
            (State, VmError),
        >(slot_or_top(fields, i)),
        arg.0 is None ==> unboxed(s, arg, t) == refused::<Slot>(s, "java/lang/NullPointerException"@),
{
    let c = s.class(class)->0;
    crate::metadata::registry_laws::law_field_positions(c, "value"@, "value"@);
    let k = c.ord_of("value"@)->0;
    if k < i {
        assert(c.instance_fields@[k].name@ == "value"@);
    } else if i < k {
        assert(c.instance_fields@[i].name@ == "value"@);
    }
    assert(wrapper_of(t) == Some(class));
}

/// An argument for a parameter of a reference type, `null` too, is handed over as it is.
pub proof fn law_references_are_handed_over(s: State, arg: Reference, t: Type)
    requires
        t is Class || t is Array,
    ensures
        unboxed(s, arg, t) == Ok::<Slot, (State, VmError)>(Slot::Reference(arg)),
{
}

/// A call has as many arguments as the method has parameters, argument `i` unwrapped for parameter `i`; with any other
/// number of arguments it is an `IllegalArgumentException`. `null` in place of the array is an array without elements.
pub proof fn law_arguments_in_order(s: State, arr: Reference, m: MethodType, i: int)
    ensures
        arr.0 is None && m.parameters.len() == 0 ==> call_arguments(s, arr, m) == Ok::<Seq<Slot>, (State, VmError)>(
            Seq::empty(),
        ),
        arr.0 is None && m.parameters.len() > 0 ==> call_arguments(s, arr, m) == refused::<Seq<Slot>>(
            s,
            "java/lang/IllegalArgumentException"@,
        ),
        arr.0 is Some ==> (s.object(arr) matches Some(Object::Array { elements, .. }) ==> {
            let references = forall|j: int| 0 <= j < elements.len() ==> (#[trigger] elements[j]) is Reference;
            &&& references && elements.len() != m.parameters.len() ==> call_arguments(s, arr, m) == refused::<Seq<Slot>>(
                s,
                "java/lang/IllegalArgumentException"@,
            )
            &&& references && call_arguments(s, arr, m) is Ok && 0 <= i < elements.len() ==> {
                let slots = call_arguments(s, arr, m)->Ok_0;
                &&& slots.len() == elements.len()
                &&& unboxed(s, elements[i]->Reference_0, m.parameters[i]) == Ok::<Slot, (State, VmError)>(slots[i])
            }
        }),
{
    if arr.0 is Some && s.object(arr) is Some && s.object(arr)->0 is Array {
        let elements = s.object(arr)->0->elements;
        if (forall|j: int| 0 <= j < elements.len() ==> (#[trigger] elements[j]) is Reference) && elements.len()
            == m.parameters.len() {
            let args = object_elements(s, arr)->Ok_0;
            assert(args.len() == elements.len());
            if call_arguments(s, arr, m) is Ok && 0 <= i < elements.len() {
                unboxed_one(s, args, m.parameters, 0, Seq::empty(), i);
                assert(args[i] == elements[i]->Reference_0);
            }
        }
    } else if arr.0 is None {
        assert(unboxed_from(s, Seq::empty(), m.parameters, 0, Seq::empty()) == Ok::<Seq<Slot>, (State, VmError)>(
            Seq::empty(),
        ));
    }
}

proof fn unboxed_one(s: State, args: Seq<Reference>, types: Seq<Type>, k: int, before: Seq<Slot>, i: int)
    requires
        0 <= k <= args.len(),
        before.len() == k,
        unboxed_from(s, args, types, k, before) is Ok,
        0 <= i < args.len(),
        i < k ==> unboxed(s, args[i], types[i]) == Ok::<Slot, (State, VmError)>(before[i]),
    ensures
        unboxed_from(s, args, types, k, before)->Ok_0.len() == args.len(),
        unboxed(s, args[i], types[i]) == Ok::<Slot, (State, VmError)>(
            unboxed_from(s, args, types, k, before)->Ok_0[i],
        ),
    decreases args.len() - k,
{
    if k < args.len() {
        let slot = unboxed(s, args[k], types[k])->Ok_0;
        unboxed_one(s, args, types, k + 1, before.push(slot), i);
    }
}

/// The frame of a call holds the receiver and the arguments one after the other from local variable 0 on, a `long` or
/// `double` with its placeholder behind it, and nothing else yet; its sizes are those of the code.
pub proof fn law_call_frames(k: int, m: int, code: Code, slots: Seq<Slot>, i: int)
    requires
        0 <= k <= usize::MAX,
        0 <= m <= usize::MAX,
        0 <= i < slots.len(),
        forall|j: int|
            0 <= j < slots.len() ==> !((#[trigger] slots[j]) is Top) && !(slots[j] is ReturnAddress),
        call_of(k, m, code, slots) is Ok,
    ensures
        ({
            let call = call_of(k, m, code, slots)->Ok_0;
            &&& call.class == k
            &&& call.method == m
            &&& call.locals.len() == code.max_locals
            &&& call.operands.len() == 0
            &&& call.max_stack == code.max_stack
            &&& call.locals[offset_of(slots, i)] == slots[i]
            &&& slots[i] is Long || slots[i] is Double ==> call.locals[offset_of(slots, i) + 1] == Slot::Top
            &&& forall|rest: int|
                offset_of(slots, slots.len() as int) <= rest < code.max_locals ==> #[trigger] call.locals[rest]
                    == Slot::Top
        }),
{
    let empty = empty_locals(code.max_locals);
    filled_is_placed(empty, slots, 0);
    let call = call_of(k, m, code, slots)->Ok_0;
    let n = slots.len() as int;
    crate::testkit::args::offset_monotone(slots, 0, n);
    law_arguments_read_back(empty, slots, n, i, 0);
    assert forall|rest: int| offset_of(slots, n) <= rest < code.max_locals implies #[trigger] call.locals[rest] == Slot::Top by {
        law_arguments_read_back(empty, slots, n, i, rest);
    }
}

proof fn filled_is_placed(locals: Seq<Slot>, slots: Seq<Slot>, i: int)
    requires
        0 <= i <= slots.len(),
        locals.len() <= 0xFFFF,
        offset_of(slots, i) <= locals.len(),
        placed(locals, slots, i).len() == locals.len(),
        forall|j: int|
            0 <= j < slots.len() ==> !((#[trigger] slots[j]) is Top) && !(slots[j] is ReturnAddress),
        locals_filled(placed(locals, slots, i), offset_of(slots, i) as u16, slots, i) is Ok,
        0 <= offset_of(slots, i),
    ensures
        locals_filled(placed(locals, slots, i), offset_of(slots, i) as u16, slots, i)->Ok_0 == placed(
            locals,
            slots,
            slots.len() as int,
        ),
        offset_of(slots, slots.len() as int) <= locals.len(),
        placed(locals, slots, slots.len() as int).len() == locals.len(),
    decreases slots.len() - i,
{
    if i < slots.len() {
        let now = placed(locals, slots, i);
        let at = offset_of(slots, i);
        let next = local_written(now, at as u16, slots[i])->Ok_0;
        assert(next.0 =~= placed(locals, slots, i + 1));
        assert(next.1 == offset_of(slots, i + 1));
        filled_is_placed(locals, slots, i + 1);
    }
}

/// A static method is the declared one. Any other is what the class of the receiver runs for its name and descriptor:
/// an `AbstractMethodError` if it runs none, a `NullPointerException` without receiver.
pub proof fn law_targets(
    s: State,
    internal: Seq<char>,
    slot: i32,
    name: Seq<char>,
    desc: Seq<char>,
    receiver: Reference,
    class: Seq<char>,
)
    requires
        s.vm.registry is Some,
        s.class(internal) is Some,
    ensures
        ({
            let reg = s.vm.registry->0;
            let of_class = match s.object(receiver) {
                Some(Object::Instance { class: c, .. }) => c == class,
                Some(Object::Array { class: c, .. }) => c == class,
                _ => false,
            };
            let fixed = call_target(s, internal, slot, name, desc, true, receiver);
            let chosen = call_target(s, internal, slot, name, desc, false, receiver);
            &&& fixed is Ok && 0 <= (fixed->Ok_0).0 < reg.classes().len() && reg.classes()[(fixed->Ok_0).0].name@ == internal
                && (fixed->Ok_0).1 == slot
            &&& receiver.0 is None ==> chosen == refused::<(int, int)>(s, "java/lang/NullPointerException"@)
            &&& of_class ==> match reg.dispatch_of(
                class,
                name,
                desc,
            ) {
                Some((k, m)) => chosen == Ok::<(int, int), (State, VmError)>((k as int, m as int)),
                None => chosen == refused::<(int, int)>(s, "java/lang/AbstractMethodError"@),
            }
        }),
{
    law_found_classes(s.vm.registry->0, internal);
}

/// The access flags of a class are the low 13 bits of those in its class file; an array has none, a primitive type is
/// public, final and abstract, a class that is not loaded has none.
pub proof fn law_access_flags(s: State, mirror: Reference, class: Seq<char>)
    requires
        name_of(s.vm.class_mirrors, mirror) == Some(class),
    ensures
        ({
            let (t, r) = class_access_flags(s, seq![Value::Reference(mirror)]);
            let keyword = class == "boolean"@ || class == "byte"@ || class == "char"@ || class == "short"@ || class
                == "int"@ || class == "long"@ || class == "float"@ || class == "double"@ || class == "void"@;
            &&& t == s
            &&& class.len() > 0 && class[0] == '[' ==> r == Ok::<Value, VmError>(Value::Int(0))
            &&& keyword ==> r == Ok::<Value, VmError>(Value::Int(0x0411))
            &&& (class.len() == 0 || class[0] != '[') && !keyword ==> match s.class(class) {
                Some(c) => r is Ok && r->Ok_0 is Int && r->Ok_0->Int_0 == c.cf.access_flags % 0x2000,
                None => r == Ok::<Value, VmError>(Value::Int(0)),
            }
        }),
{
    reveal_strlit("boolean");
    reveal_strlit("byte");
    reveal_strlit("char");
    reveal_strlit("short");
    reveal_strlit("int");
    reveal_strlit("long");
    reveal_strlit("float");
    reveal_strlit("double");
    reveal_strlit("void");
    assert("boolean"@[0] == 'b' && "byte"@[0] == 'b' && "char"@[0] == 'c' && "short"@[0] == 's' && "int"@[0] == 'i');
    assert("long"@[0] == 'l' && "float"@[0] == 'f' && "double"@[0] == 'd' && "void"@[0] == 'v');
    if s.class(class) is Some {
        let f = s.class(class)->0.cf.access_flags;
        assert((f as i32) & 0x1FFF == f % 0x2000) by (bit_vector);
    }
}

} // verus!
