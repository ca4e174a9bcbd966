//! Which method a reflective call runs, with what, and how a failure comes back.

use vstd::prelude::*;

use super::jdk_internal_reflect::{
    call_arguments, call_finished, call_of, construction_finished, outcome, JdkInternalReflect,
};
use super::lang_laws::raising;
use super::step::Step;
use super::unbound;
use crate::metadata::class_file::Code;
use crate::metadata::descriptor::{method_type, MethodType, Type};
use crate::metadata::registry_laws::law_found_classes;
use crate::runtime::heap::handle_space;
use crate::runtime::oop::Object;
use crate::runtime::slot::{Reference, Slot};
use crate::runtime::string::text_pending;
use crate::runtime::value::{Value, VmError};
use crate::runtime::vm::class_mirrors::name_of;
use crate::runtime::vm::exceptions::thrown;
use crate::runtime::vm::mirrors::{int_field, reference_field};
use crate::runtime::vm::State;

verus! {

/// Whether `exec`, a `Method` or `Constructor` of class `kind`, stands for the method at place `slot` of the class
/// `internal`, with these modifiers, name, descriptor and type.
pub open spec fn stands_for(
    s: State,
    exec: Reference,
    kind: Seq<char>,
    internal: Seq<char>,
    slot: i32,
    modifiers: i32,
    name: Seq<char>,
    desc: Seq<char>,
    m: MethodType,
) -> bool {
    &&& exec.0 is Some
    &&& reference_field(s, exec, kind, "clazz"@) matches Some(clazz) && name_of(s.vm.class_mirrors, clazz) == Some(
        internal,
    )
    &&& int_field(s, exec, kind, "slot"@) == Some(slot)
    &&& int_field(s, exec, kind, "modifiers"@) == Some(modifiers)
    &&& s.class(internal) matches Some(c) && 0 <= slot < c.cf.methods@.len() && c.cf.constant_pool.utf8_at(
        c.cf.methods@[slot as int].name_index,
    ) == Some(name) && c.cf.constant_pool.utf8_at(c.cf.methods@[slot as int].descriptor_index) == Some(desc)
    &&& method_type(desc) == Some(m)
}

/// A call of method `m` of the class at place `k` with the given first locals, or an `AbstractMethodError` if it has no
/// code.
pub open spec fn runs(s: State, k: int, m: int, code: Option<Code>, slots: Seq<Slot>, result: Option<Type>) -> (
    State,
    Step,
) {
    match code {
        None => raising(s, "java/lang/AbstractMethodError"@),
        Some(code) => match call_of(k, m, code, slots) {
            Ok(call) => (s, Step::Invoke(call, result)),
            Err(e) => (s, Step::Done(Err::<Value, VmError>(e))),
        },
    }
}

/// `invoke0` with a `Method` that has the bit of static members runs the method that the `Method` stands for, with the
/// arguments; with any other it runs what the class of the receiver has for its name and descriptor, with the receiver
/// before the arguments. What comes back is treated by the result type of the method.
pub proof fn law_invocations(
    s: State,
    method: Reference,
    receiver: Reference,
    arr: Reference,
    internal: Seq<char>,
    slot: i32,
    modifiers: i32,
    name: Seq<char>,
    desc: Seq<char>,
    m: MethodType,
    slots: Seq<Slot>,
    class: Seq<char>,
)
    requires
        stands_for(s, method, "java/lang/reflect/Method"@, internal, slot, modifiers, name, desc, m),
        call_arguments(s, arr, m) == Ok::<Seq<Slot>, (State, VmError)>(slots),
        (match s.object(receiver) {
            Some(Object::Instance { class: c, .. }) => c == class,
            Some(Object::Array { class: c, .. }) => c == class,
            _ => true,
        }),
    ensures
        ({
            let reg = s.vm.registry->0;
            let ran = outcome(
                s,
                JdkInternalReflect::InvokeMethod,
                seq![Value::Reference(method), Value::Reference(receiver), Value::Reference(arr)],
            );
            let k = reg.index_of(internal)->0;
            &&& modifiers & 0x0008 != 0 ==> ran == runs(
                s,
                k,
                slot as int,
                reg.classes()[k].cf.methods@[slot as int].code,
                slots,
                m.result,
            )
            &&& modifiers & 0x0008 == 0 && receiver.0 is None ==> ran == raising(s, "java/lang/NullPointerException"@)
            &&& modifiers & 0x0008 == 0 && !(s.object(receiver) is Some && (s.object(receiver)->0 is Instance || s.object(
                receiver,
            )->0 is Array)) ==> ran == raising(s, "java/lang/NullPointerException"@)
            &&& modifiers & 0x0008 == 0 && s.object(receiver) is Some && (s.object(receiver)->0 is Instance || s.object(
                receiver,
            )->0 is Array) ==> match reg.dispatch_of(class, name, desc) {
                None => ran == raising(s, "java/lang/AbstractMethodError"@),
                Some((j, i)) => ran == runs(
                    s,
                    j as int,
                    i as int,
                    reg.classes()[j as int].cf.methods@[i as int].code,
                    seq![Slot::Reference(receiver)] + slots,
                    m.result,
                ),
            }
        }),
{
    law_found_classes(s.vm.registry->0, internal);
    assert(((modifiers as u16) & 0x0008u16 != 0) == (modifiers & 0x0008 != 0)) by (bit_vector);
    let args = seq![Value::Reference(method), Value::Reference(receiver), Value::Reference(arr)];
    assert(super::step::object_arg(args, 0) == Some(method));
    assert(super::step::reference_arg(args, 1) == Some(receiver));
    assert(super::jdk_internal_reflect::or_null(super::step::object_arg(args, 2)) == arr);
}

/// `newInstance0` makes a new instance of the class of the `Constructor` and runs the constructor that it stands for on
/// it, with the arguments behind it. A class that is abstract is an `InstantiationException`; a `Constructor` that does
/// not stand for an `<init>` is refused.
pub proof fn law_constructions(
    s: State,
    constructor: Reference,
    arr: Reference,
    internal: Seq<char>,
    slot: i32,
    modifiers: i32,
    name: Seq<char>,
    desc: Seq<char>,
    m: MethodType,
    slots: Seq<Slot>,
)
    requires
        stands_for(s, constructor, "java/lang/reflect/Constructor"@, internal, slot, modifiers, name, desc, m),
        call_arguments(s, arr, m) == Ok::<Seq<Slot>, (State, VmError)>(slots),
    ensures
        ({
            let reg = s.vm.registry->0;
            let made = outcome(
                s,
                JdkInternalReflect::NewInstance,
                seq![Value::Reference(constructor), Value::Reference(arr)],
            );
            let c = s.class(internal)->0;
            let k = reg.index_of(internal)->0;
            let (t, instance) = s.alloc_object(c.fresh());
            let is_abstract = c.cf.access_flags & 0x0400 != 0;
            &&& is_abstract ==> made == raising(s, "java/lang/InstantiationException"@)
            &&& !is_abstract && name != "<init>"@ ==> made.0 == s && (made.1 matches Step::Done(Err(_)))
            &&& !is_abstract && name == "<init>"@ ==> match c.cf.methods@[slot as int].code {
                None => made == raising(t, "java/lang/InstantiationError"@),
                Some(code) => match call_of(k, slot as int, code, seq![Slot::Reference(instance)] + slots) {
                    Ok(call) => made == (t, Step::Construct(call, instance)),
                    Err(e) => made == (t, Step::Done(Err::<Value, VmError>(e))),
                },
            }
        }),
{
    law_found_classes(s.vm.registry->0, internal);
    let args = seq![Value::Reference(constructor), Value::Reference(arr)];
    assert(super::step::object_arg(args, 0) == Some(constructor));
    assert(super::jdk_internal_reflect::or_null(super::step::object_arg(args, 1)) == arr);
}

/// A reflective call without its `Method` or `Constructor` is a `NullPointerException`.
pub proof fn law_calls_of_nothing(s: State, a: Value, b: Value)
    ensures
        outcome(s, JdkInternalReflect::InvokeMethod, seq![Value::Reference(Reference(None)), a, b]) == raising(
            s,
            "java/lang/NullPointerException"@,
        ),
        outcome(s, JdkInternalReflect::NewInstance, seq![Value::Reference(Reference(None)), a]) == raising(
            s,
            "java/lang/NullPointerException"@,
        ),
{
}

/// An exception that a called method or constructor throws comes back inside a new `InvocationTargetException`, which
/// carries the call chain of the moment; any other failure comes back as it is, and nothing changes.
pub proof fn law_failures(s: State, result: Option<Type>, instance: Reference, cause: Reference, e: VmError)
    requires
        s.vm.heap.len() < handle_space(),
        s.field_ord("java/lang/reflect/InvocationTargetException"@, "target"@) is Some,
    ensures
        ({
            let class = "java/lang/reflect/InvocationTargetException"@;
            let (t, r) = call_finished(s, result, Err(VmError::ThrownException(cause)));
            &&& construction_finished(s, instance, Err(VmError::ThrownException(cause))) == (t, r)
            &&& r is Err && r->Err_0 is ThrownException
            &&& {
                let x = r->Err_0->ThrownException_0;
                &&& s.object(x) is None
                &&& t.object(x) is Some && t.object(x)->0 is Instance && t.object(x)->0->Instance_class == class
                &&& reference_field(t, x, class, "target"@) == Some(cause)
                &&& t.vm.exceptions.contains_key(x) && t.vm.exceptions[x].frames == s.thread.call_stack
            }
        }),
        !(e is ThrownException) ==> call_finished(s, result, Err(e)) == (s, Err::<Value, VmError>(e))
            && construction_finished(s, instance, Err(e)) == (s, Err::<Value, VmError>(e)),
{
    let class = "java/lang/reflect/InvocationTargetException"@;
    let c = s.class(class)->0;
    law_found_classes(s.vm.registry->0, class);
    let (t, x) = thrown(s, class);
    assert(t.object(x) == Some(c.fresh()));
    crate::runtime::vm::mirror_laws::named_write_read(t, x, class, c, "target"@, Slot::Reference(cause), "clazz"@);
}

/// A native method that is not bound is an `UnsatisfiedLinkError` whose message is the class with dots, a dot, the name,
/// a space and the descriptor.
pub proof fn law_unbound_methods(s: State, class: Seq<char>, dotted: Seq<char>, name: Seq<char>, desc: Seq<char>)
    requires
        s.vm.heap.len() < handle_space(),
        dotted.len() == class.len(),
        forall|i: int|
            0 <= i < class.len() ==> #[trigger] dotted[i] == if class[i] == '/' {
                '.'
            } else {
                class[i]
            },
        text_pending(s, dotted + "."@ + name + " "@ + desc) is None,
    ensures
        ({
            let (t, r) = unbound(s, class, name, desc);
            let kind = "java/lang/UnsatisfiedLinkError"@;
            &&& r is Err && r->Err_0 is ThrownException
            &&& r->Err_0->ThrownException_0 == thrown(s, kind).1
            &&& t.vm.exceptions.contains_key(r->Err_0->ThrownException_0)
            &&& t.vm.exceptions[r->Err_0->ThrownException_0].message == Some(dotted + "."@ + name + " "@ + desc)
            &&& t.vm.exceptions[r->Err_0->ThrownException_0].frames == s.thread.call_stack
        }),
{
    assert(crate::runtime::text::replaced(class, '/', '.') =~= dotted);
}

} // verus!
