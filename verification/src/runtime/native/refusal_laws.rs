//! What `Unsafe`, `MethodHandleNatives` and reflective calls answer to arguments that they cannot use.

use vstd::prelude::*;

use super::java_lang_invoke::{self, JavaLangInvoke};
use super::jdk_internal::{self, JdkInternal};
use super::jdk_internal_reflect::{
    self, boxed, call_arguments, construction_finished, returned_slot, unboxed, wrapper_of, JdkInternalReflect,
};
use super::lang_laws::{giving, plain, raising};
use super::step::{refused, Step};
use crate::metadata::descriptor::{method_type, MethodType, Type};
use crate::runtime::oop::{slot_or_top, Object};
use crate::runtime::slot::{Reference, Slot};
use crate::runtime::string::text_at;
use crate::runtime::value::{Value, VmError};
use crate::runtime::vm::class_mirrors::name_of;
use crate::runtime::vm::mirrors::{int_field, mirror_asked, reference_field};
use crate::runtime::vm::State;

verus! {

/// Outcome of a native method that is an error of the machine, without change.
pub open spec fn stopping(s: State, e: VmError) -> (State, Step) {
    (s, Step::Done(Err::<Value, VmError>(e)))
}

/// Whether the argument at `i` is a reference.
pub open spec fn reference_at(args: Seq<Value>, i: int) -> bool {
    0 <= i < args.len() && args[i] is Reference
}

/// Whether the argument at `i` is a `long`.
pub open spec fn long_at(args: Seq<Value>, i: int) -> bool {
    0 <= i < args.len() && args[i] is Long
}

/// Whether the argument at `i` is an `int`.
pub open spec fn int_at(args: Seq<Value>, i: int) -> bool {
    0 <= i < args.len() && args[i] is Int
}

/// Arguments of `Unsafe` that are missing or of another type are a `NullPointerException`; for a single byte they are
/// named.
pub proof fn law_arguments_of_unsafe(s: State, args: Seq<Value>)
    ensures
        ({
            let missing = raising(s, "java/lang/NullPointerException"@);
            let place = reference_at(args, 0) && long_at(args, 1);
            &&& !(place && int_at(args, 2)) ==> {
                &&& jdk_internal::outcome(s, JdkInternal::PutByte, args) == stopping(
                    s,
                    VmError::BadConstant("Unsafe.putByte 参数形状不符"),
                )
                &&& jdk_internal::outcome(s, JdkInternal::PutIntVolatile, args) == missing
            }
            &&& !place ==> {
                &&& jdk_internal::outcome(s, JdkInternal::GetByte, args) == stopping(
                    s,
                    VmError::BadConstant("Unsafe.getByte 参数形状不符"),
                )
                &&& jdk_internal::outcome(s, JdkInternal::GetReferenceVolatile, args) == missing
                &&& jdk_internal::outcome(s, JdkInternal::GetIntVolatile, args) == missing
                &&& jdk_internal::outcome(s, JdkInternal::GetLongVolatile, args) == missing
            }
            &&& !(place && reference_at(args, 2)) ==> jdk_internal::outcome(
                s,
                JdkInternal::PutReferenceVolatile,
                args,
            ) == missing
            &&& !(place && reference_at(args, 2) && reference_at(args, 3)) ==> jdk_internal::outcome(
                s,
                JdkInternal::CompareAndSetReference,
                args,
            ) == missing
            &&& !(place && int_at(args, 2) && int_at(args, 3)) ==> {
                &&& jdk_internal::outcome(s, JdkInternal::CompareAndSetInt, args) == missing
                &&& jdk_internal::outcome(s, JdkInternal::CompareAndExchangeInt, args) == missing
            }
            &&& !(place && long_at(args, 2) && long_at(args, 3)) ==> jdk_internal::outcome(
                s,
                JdkInternal::CompareAndSetLong,
                args,
            ) == missing
            &&& !(reference_at(args, 0) && reference_at(args, 1)) ==> jdk_internal::outcome(
                s,
                JdkInternal::ObjectFieldOffset,
                args,
            ) == missing
        }),
{
}

/// A single byte is read only from an array, inside its bounds, and from an element that holds an `int`; it is written
/// only to an array, inside its bounds.
pub proof fn law_bytes_that_are_not_there(s: State, o: Reference, offset: i64, b: i32)
    ensures
        ({
            let got = jdk_internal::outcome(
                s,
                JdkInternal::GetByte,
                seq![Value::Reference(o), Value::Long(offset)],
            );
            let put = jdk_internal::outcome(
                s,
                JdkInternal::PutByte,
                seq![Value::Reference(o), Value::Long(offset), Value::Int(b)],
            );
            match s.object(o) {
                Some(Object::Array { elements, .. }) => {
                    &&& !(16 <= offset < 16 + elements.len()) ==> got == raising(
                        s,
                        "java/lang/ArrayIndexOutOfBoundsException"@,
                    ) && put == got
                    &&& 16 <= offset < 16 + elements.len() && !(elements[offset - 16] is Int) ==> got == stopping(
                        s,
                        VmError::BadConstant("Unsafe.getByte 元素非 int 槽"),
                    )
                },
                _ => got == raising(s, "java/lang/InternalError"@) && put == got,
            }
        }),
{
}

/// The offset of a field is refused for what is no mirror of a class and for a name without a text.
pub proof fn law_offsets_of_no_field(s: State, mirror: Reference, name: Reference, e: VmError)
    ensures
        ({
            let r = jdk_internal::outcome(
                s,
                JdkInternal::ObjectFieldOffset,
                seq![Value::Reference(mirror), Value::Reference(name)],
            );
            &&& name_of(s.vm.class_mirrors, mirror) is None ==> r == stopping(
                s,
                VmError::BadConstant("objectFieldOffset1:非 Class 镜像"),
            )
            &&& name_of(s.vm.class_mirrors, mirror) is Some && text_at(s, name) == Ok::<Option<Seq<char>>, VmError>(
                None,
            ) ==> r == raising(s, "java/lang/NullPointerException"@)
            &&& name_of(s.vm.class_mirrors, mirror) is Some && text_at(s, name) == Err::<Option<Seq<char>>, VmError>(
                e,
            ) ==> r == stopping(s, e)
        }),
{
}

/// A `MemberName` is filled in from a `Field` alone; for any other target nothing happens, and a missing argument is a
/// `NullPointerException`. A `Field` that cannot be read is named.
pub proof fn law_members_that_are_not_filled(s: State, member: Reference, target: Reference, args: Seq<Value>)
    ensures
        !(reference_at(args, 0) && reference_at(args, 1)) ==> java_lang_invoke::outcome(s, JavaLangInvoke::Init, args)
            == raising(s, "java/lang/NullPointerException"@),
        ({
            let r = java_lang_invoke::outcome(
                s,
                JavaLangInvoke::Init,
                seq![Value::Reference(member), Value::Reference(target)],
            );
            let kind = "java/lang/reflect/Field"@;
            match s.object(target) {
                Some(Object::Instance { class, fields }) => {
                    &&& class != kind ==> r == plain(s, Value::Void)
                    &&& class == kind && s.vm.registry is None ==> r == stopping(
                        s,
                        VmError::BadConstant("MethodHandleNatives.init 需类注册表"),
                    )
                    &&& class == kind && s.vm.registry is Some ==> match s.class(kind) {
                        None => r == stopping(s, VmError::BadConstant("Field 类未加载")),
                        Some(c) => match (c.ord_of("clazz"@), c.ord_of("modifiers"@)) {
                            (Some(clazz), Some(modifiers)) => {
                                let first = slot_or_top(fields, clazz);
                                let second = slot_or_top(fields, modifiers);
                                &&& !(first is Reference) ==> r == stopping(
                                    s,
                                    VmError::BadConstant("Field.clazz 非引用"),
                                )
                                &&& first is Reference && !(second is Int) ==> r == stopping(
                                    s,
                                    VmError::BadConstant("Field.modifiers 非 int"),
                                )
                            },
                            _ => r == stopping(s, VmError::BadConstant("Field 缺 clazz/modifiers 字段")),
                        },
                    }
                },
                _ => r == plain(s, Value::Void),
            }
        }),
{
}

/// The offset of a member is -1, and its base `null`, where there is no member; the offset is -1 too where its class is
/// no mirror or its name has no text. A name that cannot be read yet stops the request.
pub proof fn law_members_of_nothing(s: State, member: Reference, clazz: Reference, name: Reference, args: Seq<Value>, e: VmError)
    ensures
        (!reference_at(args, 0) || args[0] == Value::Reference(Reference(None))) ==> {
            &&& java_lang_invoke::outcome(s, JavaLangInvoke::ObjectFieldOffset, args) == plain(
                s,
                Value::Long((-1) as i64),
            )
            &&& java_lang_invoke::outcome(s, JavaLangInvoke::StaticFieldOffset, args) == plain(
                s,
                Value::Long((-1) as i64),
            )
            &&& java_lang_invoke::outcome(s, JavaLangInvoke::StaticFieldBase, args) == plain(
                s,
                Value::Reference(Reference(None)),
            )
        },
        member.0 is Some ==> {
            let kind = "java/lang/invoke/MemberName"@;
            let at = java_lang_invoke::outcome(
                s,
                JavaLangInvoke::ObjectFieldOffset,
                seq![Value::Reference(member)],
            );
            let static_at = java_lang_invoke::outcome(
                s,
                JavaLangInvoke::StaticFieldOffset,
                seq![Value::Reference(member)],
            );
            let base = java_lang_invoke::outcome(
                s,
                JavaLangInvoke::StaticFieldBase,
                seq![Value::Reference(member)],
            );
            let nowhere = plain(s, Value::Long((-1) as i64));
            let whole = reference_field(s, member, kind, "clazz"@) == Some(clazz) && reference_field(
                s,
                member,
                kind,
                "name"@,
            ) == Some(name);
            &&& (reference_field(s, member, kind, "clazz"@) is None || reference_field(s, member, kind, "name"@)
                is None) ==> at == nowhere && static_at == nowhere
            &&& reference_field(s, member, kind, "clazz"@) is None ==> base == plain(
                s,
                Value::Reference(Reference(None)),
            )
            &&& whole && name_of(s.vm.class_mirrors, clazz) is None ==> at == nowhere && static_at == nowhere
            &&& whole && name_of(s.vm.class_mirrors, clazz) is Some && text_at(s, name) == Ok::<
                Option<Seq<char>>,
                VmError,
            >(None) ==> at == nowhere && static_at == nowhere
            &&& whole && name_of(s.vm.class_mirrors, clazz) is Some && text_at(s, name) == Err::<
                Option<Seq<char>>,
                VmError,
            >(e) ==> at == stopping(s, e) && static_at == stopping(s, e)
        },
{
}

/// A reflective call through `exec`: a construction, or a call on `receiver`.
pub open spec fn asked_of(s: State, exec: Reference, constructor: bool, receiver: Reference, arr: Reference) -> (
    State,
    Step,
) {
    if constructor {
        jdk_internal_reflect::outcome(
            s,
            JdkInternalReflect::NewInstance,
            seq![Value::Reference(exec), Value::Reference(arr)],
        )
    } else {
        jdk_internal_reflect::outcome(
            s,
            JdkInternalReflect::InvokeMethod,
            seq![Value::Reference(exec), Value::Reference(receiver), Value::Reference(arr)],
        )
    }
}

/// Class of what a reflective call goes through.
pub open spec fn kind_of(constructor: bool) -> Seq<char> {
    if constructor {
        "java/lang/reflect/Constructor"@
    } else {
        "java/lang/reflect/Method"@
    }
}

/// A `Method` or `Constructor` that cannot be read is named, and nothing changes.
pub proof fn law_executables_that_cannot_be_read(
    s: State,
    exec: Reference,
    constructor: bool,
    receiver: Reference,
    arr: Reference,
)
    requires
        exec.0 is Some,
    ensures
        ({
            let r = asked_of(s, exec, constructor, receiver, arr);
            if s.vm.registry is None {
                r == stopping(s, VmError::BadConstant("反射调用需类注册表"))
            } else {
                match s.class(kind_of(constructor)) {
                    None => r == stopping(s, VmError::BadConstant("Executable 类未加载")),
                    Some(c) => match (c.ord_of("clazz"@), c.ord_of("slot"@), c.ord_of("modifiers"@)) {
                        (Some(clazz), Some(slot), Some(modifiers)) => match s.object(exec) {
                            Some(Object::Instance { fields, .. }) => {
                                let first = slot_or_top(fields, clazz);
                                let second = slot_or_top(fields, slot);
                                let third = slot_or_top(fields, modifiers);
                                &&& !(first is Reference) ==> r == stopping(
                                    s,
                                    VmError::BadConstant("clazz 字段非引用"),
                                )
                                &&& first is Reference && !(second is Int) ==> r == stopping(
                                    s,
                                    VmError::BadConstant("slot 字段非 int"),
                                )
                                &&& first is Reference && second is Int && !(third is Int) ==> r == stopping(
                                    s,
                                    VmError::BadConstant("modifiers 字段非 int"),
                                )
                            },
                            _ => r == stopping(s, VmError::BadConstant("Executable 引用非 Instance")),
                        },
                        _ => r == stopping(s, VmError::BadConstant("Executable 缺 clazz/slot/modifiers 字段")),
                    },
                }
            }
        }),
{
}

/// A `Method` that stands for no method of its class is named, and nothing changes; arguments that do not fit come back
/// as what they are.
pub proof fn law_methods_that_are_not_there(
    s: State,
    exec: Reference,
    receiver: Reference,
    arr: Reference,
    clazz: Reference,
    slot: i32,
    internal: Seq<char>,
    m: MethodType,
    e: (State, VmError),
)
    requires
        exec.0 is Some,
        reference_field(s, exec, "java/lang/reflect/Method"@, "clazz"@) == Some(clazz),
        int_field(s, exec, "java/lang/reflect/Method"@, "slot"@) == Some(slot),
        int_field(s, exec, "java/lang/reflect/Method"@, "modifiers"@) is Some,
    ensures
        ({
            let r = asked_of(s, exec, false, receiver, arr);
            &&& name_of(s.vm.class_mirrors, clazz) is None ==> r == stopping(
                s,
                VmError::BadConstant("invoke0:Method.clazz 非 Class 镜像"),
            )
            &&& name_of(s.vm.class_mirrors, clazz) == Some(internal) ==> match s.class(internal) {
                None => r == stopping(s, VmError::BadConstant("invoke0:声明类未加载")),
                Some(c) => if !(0 <= slot < c.cf.methods@.len()) {
                    r == stopping(s, VmError::BadConstant("invoke0:slot 越界"))
                } else {
                    match (
                        c.cf.constant_pool.utf8_at(c.cf.methods@[slot as int].name_index),
                        c.cf.constant_pool.utf8_at(c.cf.methods@[slot as int].descriptor_index),
                    ) {
                        (None, _) => r == stopping(s, VmError::BadConstant("invoke0:方法名解析失败")),
                        (Some(_), None) => r == stopping(s, VmError::BadConstant("invoke0:描述符解析失败")),
                        (Some(_), Some(desc)) => {
                            &&& method_type(desc) is None ==> r == stopping(
                                s,
                                VmError::BadConstant("invoke0:方法描述符非法"),
                            )
                            &&& method_type(desc) == Some(m) && call_arguments(s, arr, m) == Err::<
                                Seq<Slot>,
                                (State, VmError),
                            >(e) ==> r == stopping(e.0, e.1)
                        },
                    }
                },
            }
        }),
{
    let args = seq![Value::Reference(exec), Value::Reference(receiver), Value::Reference(arr)];
    assert(super::step::object_arg(args, 0) == Some(exec));
    assert(jdk_internal_reflect::or_null(super::step::object_arg(args, 2)) == arr);
}

/// A `Constructor` that stands for no constructor of its class is named, and nothing changes; arguments that do not fit
/// come back as what they are.
pub proof fn law_constructors_that_are_not_there(
    s: State,
    exec: Reference,
    arr: Reference,
    clazz: Reference,
    slot: i32,
    internal: Seq<char>,
    m: MethodType,
    e: (State, VmError),
)
    requires
        exec.0 is Some,
        reference_field(s, exec, "java/lang/reflect/Constructor"@, "clazz"@) == Some(clazz),
        int_field(s, exec, "java/lang/reflect/Constructor"@, "slot"@) == Some(slot),
        int_field(s, exec, "java/lang/reflect/Constructor"@, "modifiers"@) is Some,
        s.class(internal) matches Some(c) ==> c.cf.access_flags & 0x0400 == 0,
    ensures
        ({
            let r = asked_of(s, exec, true, Reference(None), arr);
            &&& name_of(s.vm.class_mirrors, clazz) is None ==> r == stopping(
                s,
                VmError::BadConstant("newInstance0:Constructor.clazz 非 Class 镜像"),
            )
            &&& name_of(s.vm.class_mirrors, clazz) == Some(internal) ==> match s.class(internal) {
                None => r == stopping(s, VmError::BadConstant("newInstance0:声明类未加载")),
                Some(c) => if !(0 <= slot < c.cf.methods@.len()) {
                    r == stopping(s, VmError::BadConstant("newInstance0:slot 越界"))
                } else if c.cf.constant_pool.utf8_at(c.cf.methods@[slot as int].name_index) != Some("<init>"@) {
                    r == stopping(s, VmError::BadConstant("newInstance0:slot 非 <init>"))
                } else {
                    match c.cf.constant_pool.utf8_at(c.cf.methods@[slot as int].descriptor_index) {
                        None => r == stopping(s, VmError::BadConstant("newInstance0:描述符解析失败")),
                        Some(desc) => {
                            &&& method_type(desc) is None ==> r == stopping(
                                s,
                                VmError::BadConstant("newInstance0:方法描述符非法"),
                            )
                            &&& method_type(desc) == Some(m) && call_arguments(s, arr, m) == Err::<
                                Seq<Slot>,
                                (State, VmError),
                            >(e) ==> r == stopping(e.0, e.1)
                        },
                    }
                },
            }
        }),
{
    let args = seq![Value::Reference(exec), Value::Reference(arr)];
    assert(super::step::object_arg(args, 0) == Some(exec));
    assert(jdk_internal_reflect::or_null(super::step::object_arg(args, 1)) == arr);
}

/// Arguments come from an array of references, of which there are as many as parameters; `null` stands for none.
pub proof fn law_argument_arrays(s: State, arr: Reference, m: MethodType)
    ensures
        arr.0 is None && m.parameters.len() == 0 ==> call_arguments(s, arr, m) == Ok::<Seq<Slot>, (State, VmError)>(
            Seq::<Slot>::empty(),
        ),
        arr.0 is None && m.parameters.len() > 0 ==> call_arguments(s, arr, m) == refused::<Seq<Slot>>(
            s,
            "java/lang/IllegalArgumentException"@,
        ),
        arr.0 is Some ==> match s.object(arr) {
            Some(Object::Array { elements, .. }) => {
                let whole = forall|i: int| 0 <= i < elements.len() ==> (#[trigger] elements[i]) is Reference;
                &&& !whole ==> call_arguments(s, arr, m) == Err::<Seq<Slot>, (State, VmError)>(
                    (s, VmError::BadConstant("Object[] 元素须 Reference")),
                )
                &&& whole && elements.len() != m.parameters.len() ==> call_arguments(s, arr, m) == refused::<Seq<Slot>>(
                    s,
                    "java/lang/IllegalArgumentException"@,
                )
            },
            _ => call_arguments(s, arr, m) == Err::<Seq<Slot>, (State, VmError)>(
                (s, VmError::BadConstant("实参数组非 Array")),
            ),
        },
{
}

/// A value of a primitive type is taken out of, and put into, an instance of a loaded class with a field `value`, and
/// nothing else; `null` cannot be taken a value out of.
pub proof fn law_wrappers_that_are_not_there(s: State, t: Type, class: Seq<char>, arg: Reference, v: Value)
    requires
        wrapper_of(t) == Some(class),
    ensures
        arg.0 is None ==> unboxed(s, arg, t) == refused::<Slot>(s, "java/lang/NullPointerException"@),
        arg.0 is Some ==> {
            let r = unboxed(s, arg, t);
            &&& s.vm.registry is None ==> r == Err::<Slot, (State, VmError)>(
                (s, VmError::BadConstant("拆箱需类注册表")),
            )
            &&& s.vm.registry is Some ==> match s.class(class) {
                None => r == Err::<Slot, (State, VmError)>((s, VmError::BadConstant("包装类未加载"))),
                Some(c) => if c.ord_of("value"@) is None {
                    r == Err::<Slot, (State, VmError)>((s, VmError::BadConstant("包装类无 value 字段")))
                } else {
                    !(s.object(arg) matches Some(Object::Instance { .. })) ==> r == Err::<Slot, (State, VmError)>(
                        (s, VmError::BadConstant("拆箱目标非 Instance")),
                    )
                },
            }
        },
        returned_slot(t, v) is Some ==> {
            let r = boxed(s, Some(t), v);
            &&& s.vm.registry is None ==> r == (s, Err::<Reference, VmError>(VmError::BadConstant("装箱需类注册表")))
            &&& s.vm.registry is Some ==> match s.class(class) {
                None => r == (s, Err::<Reference, VmError>(VmError::BadConstant("包装类未加载"))),
                Some(c) => c.ord_of("value"@) is None ==> r == (
                    s,
                    Err::<Reference, VmError>(VmError::BadConstant("包装类无 value 字段")),
                ),
            }
        },
{
}

/// The access flags of nothing, or of what is no mirror of a class, are a `NullPointerException`; a caller that is not
/// there is `null`, and one that is there is the class of the third frame from the top.
pub proof fn law_flags_and_callers(s: State, args: Seq<Value>, mirror: Reference)
    ensures
        !reference_at(args, 0) ==> jdk_internal_reflect::outcome(s, JdkInternalReflect::GetClassAccessFlags, args)
            == raising(s, "java/lang/NullPointerException"@),
        name_of(s.vm.class_mirrors, mirror) is None ==> jdk_internal_reflect::outcome(
            s,
            JdkInternalReflect::GetClassAccessFlags,
            seq![Value::Reference(mirror)],
        ) == raising(s, "java/lang/NullPointerException"@),
        s.thread.call_stack.len() < 3 ==> jdk_internal_reflect::outcome(s, JdkInternalReflect::GetCallerClass, args)
            == plain(s, Value::Reference(Reference(None))),
        s.thread.call_stack.len() >= 3 ==> jdk_internal_reflect::outcome(s, JdkInternalReflect::GetCallerClass, args)
            == giving(mirror_asked(s, s.thread.call_stack[s.thread.call_stack.len() - 3].class)),
{
}

/// A construction that ended well gives the new instance, whatever the constructor left behind.
pub proof fn law_constructions_that_ended(s: State, instance: Reference, v: Value)
    ensures
        construction_finished(s, instance, Ok(v)) == (s, Ok::<Value, VmError>(Value::Reference(instance))),
{
}

} // verus!
