//! Native methods of `jdk.internal.reflect`: caller lookup, access flags and reflective calls.

use vstd::prelude::*;

use super::java_lang::{mirror_value, runtime_class, runtime_class_of};
use super::registry::{Key, NativeRegistry};
use super::step::{
    done, error, get_object, get_reference, object_arg, reference_arg, refused, stopped, throw, throws, value,
    NativeStep, Step,
};
use super::{class_arg_name, is_primitive_name, mirror_arg, Native};
use crate::metadata::class_file::{Code, ACC_ABSTRACT, ACC_STATIC};
use crate::metadata::class_registry::LoadedClass;
use crate::metadata::descriptor::{
    method_type, parse_method_descriptor, types_of, FieldType, MethodDescriptor, MethodType, ReturnDescriptor, Type,
};
use crate::runtime::frame::Frame;
use crate::runtime::invocation::{empty_locals, Call, Invocation};
use crate::runtime::local_vars::{stored, stored_wide, LocalVars};
use crate::runtime::oop::{slot_or_top, Object, Oop};
use crate::runtime::slot::{Reference, Slot};
use crate::runtime::text::{begins_with, starts_with_char, str_eq};
use crate::runtime::value::{Value, VmError};
use crate::runtime::vm::class_mirrors::name_of;
use crate::runtime::vm::exceptions::thrown;
use crate::runtime::vm::mirrors::{named_field_written, primitive_keyword, reference_field};
use crate::runtime::vm::{class_from_top, pushed, State, VmThread};

verus! {

broadcast use crate::runtime::oop::oop_variant;

/// The native methods of `jdk.internal.reflect`.
#[derive(Debug, Clone, Copy, PartialEq, Eq, Structural)]
pub enum JdkInternalReflect {
    GetCallerClass,
    GetClassAccessFlags,
    InvokeMethod,
    NewInstance,
}

/// Outcome of `Reflection.getCallerClass`: the frame of the native method is on top, below it the method
/// that asks, below that its caller. `null` if there is none.
pub open spec fn caller_class(s: State) -> (State, Result<Value, VmError>) {
    match class_from_top(s.thread.call_stack, 2) {
        Some(class) => mirror_value(s, class),
        None => value(s, Value::Reference(Reference(None))),
    }
}

/// Outcome of `Reflection.getClassAccessFlags`: the low 13 bits of the access flags; 0 for arrays; public,
/// final and abstract for primitive types.
pub open spec fn class_access_flags(s: State, args: Seq<Value>) -> (State, Result<Value, VmError>) {
    match mirror_arg(s, args) {
        None => throws(s, "java/lang/NullPointerException"@),
        Some(internal) => value(
            s,
            Value::Int(
                if begins_with(internal, '[') {
                    0
                } else if primitive_keyword(internal) {
                    0x0411
                } else {
                    match s.class(internal) {
                        Some(c) => (c.cf.access_flags as i32) & 0x1FFF,
                        None => 0,
                    }
                },
            ),
        ),
    }
}

/// Class mirror, slot and modifiers of a `Method` or `Constructor` of class `class`.
pub open spec fn executable_meta(s: State, exec: Reference, class: Seq<char>) -> Result<
    (Reference, i32, i32),
    VmError,
> {
    if s.vm.registry is None {
        Err(VmError::BadConstant("反射调用需类注册表"))
    } else {
        match s.class(class) {
            None => Err(VmError::BadConstant("Executable 类未加载")),
            Some(c) => match (c.ord_of("clazz"@), c.ord_of("slot"@), c.ord_of("modifiers"@)) {
                (Some(clazz), Some(slot), Some(modifiers)) => match s.object(exec) {
                    Some(Object::Instance { fields, .. }) => match slot_or_top(fields, clazz) {
                        Slot::Reference(mirror) => match slot_or_top(fields, slot) {
                            Slot::Int(at) => match slot_or_top(fields, modifiers) {
                                Slot::Int(flags) => Ok((mirror, at, flags)),
                                _ => Err(VmError::BadConstant("modifiers 字段非 int")),
                            },
                            _ => Err(VmError::BadConstant("slot 字段非 int")),
                        },
                        _ => Err(VmError::BadConstant("clazz 字段非引用")),
                    },
                    _ => Err(VmError::BadConstant("Executable 引用非 Instance")),
                },
                _ => Err(VmError::BadConstant("Executable 缺 clazz/slot/modifiers 字段")),
            },
        }
    }
}

/// Whether all slots are references.
pub open spec fn all_references(slots: Seq<Slot>) -> bool {
    forall|i: int| 0 <= i < slots.len() ==> (#[trigger] slots[i]) is Reference
}

/// The references in slots.
pub open spec fn references_in(slots: Seq<Slot>) -> Seq<Reference> {
    slots.map_values(
        |e: Slot|
            match e {
                Slot::Reference(r) => r,
                _ => Reference(None),
            },
    )
}

/// The elements of an object array; none for `null`.
pub open spec fn object_elements(s: State, arr: Reference) -> Result<Seq<Reference>, VmError> {
    if arr.0 is None {
        Ok(Seq::empty())
    } else {
        match s.object(arr) {
            Some(Object::Array { elements, .. }) => if all_references(elements) {
                Ok(references_in(elements))
            } else {
                Err(VmError::BadConstant("Object[] 元素须 Reference"))
            },
            _ => Err(VmError::BadConstant("实参数组非 Array")),
        }
    }
}

/// The wrapper class of a primitive type.
pub open spec fn wrapper_of(t: Type) -> Option<Seq<char>> {
    match t {
        Type::Boolean => Some("java/lang/Boolean"@),
        Type::Byte => Some("java/lang/Byte"@),
        Type::Char => Some("java/lang/Character"@),
        Type::Short => Some("java/lang/Short"@),
        Type::Int => Some("java/lang/Integer"@),
        Type::Long => Some("java/lang/Long"@),
        Type::Float => Some("java/lang/Float"@),
        Type::Double => Some("java/lang/Double"@),
        _ => None,
    }
}

/// Position of field `value` in a wrapper class.
pub open spec fn value_ord(s: State, wrapper: Seq<char>, no_registry: VmError) -> Result<int, VmError> {
    if s.vm.registry is None {
        Err(no_registry)
    } else {
        match s.class(wrapper) {
            None => Err(VmError::BadConstant("包装类未加载")),
            Some(c) => match c.ord_of("value"@) {
                None => Err(VmError::BadConstant("包装类无 value 字段")),
                Some(ord) => Ok(ord),
            },
        }
    }
}

/// An argument as a parameter of type `t` takes it: a reference as it is, a primitive value out of its
/// wrapper. A `NullPointerException` where `null` would have to be unwrapped.
pub open spec fn unboxed(s: State, arg: Reference, t: Type) -> Result<Slot, (State, VmError)> {
    match wrapper_of(t) {
        None => Ok(Slot::Reference(arg)),
        Some(wrapper) => if arg.0 is None {
            refused(s, "java/lang/NullPointerException"@)
        } else {
            match value_ord(s, wrapper, VmError::BadConstant("拆箱需类注册表")) {
                Err(e) => Err((s, e)),
                Ok(ord) => match s.object(arg) {
                    Some(Object::Instance { fields, .. }) => Ok(slot_or_top(fields, ord)),
                    _ => Err((s, VmError::BadConstant("拆箱目标非 Instance"))),
                },
            }
        },
    }
}

/// The arguments from `i` on behind those in `before`; the first that cannot be unwrapped stops.
pub open spec fn unboxed_from(s: State, args: Seq<Reference>, types: Seq<Type>, i: int, before: Seq<Slot>) -> Result<
    Seq<Slot>,
    (State, VmError),
>
    decreases args.len() - i,
{
    if i < 0 || i >= args.len() {
        Ok(before)
    } else {
        match unboxed(s, args[i], types[i]) {
            Ok(slot) => unboxed_from(s, args, types, i + 1, before.push(slot)),
            Err(e) => Err(e),
        }
    }
}

/// The arguments of a reflective call: as many as the method takes, each unwrapped.
pub open spec fn call_arguments(s: State, arr: Reference, m: MethodType) -> Result<Seq<Slot>, (State, VmError)> {
    match object_elements(s, arr) {
        Err(e) => Err((s, e)),
        Ok(args) => if args.len() != m.parameters.len() {
            refused(s, "java/lang/IllegalArgumentException"@)
        } else {
            unboxed_from(s, args, m.parameters, 0, Seq::empty())
        },
    }
}

/// A new wrapper instance: the state after it and the reference.
pub open spec fn wrapped(s: State, wrapper: Seq<char>, slot: Slot) -> (State, Result<Reference, VmError>) {
    match value_ord(s, wrapper, VmError::BadConstant("装箱需类注册表")) {
        Err(e) => (s, Err(e)),
        Ok(ord) => {
            let (t, r) = s.alloc_fresh(wrapper);
            (t.write_field(r, ord, slot), Ok(r))
        },
    }
}

/// The slot for a returned value of a primitive type; `None` if the value is of another type.
pub open spec fn returned_slot(t: Type, v: Value) -> Option<Slot> {
    match t {
        Type::Boolean | Type::Byte | Type::Char | Type::Short | Type::Int => match v {
            Value::Int(x) => Some(Slot::Int(x)),
            _ => None,
        },
        Type::Long => match v {
            Value::Long(x) => Some(Slot::Long(x)),
            _ => None,
        },
        Type::Float => match v {
            Value::Float(x) => Some(Slot::Float(x)),
            _ => None,
        },
        Type::Double => match v {
            Value::Double(x) => Some(Slot::Double(x)),
            _ => None,
        },
        _ => None,
    }
}

/// What a method returned, as an object: `null` for `void`, a wrapper for a primitive value.
pub open spec fn boxed(s: State, result: Option<Type>, v: Value) -> (State, Result<Reference, VmError>) {
    match result {
        None => (s, Ok(Reference(None))),
        Some(t) => match wrapper_of(t) {
            None => match v {
                Value::Reference(r) => (s, Ok(r)),
                Value::Void => (s, Ok(Reference(None))),
                _ => (s, Err(VmError::BadConstant("引用返回值类型不符"))),
            },
            Some(wrapper) => match returned_slot(t, v) {
                None => (s, Err(VmError::BadConstant("原语返回值类型不符"))),
                Some(slot) => wrapped(s, wrapper, slot),
            },
        },
    }
}

/// The index `n` places further; indices begin again after the last.
pub open spec fn index_after(index: u16, n: int) -> u16 {
    ((index + n) % 0x1_0000) as u16
}

/// A slot written to the locals: the table after it and the next free index.
pub open spec fn local_written(locals: Seq<Slot>, index: u16, slot: Slot) -> Result<(Seq<Slot>, u16), VmError> {
    match slot {
        Slot::Long(_) => match stored_wide(locals, index, slot) {
            (t, Ok(_)) => Ok((t, index_after(index, 2))),
            (_, Err(_)) => Err(VmError::BadConstant("locals 写 Long 失败")),
        },
        Slot::Double(_) => match stored_wide(locals, index, slot) {
            (t, Ok(_)) => Ok((t, index_after(index, 2))),
            (_, Err(_)) => Err(VmError::BadConstant("locals 写 Double 失败")),
        },
        Slot::Int(_) => match stored(locals, index, slot) {
            (t, Ok(_)) => Ok((t, index_after(index, 1))),
            (_, Err(_)) => Err(VmError::BadConstant("locals 写 Int 失败")),
        },
        Slot::Float(_) => match stored(locals, index, slot) {
            (t, Ok(_)) => Ok((t, index_after(index, 1))),
            (_, Err(_)) => Err(VmError::BadConstant("locals 写 Float 失败")),
        },
        Slot::Reference(_) => match stored(locals, index, slot) {
            (t, Ok(_)) => Ok((t, index_after(index, 1))),
            (_, Err(_)) => Err(VmError::BadConstant("locals 写 Reference 失败")),
        },
        Slot::ReturnAddress(_) | Slot::Top => Ok((locals, index_after(index, 1))),
    }
}

/// The locals after the slots from `i` on were written, the first of them at `index`.
pub open spec fn locals_filled(locals: Seq<Slot>, index: u16, slots: Seq<Slot>, i: int) -> Result<Seq<Slot>, VmError>
    decreases slots.len() - i,
{
    if i < 0 || i >= slots.len() {
        Ok(locals)
    } else {
        match local_written(locals, index, slots[i]) {
            Ok((t, next)) => locals_filled(t, next, slots, i + 1),
            Err(e) => Err(e),
        }
    }
}

/// The call of method `m` of the class at `k` with the given first locals.
pub open spec fn call_of(k: int, m: int, code: Code, slots: Seq<Slot>) -> Result<Call, VmError> {
    match locals_filled(empty_locals(code.max_locals), 0, slots, 0) {
        Ok(locals) => Ok(
            Call {
                class: k as usize,
                method: m as usize,
                locals,
                operands: Seq::empty(),
                max_stack: code.max_stack as nat,
            },
        ),
        Err(e) => Err(e),
    }
}

/// State and reference of an `InvocationTargetException` for `cause`.
pub open spec fn target_exception(s: State, cause: Reference) -> (State, Reference) {
    let (t, r) = thrown(s, "java/lang/reflect/InvocationTargetException"@);
    (
        named_field_written(
            t,
            r,
            "java/lang/reflect/InvocationTargetException"@,
            "target"@,
            Slot::Reference(cause),
        ),
        r,
    )
}

/// The failure of a called method: an exception is wrapped, any other error stays.
pub open spec fn call_failed(s: State, e: VmError) -> (State, Result<Value, VmError>) {
    match e {
        VmError::ThrownException(cause) => (
            target_exception(s, cause).0,
            Err(VmError::ThrownException(target_exception(s, cause).1)),
        ),
        _ => error(s, e),
    }
}

/// Outcome of a reflective call after the method ran.
pub open spec fn call_finished(s: State, result_type: Option<Type>, result: Result<Value, VmError>) -> (
    State,
    Result<Value, VmError>,
) {
    match result {
        Ok(v) => (
            boxed(s, result_type, v).0,
            match boxed(s, result_type, v).1 {
                Ok(r) => Ok(Value::Reference(r)),
                Err(e) => Err(e),
            },
        ),
        Err(e) => call_failed(s, e),
    }
}

/// Outcome of a reflective construction after the constructor ran.
pub open spec fn construction_finished(s: State, instance: Reference, result: Result<Value, VmError>) -> (
    State,
    Result<Value, VmError>,
) {
    match result {
        Ok(_) => value(s, Value::Reference(instance)),
        Err(e) => call_failed(s, e),
    }
}

/// Name and descriptor of the method at `slot` of a class.
pub open spec fn method_named(s: State, internal: Seq<char>, slot: i32) -> Result<(Seq<char>, Seq<char>), VmError> {
    if s.vm.registry is None {
        Err(VmError::BadConstant("invoke0 需类注册表"))
    } else {
        match s.class(internal) {
            None => Err(VmError::BadConstant("invoke0:声明类未加载")),
            Some(c) => if !(0 <= slot < c.cf.methods@.len()) {
                Err(VmError::BadConstant("invoke0:slot 越界"))
            } else {
                match c.cf.constant_pool.utf8_at(c.cf.methods@[slot as int].name_index) {
                    None => Err(VmError::BadConstant("invoke0:方法名解析失败")),
                    Some(name) => match c.cf.constant_pool.utf8_at(c.cf.methods@[slot as int].descriptor_index) {
                        None => Err(VmError::BadConstant("invoke0:描述符解析失败")),
                        Some(desc) => Ok((name, desc)),
                    },
                }
            },
        }
    }
}

/// The method that runs: the declared one if it is static, what the class of the receiver selects
/// otherwise. Places of class and method in the registry.
pub open spec fn call_target(
    s: State,
    internal: Seq<char>,
    slot: i32,
    name: Seq<char>,
    desc: Seq<char>,
    is_static: bool,
    receiver: Reference,
) -> Result<(int, int), (State, VmError)> {
    if is_static {
        Ok((s.vm.registry->0.index_of(internal)->0, slot as int))
    } else if receiver.0 is None {
        refused(s, "java/lang/NullPointerException"@)
    } else {
        match runtime_class(s, receiver) {
            None => refused(s, "java/lang/NullPointerException"@),
            Some(class) => match s.vm.registry->0.dispatch_of(class, name, desc) {
                Some((k, m)) => Ok((k as int, m as int)),
                None => refused(s, "java/lang/AbstractMethodError"@),
            },
        }
    }
}

/// The last part of a reflective call: the target, its code and its frame.
pub open spec fn call_prepared(
    s: State,
    target: Result<(int, int), (State, VmError)>,
    receiver: Option<Reference>,
    slots: Seq<Slot>,
    result: Option<Type>,
) -> (State, Step) {
    match target {
        Err(e) => done(stopped(e)),
        Ok((k, m)) => match s.vm.registry->0.classes()[k].cf.methods@[m].code {
            None => done(throws(s, "java/lang/AbstractMethodError"@)),
            Some(code) => match call_of(k, m, code, with_receiver(receiver, slots)) {
                Ok(call) => (s, Step::Invoke(call, result)),
                Err(e) => done(error(s, e)),
            },
        },
    }
}

/// The receiver, if there is one, before the arguments.
pub open spec fn with_receiver(receiver: Option<Reference>, slots: Seq<Slot>) -> Seq<Slot> {
    match receiver {
        Some(r) => seq![Slot::Reference(r)] + slots,
        None => slots,
    }
}

/// What `NativeAccessor.invoke0` comes to: a `Method`, the receiver and the arguments.
pub open spec fn reflective_call(s: State, args: Seq<Value>) -> (State, Step) {
    match object_arg(args, 0) {
        None => done(throws(s, "java/lang/NullPointerException"@)),
        Some(method) => match executable_meta(s, method, "java/lang/reflect/Method"@) {
            Err(e) => done(error(s, e)),
            Ok((clazz, slot, modifiers)) => match name_of(s.vm.class_mirrors, clazz) {
                None => done(error(s, VmError::BadConstant("invoke0:Method.clazz 非 Class 镜像"))),
                Some(internal) => match method_named(s, internal, slot) {
                    Err(e) => done(error(s, e)),
                    Ok((name, desc)) => match method_type(desc) {
                        None => done(error(s, VmError::BadConstant("invoke0:方法描述符非法"))),
                        Some(m) => match call_arguments(s, or_null(object_arg(args, 2)), m) {
                            Err(e) => done(stopped(e)),
                            Ok(slots) => {
                                let is_static = static_flag(modifiers);
                                let receiver = or_null(reference_arg(args, 1));
                                call_prepared(
                                    s,
                                    call_target(s, internal, slot, name, desc, is_static, receiver),
                                    if is_static {
                                        None
                                    } else {
                                        Some(receiver)
                                    },
                                    slots,
                                    m.result,
                                )
                            },
                        },
                    },
                },
            },
        },
    }
}

/// Whether modifiers are those of a static member.
pub open spec fn static_flag(modifiers: i32) -> bool {
    ((modifiers as u16) & ACC_STATIC) != 0
}

/// A reference, `null` without one.
pub open spec fn or_null(r: Option<Reference>) -> Reference {
    match r {
        Some(r) => r,
        None => Reference(None),
    }
}

/// Whether a class is loaded and abstract.
pub open spec fn abstract_class(s: State, internal: Seq<char>) -> bool {
    s.class(internal) matches Some(c) && (c.cf.access_flags & ACC_ABSTRACT) != 0
}

/// Descriptor of the constructor at `slot` of a class; an error where another method stands there.
pub open spec fn constructor_described(s: State, internal: Seq<char>, slot: i32) -> Result<Seq<char>, VmError> {
    if s.vm.registry is None {
        Err(VmError::BadConstant("newInstance0 需类注册表"))
    } else {
        match s.class(internal) {
            None => Err(VmError::BadConstant("newInstance0:声明类未加载")),
            Some(c) => if !(0 <= slot < c.cf.methods@.len()) {
                Err(VmError::BadConstant("newInstance0:slot 越界"))
            } else if c.cf.constant_pool.utf8_at(c.cf.methods@[slot as int].name_index) != Some("<init>"@) {
                Err(VmError::BadConstant("newInstance0:slot 非 <init>"))
            } else {
                match c.cf.constant_pool.utf8_at(c.cf.methods@[slot as int].descriptor_index) {
                    None => Err(VmError::BadConstant("newInstance0:描述符解析失败")),
                    Some(desc) => Ok(desc),
                }
            },
        }
    }
}

/// The last part of a reflective construction: the instance, then the frame of the constructor.
pub open spec fn construction_prepared(s: State, internal: Seq<char>, slot: i32, slots: Seq<Slot>) -> (State, Step) {
    let (t, instance) = s.alloc_fresh(internal);
    match s.class(internal)->0.cf.methods@[slot as int].code {
        None => done(throws(t, "java/lang/InstantiationError"@)),
        Some(code) => match call_of(
            s.vm.registry->0.index_of(internal)->0,
            slot as int,
            code,
            with_receiver(Some(instance), slots),
        ) {
            Ok(call) => (t, Step::Construct(call, instance)),
            Err(e) => done(error(t, e)),
        },
    }
}

/// What `NativeAccessor.newInstance0` comes to: a `Constructor` and the arguments.
pub open spec fn reflective_construction(s: State, args: Seq<Value>) -> (State, Step) {
    match object_arg(args, 0) {
        None => done(throws(s, "java/lang/NullPointerException"@)),
        Some(constructor) => match executable_meta(s, constructor, "java/lang/reflect/Constructor"@) {
            Err(e) => done(error(s, e)),
            Ok((clazz, slot, _)) => match name_of(s.vm.class_mirrors, clazz) {
                None => done(error(s, VmError::BadConstant("newInstance0:Constructor.clazz 非 Class 镜像"))),
                Some(internal) => if abstract_class(s, internal) {
                    done(throws(s, "java/lang/InstantiationException"@))
                } else {
                    match constructor_described(s, internal, slot) {
                        Err(e) => done(error(s, e)),
                        Ok(desc) => match method_type(desc) {
                            None => done(error(s, VmError::BadConstant("newInstance0:方法描述符非法"))),
                            Some(m) => match call_arguments(s, or_null(object_arg(args, 1)), m) {
                                Err(e) => done(stopped(e)),
                                Ok(slots) => construction_prepared(s, internal, slot, slots),
                            },
                        },
                    }
                },
            },
        },
    }
}

/// What a native method of `jdk.internal.reflect` comes to.
pub open spec fn outcome(s: State, native: JdkInternalReflect, args: Seq<Value>) -> (State, Step) {
    match native {
        JdkInternalReflect::GetCallerClass => done(caller_class(s)),
        JdkInternalReflect::GetClassAccessFlags => done(class_access_flags(s, args)),
        JdkInternalReflect::InvokeMethod => reflective_call(s, args),
        JdkInternalReflect::NewInstance => reflective_construction(s, args),
    }
}

fn get_caller_class(vm: &mut VmThread) -> (r: Result<Value, VmError>)
    ensures
        (final(vm)@, r) == caller_class(old(vm)@),
{
    let caller: Option<String> = match vm.frame_class_at(2) {
        Some(c) => Some(c.to_owned()),
        None => None,
    };
    match caller {
        Some(c) => match vm.intern_class_mirror(c.as_str()) {
            Ok(r) => Ok(Value::Reference(r)),
            Err(e) => Err(e),
        },
        None => Ok(Value::Reference(Reference(None))),
    }
}

/// `Reflection.getClassAccessFlags`; see [`class_access_flags`].
pub fn get_class_access_flags(vm: &mut VmThread, args: &[Value]) -> (r: Result<Value, VmError>)
    ensures
        (final(vm)@, r) == class_access_flags(old(vm)@, args@),
{
    match class_arg_name(vm, args) {
        None => throw(vm, "java/lang/NullPointerException"),
        Some(internal) => {
            if starts_with_char(internal.as_str(), '[') {
                return Ok(Value::Int(0));
            }
            if is_primitive_name(internal.as_str()) {
                return Ok(Value::Int(0x0411));
            }
            match vm.class(internal.as_str()) {
                Some(c) => Ok(Value::Int((c.cf.access_flags as i32) & 0x1FFF)),
                None => Ok(Value::Int(0)),
            }
        },
    }
}

/// Class mirror, slot and modifiers of a `Method` or `Constructor`.
pub fn read_executable_meta(vm: &VmThread, exec_ref: Reference, class_name: &str) -> (r: Result<
    (Reference, i32, i32),
    VmError,
>)
    ensures
        r == executable_meta(vm@, exec_ref, class_name@),
{
    let c: &LoadedClass = match vm.registry() {
        None => {
            return Err(VmError::BadConstant("反射调用需类注册表"));
        },
        Some(reg) => match reg.get(class_name) {
            None => {
                return Err(VmError::BadConstant("Executable 类未加载"));
            },
            Some(c) => c,
        },
    };
    match (c.field_index("clazz"), c.field_index("slot"), c.field_index("modifiers")) {
        (Some(clazz), Some(slot), Some(modifiers)) => match vm.heap().get(exec_ref) {
            Some(Oop::Instance(i)) => match i.field(clazz) {
                Slot::Reference(mirror) => match i.field(slot) {
                    Slot::Int(at) => match i.field(modifiers) {
                        Slot::Int(flags) => Ok((mirror, at, flags)),
                        _ => Err(VmError::BadConstant("modifiers 字段非 int")),
                    },
                    _ => Err(VmError::BadConstant("slot 字段非 int")),
                },
                _ => Err(VmError::BadConstant("clazz 字段非引用")),
            },
            _ => Err(VmError::BadConstant("Executable 引用非 Instance")),
        },
        _ => Err(VmError::BadConstant("Executable 缺 clazz/slot/modifiers 字段")),
    }
}

/// The elements of an object array; none for `null`.
pub fn read_object_array(vm: &VmThread, arr_ref: Reference) -> (r: Result<Vec<Reference>, VmError>)
    ensures
        match r {
            Ok(v) => object_elements(vm@, arr_ref) == Ok::<Seq<Reference>, VmError>(v@),
            Err(e) => object_elements(vm@, arr_ref) == Err::<Seq<Reference>, VmError>(e),
        },
{
    let mut out: Vec<Reference> = Vec::new();
    if arr_ref.is_null() {
        return Ok(out);
    }
    match vm.heap().get(arr_ref) {
        Some(Oop::Array(a)) => {
            let n: usize = a.length();
            let mut i: usize = 0;
            while i < n
                invariant
                    a@ is Array,
                    n == a@->elements.len(),
                    i <= n,
                    arr_ref.0 is Some,
                    vm@.object(arr_ref) == Some(a@),
                    all_references(a@->elements.take(i as int)),
                    out@ == references_in(a@->elements.take(i as int)),
                decreases n - i,
            {
                match a.element(i) {
                    Slot::Reference(r) => out.push(r),
                    _ => {
                        assert(!(a@->elements[i as int] is Reference));
                        return Err(VmError::BadConstant("Object[] 元素须 Reference"));
                    },
                }
                proof {
                    let before = a@->elements.take(i as int);
                    let after = a@->elements.take(i + 1);
                    assert forall|j: int| 0 <= j < after.len() implies (#[trigger] after[j]) is Reference by {
                        if j < i {
                            assert(before[j] is Reference);
                        }
                    }
                    assert(out@ =~= references_in(after));
                }
                i = i + 1;
            }
            assert(a@->elements.take(i as int) =~= a@->elements);
            Ok(out)
        },
        _ => Err(VmError::BadConstant("实参数组非 Array")),
    }
}

/// The wrapper class of a primitive type; `None` for classes and arrays.
pub fn primitive_wrapper(ft: &FieldType) -> (r: Option<&'static str>)
    ensures
        match r {
            Some(w) => wrapper_of(ft@) == Some(w@),
            None => wrapper_of(ft@) is None,
        },
{
    match ft {
        FieldType::Boolean => Some("java/lang/Boolean"),
        FieldType::Byte => Some("java/lang/Byte"),
        FieldType::Char => Some("java/lang/Character"),
        FieldType::Short => Some("java/lang/Short"),
        FieldType::Int => Some("java/lang/Integer"),
        FieldType::Long => Some("java/lang/Long"),
        FieldType::Float => Some("java/lang/Float"),
        FieldType::Double => Some("java/lang/Double"),
        _ => None,
    }
}

fn find_value_ord(vm: &VmThread, wrapper: &str, no_registry: VmError) -> (r: Result<usize, VmError>)
    ensures
        match r {
            Ok(i) => value_ord(vm@, wrapper@, no_registry) == Ok::<int, VmError>(i as int),
            Err(e) => value_ord(vm@, wrapper@, no_registry) == Err::<int, VmError>(e),
        },
{
    match vm.registry() {
        None => Err(no_registry),
        Some(reg) => match reg.get(wrapper) {
            None => Err(VmError::BadConstant("包装类未加载")),
            Some(c) => match c.field_index("value") {
                None => Err(VmError::BadConstant("包装类无 value 字段")),
                Some(ord) => Ok(ord),
            },
        },
    }
}

/// An argument as a parameter of type `param_type` takes it; see [`unboxed`].
pub fn unbox_arg(vm: &mut VmThread, arg: Reference, param_type: &FieldType) -> (r: Result<Slot, VmError>)
    ensures
        match r {
            Ok(slot) => final(vm)@ == old(vm)@ && unboxed(old(vm)@, arg, param_type@) == Ok::<
                Slot,
                (State, VmError),
            >(slot),
            Err(e) => unboxed(old(vm)@, arg, param_type@) == Err::<Slot, (State, VmError)>((final(vm)@, e)),
        },
{
    match primitive_wrapper(param_type) {
        None => Ok(Slot::Reference(arg)),
        Some(wrapper) => {
            if arg.is_null() {
                return Err(vm.throw_exception("java/lang/NullPointerException"));
            }
            match find_value_ord(vm, wrapper, VmError::BadConstant("拆箱需类注册表")) {
                Err(e) => Err(e),
                Ok(ord) => match vm.heap().get(arg) {
                    Some(Oop::Instance(i)) => Ok(i.field(ord)),
                    _ => Err(VmError::BadConstant("拆箱目标非 Instance")),
                },
            }
        },
    }
}

fn unbox_args(vm: &mut VmThread, args: &Vec<Reference>, types: &Vec<FieldType>) -> (r: Result<Vec<Slot>, VmError>)
    requires
        args@.len() == types@.len(),
    ensures
        match r {
            Ok(v) => final(vm)@ == old(vm)@ && unboxed_from(old(vm)@, args@, types_of(types@), 0, Seq::empty())
                == Ok::<Seq<Slot>, (State, VmError)>(v@),
            Err(e) => unboxed_from(old(vm)@, args@, types_of(types@), 0, Seq::empty()) == Err::<
                Seq<Slot>,
                (State, VmError),
            >((final(vm)@, e)),
        },
{
    let ghost ts = types_of(types@);
    let mut out: Vec<Slot> = Vec::new();
    let mut i: usize = 0;
    assert(out@ =~= Seq::<Slot>::empty());
    while i < args.len()
        invariant
            i <= args@.len(),
            args@.len() == types@.len(),
            ts == types_of(types@),
            vm@ == old(vm)@,
            unboxed_from(old(vm)@, args@, ts, i as int, out@) == unboxed_from(old(vm)@, args@, ts, 0, Seq::empty()),
        decreases args@.len() - i,
    {
        assert(ts[i as int] == types@[i as int]@);
        match unbox_arg(vm, args[i], &types[i]) {
            Ok(slot) => out.push(slot),
            Err(e) => {
                return Err(e);
            },
        }
        i = i + 1;
    }
    Ok(out)
}

fn read_call_arguments(vm: &mut VmThread, arr: Reference, m: &MethodDescriptor) -> (r: Result<Vec<Slot>, VmError>)
    ensures
        match r {
            Ok(v) => final(vm)@ == old(vm)@ && call_arguments(old(vm)@, arr, m@) == Ok::<
                Seq<Slot>,
                (State, VmError),
            >(v@),
            Err(e) => call_arguments(old(vm)@, arr, m@) == Err::<Seq<Slot>, (State, VmError)>((final(vm)@, e)),
        },
{
    match read_object_array(vm, arr) {
        Err(e) => Err(e),
        Ok(args) => {
            if args.len() != m.parameters.len() {
                return Err(vm.throw_exception("java/lang/IllegalArgumentException"));
            }
            unbox_args(vm, &args, &m.parameters)
        },
    }
}

/// Allocates a wrapper instance that holds `value`. No constructor runs.
pub fn alloc_wrapper(vm: &mut VmThread, wrapper: &str, value: Slot) -> (r: Result<Reference, VmError>)
    ensures
        (final(vm)@, r) == wrapped(old(vm)@, wrapper@, value),
{
    match find_value_ord(vm, wrapper, VmError::BadConstant("装箱需类注册表")) {
        Err(e) => Err(e),
        Ok(ord) => {
            let r: Reference = vm.alloc_fresh(wrapper);
            vm.write_field(r, ord, value);
            Ok(r)
        },
    }
}

fn slot_for_return(t: &FieldType, v: Value) -> (r: Option<Slot>)
    ensures
        r == returned_slot(t@, v),
{
    match t {
        FieldType::Boolean | FieldType::Byte | FieldType::Char | FieldType::Short | FieldType::Int => match v {
            Value::Int(x) => Some(Slot::Int(x)),
            _ => None,
        },
        FieldType::Long => match v {
            Value::Long(x) => Some(Slot::Long(x)),
            _ => None,
        },
        FieldType::Float => match v {
            Value::Float(x) => Some(Slot::Float(x)),
            _ => None,
        },
        FieldType::Double => match v {
            Value::Double(x) => Some(Slot::Double(x)),
            _ => None,
        },
        _ => None,
    }
}

/// What a method returned, as an object: `null` for `void`, a wrapper for a primitive value.
pub fn box_return(vm: &mut VmThread, ret: &ReturnDescriptor, value: Value) -> (r: Result<Reference, VmError>)
    ensures
        (final(vm)@, r) == boxed(old(vm)@, ret@, value),
{
    match ret {
        ReturnDescriptor::Void => Ok(Reference(None)),
        ReturnDescriptor::FieldType(t) => match primitive_wrapper(t) {
            None => match value {
                Value::Reference(r) => Ok(r),
                Value::Void => Ok(Reference(None)),
                _ => Err(VmError::BadConstant("引用返回值类型不符")),
            },
            Some(wrapper) => match slot_for_return(t, value) {
                None => Err(VmError::BadConstant("原语返回值类型不符")),
                Some(slot) => alloc_wrapper(vm, wrapper, slot),
            },
        },
    }
}

fn next_index(index: u16, n: u16) -> (r: u16)
    requires
        n <= 2,
    ensures
        r == index_after(index, n as int),
{
    let sum: u32 = index as u32 + n as u32;
    (sum % 0x1_0000) as u16
}

/// Writes a slot to the locals. Returns the next free index: a `long` or `double` takes two.
pub fn set_local_slot(locals: &mut LocalVars, index: u16, slot: Slot) -> (r: Result<u16, VmError>)
    ensures
        match r {
            Ok(next) => local_written(old(locals)@, index, slot) == Ok::<(Seq<Slot>, u16), VmError>(
                (final(locals)@, next),
            ),
            Err(e) => local_written(old(locals)@, index, slot) == Err::<(Seq<Slot>, u16), VmError>(e),
        },
{
    match slot {
        Slot::Long(v) => match locals.set_long(index, v) {
            Ok(_) => Ok(next_index(index, 2)),
            Err(_) => Err(VmError::BadConstant("locals 写 Long 失败")),
        },
        Slot::Double(v) => match locals.set_double(index, v) {
            Ok(_) => Ok(next_index(index, 2)),
            Err(_) => Err(VmError::BadConstant("locals 写 Double 失败")),
        },
        Slot::Int(v) => match locals.set_int(index, v) {
            Ok(_) => Ok(next_index(index, 1)),
            Err(_) => Err(VmError::BadConstant("locals 写 Int 失败")),
        },
        Slot::Float(v) => match locals.set_float(index, v) {
            Ok(_) => Ok(next_index(index, 1)),
            Err(_) => Err(VmError::BadConstant("locals 写 Float 失败")),
        },
        Slot::Reference(v) => match locals.set_reference(index, v) {
            Ok(_) => Ok(next_index(index, 1)),
            Err(_) => Err(VmError::BadConstant("locals 写 Reference 失败")),
        },
        Slot::ReturnAddress(_) | Slot::Top => Ok(next_index(index, 1)),
    }
}

/// Writes slots to the locals from index 0 on.
fn fill_locals(locals: &mut LocalVars, slots: &Vec<Slot>) -> (r: Result<(), VmError>)
    ensures
        match r {
            Ok(_) => locals_filled(old(locals)@, 0, slots@, 0) == Ok::<Seq<Slot>, VmError>(final(locals)@),
            Err(e) => locals_filled(old(locals)@, 0, slots@, 0) == Err::<Seq<Slot>, VmError>(e),
        },
{
    let mut index: u16 = 0;
    let mut i: usize = 0;
    while i < slots.len()
        invariant
            i <= slots@.len(),
            locals_filled(locals@, index, slots@, i as int) == locals_filled(old(locals)@, 0, slots@, 0),
        decreases slots@.len() - i,
    {
        match set_local_slot(locals, index, slots[i]) {
            Ok(next) => {
                index = next;
            },
            Err(e) => {
                return Err(e);
            },
        }
        i = i + 1;
    }
    Ok(())
}

fn make_call(k: usize, m: usize, code: &Code, slots: &Vec<Slot>) -> (r: Result<Invocation, VmError>)
    ensures
        match r {
            Ok(i) => call_of(k as int, m as int, *code, slots@) == Ok::<Call, VmError>(i@),
            Err(e) => call_of(k as int, m as int, *code, slots@) == Err::<Call, VmError>(e),
        },
{
    let mut frame: Frame = Frame::new(code.max_locals, code.max_stack);
    assert(frame.locals@ == empty_locals(code.max_locals));
    match fill_locals(&mut frame.locals, slots) {
        Ok(_) => Ok(Invocation { class: k, method: m, frame }),
        Err(e) => Err(e),
    }
}

fn prepend(receiver: Reference, slots: &Vec<Slot>) -> (r: Vec<Slot>)
    ensures
        r@ == with_receiver(Some(receiver), slots@),
{
    let mut out: Vec<Slot> = Vec::new();
    out.push(Slot::Reference(receiver));
    let mut i: usize = 0;
    while i < slots.len()
        invariant
            i <= slots@.len(),
            out@ == seq![Slot::Reference(receiver)] + slots@.take(i as int),
        decreases slots@.len() - i,
    {
        out.push(slots[i]);
        i = i + 1;
        assert(out@ =~= seq![Slot::Reference(receiver)] + slots@.take(i as int));
    }
    assert(slots@.take(i as int) =~= slots@);
    out
}

/// Throws an `InvocationTargetException` whose `target` is `cause`.
pub fn wrap_in_invocation_target_exception(vm: &mut VmThread, cause: Reference) -> (r: VmError)
    ensures
        final(vm)@ == target_exception(old(vm)@, cause).0,
        r == VmError::ThrownException(target_exception(old(vm)@, cause).1),
{
    let err: VmError = vm.throw_exception("java/lang/reflect/InvocationTargetException");
    match err {
        VmError::ThrownException(ite) => {
            vm.set_instance_field_by_name(
                ite,
                "java/lang/reflect/InvocationTargetException",
                "target",
                Slot::Reference(cause),
            );
        },
        _ => {},
    }
    err
}

fn fail_call(vm: &mut VmThread, e: VmError) -> (r: Result<Value, VmError>)
    ensures
        (final(vm)@, r) == call_failed(old(vm)@, e),
{
    match e {
        VmError::ThrownException(cause) => Err(wrap_in_invocation_target_exception(vm, cause)),
        _ => Err(e),
    }
}

/// `NativeAccessor.invoke0`, after the method ran: its result as an object, its exception wrapped.
pub fn finish_invoke(vm: &mut VmThread, ret: &ReturnDescriptor, result: Result<Value, VmError>) -> (r: Result<
    Value,
    VmError,
>)
    ensures
        (final(vm)@, r) == call_finished(old(vm)@, ret@, result),
{
    match result {
        Ok(v) => match box_return(vm, ret, v) {
            Ok(r) => Ok(Value::Reference(r)),
            Err(e) => Err(e),
        },
        Err(e) => fail_call(vm, e),
    }
}

/// `NativeAccessor.newInstance0`, after the constructor ran: the instance, or the exception wrapped.
pub fn finish_construct(vm: &mut VmThread, instance: Reference, result: Result<Value, VmError>) -> (r: Result<
    Value,
    VmError,
>)
    ensures
        (final(vm)@, r) == construction_finished(old(vm)@, instance, result),
{
    match result {
        Ok(_) => Ok(Value::Reference(instance)),
        Err(e) => fail_call(vm, e),
    }
}

fn find_method_named(vm: &VmThread, internal: &str, slot: i32) -> (r: Result<(String, String), VmError>)
    ensures
        match r {
            Ok((n, d)) => method_named(vm@, internal@, slot) == Ok::<(Seq<char>, Seq<char>), VmError>((n@, d@)),
            Err(e) => method_named(vm@, internal@, slot) == Err::<(Seq<char>, Seq<char>), VmError>(e),
        },
{
    match vm.registry() {
        None => Err(VmError::BadConstant("invoke0 需类注册表")),
        Some(reg) => match reg.get(internal) {
            None => Err(VmError::BadConstant("invoke0:声明类未加载")),
            Some(c) => {
                let n: usize = c.cf.methods.len();
                if slot < 0 || slot as u64 >= n as u64 {
                    return Err(VmError::BadConstant("invoke0:slot 越界"));
                }
                let m = &c.cf.methods[slot as usize];
                match c.cf.constant_pool.utf8(m.name_index) {
                    None => Err(VmError::BadConstant("invoke0:方法名解析失败")),
                    Some(name) => match c.cf.constant_pool.utf8(m.descriptor_index) {
                        None => Err(VmError::BadConstant("invoke0:描述符解析失败")),
                        Some(desc) => Ok((name.to_owned(), desc.to_owned())),
                    },
                }
            },
        },
    }
}

fn is_static_flag(modifiers: i32) -> (r: bool)
    ensures
        r == static_flag(modifiers),
{
    ((modifiers as u16) & ACC_STATIC) != 0
}

fn find_target(
    vm: &mut VmThread,
    internal: &str,
    slot: i32,
    name: &str,
    desc: &str,
    is_static: bool,
    receiver: Reference,
) -> (r: Result<(usize, usize), VmError>)
    requires
        method_named(old(vm)@, internal@, slot) is Ok,
    ensures
        match r {
            Ok((k, m)) => final(vm)@ == old(vm)@ && k < old(vm)@.vm.registry->0.classes().len() && m
                < old(vm)@.vm.registry->0.classes()[k as int].cf.methods@.len() && call_target(
                old(vm)@,
                internal@,
                slot,
                name@,
                desc@,
                is_static,
                receiver,
            ) == Ok::<(int, int), (State, VmError)>((k as int, m as int)),
            Err(e) => call_target(old(vm)@, internal@, slot, name@, desc@, is_static, receiver) == Err::<
                (int, int),
                (State, VmError),
            >((final(vm)@, e)),
        },
{
    if is_static {
        let k: Option<usize> = match vm.registry() {
            Some(reg) => reg.position(internal),
            None => None,
        };
        return match k {
            Some(k) => Ok((k, slot as usize)),
            None => Err(vm.throw_exception("java/lang/NullPointerException")),
        };
    }
    if receiver.is_null() {
        return Err(vm.throw_exception("java/lang/NullPointerException"));
    }
    let class: String = match runtime_class_of(vm, receiver) {
        Some(c) => c,
        None => {
            return Err(vm.throw_exception("java/lang/NullPointerException"));
        },
    };
    let found: Option<(usize, usize)> = match vm.registry() {
        Some(reg) => reg.resolve_dispatch(class.as_str(), name, desc),
        None => None,
    };
    match found {
        Some((k, m)) => Ok((k, m)),
        None => Err(vm.throw_exception("java/lang/AbstractMethodError")),
    }
}

fn prepare_call(vm: &mut VmThread, k: usize, m: usize, slots: &Vec<Slot>, result: ReturnDescriptor) -> (r: NativeStep)
    requires
        old(vm)@.vm.registry is Some,
        k < old(vm)@.vm.registry->0.classes().len(),
        m < old(vm)@.vm.registry->0.classes()[k as int].cf.methods@.len(),
    ensures
        (final(vm)@, r@) == call_prepared(
            old(vm)@,
            Ok((k as int, m as int)),
            None,
            slots@,
            result@,
        ),
{
    match vm.registry() {
        Some(reg) => match reg.class_at(k) {
            Some(c) => match &c.cf.methods[m].code {
                Some(code) => {
                    return match make_call(k, m, code, slots) {
                        Ok(call) => NativeStep::Invoke(call, result),
                        Err(e) => NativeStep::Done(Err(e)),
                    };
                },
                None => {},
            },
            None => {},
        },
        None => {},
    }
    NativeStep::Done(throw(vm, "java/lang/AbstractMethodError"))
}

/// `NativeAccessor.invoke0`, up to the call: finds the method that a `Method` stands for, unwraps the
/// arguments and prepares the frame.
pub fn invoke_method_native(vm: &mut VmThread, args: &[Value]) -> (r: NativeStep)
    ensures
        (final(vm)@, r@) == reflective_call(old(vm)@, args@),
{
    let method: Reference = match get_object(args, 0) {
        Some(r) => r,
        None => {
            return NativeStep::Done(throw(vm, "java/lang/NullPointerException"));
        },
    };
    let receiver: Reference = match get_reference(args, 1) {
        Some(r) => r,
        None => Reference(None),
    };
    let array: Reference = match get_object(args, 2) {
        Some(r) => r,
        None => Reference(None),
    };
    let (clazz, slot, modifiers): (Reference, i32, i32) = match read_executable_meta(
        vm,
        method,
        "java/lang/reflect/Method",
    ) {
        Ok(m) => m,
        Err(e) => {
            return NativeStep::Done(Err(e));
        },
    };
    let internal: String = match vm.mirror_internal_name(clazz) {
        Some(n) => n,
        None => {
            return NativeStep::Done(Err(VmError::BadConstant("invoke0:Method.clazz 非 Class 镜像")));
        },
    };
    let (name, desc): (String, String) = match find_method_named(vm, internal.as_str(), slot) {
        Ok(p) => p,
        Err(e) => {
            return NativeStep::Done(Err(e));
        },
    };
    let m: MethodDescriptor = match parse_method_descriptor(desc.as_str()) {
        Some(m) => m,
        None => {
            return NativeStep::Done(Err(VmError::BadConstant("invoke0:方法描述符非法")));
        },
    };
    let slots: Vec<Slot> = match read_call_arguments(vm, array, &m) {
        Ok(v) => v,
        Err(e) => {
            return NativeStep::Done(Err(e));
        },
    };
    let is_static: bool = is_static_flag(modifiers);
    match find_target(vm, internal.as_str(), slot, name.as_str(), desc.as_str(), is_static, receiver) {
        Err(e) => NativeStep::Done(Err(e)),
        Ok((k, i)) => {
            let all: Vec<Slot> = if is_static {
                slots
            } else {
                prepend(receiver, &slots)
            };
            prepare_call(vm, k, i, &all, m.return_type)
        },
    }
}

fn is_abstract_class(vm: &VmThread, internal: &str) -> (r: bool)
    ensures
        r == abstract_class(vm@, internal@),
{
    match vm.class(internal) {
        Some(c) => (c.cf.access_flags & ACC_ABSTRACT) != 0,
        None => false,
    }
}

fn find_constructor_descriptor(vm: &VmThread, internal: &str, slot: i32) -> (r: Result<String, VmError>)
    ensures
        match r {
            Ok(d) => constructor_described(vm@, internal@, slot) == Ok::<Seq<char>, VmError>(d@),
            Err(e) => constructor_described(vm@, internal@, slot) == Err::<Seq<char>, VmError>(e),
        },
{
    match vm.registry() {
        None => Err(VmError::BadConstant("newInstance0 需类注册表")),
        Some(reg) => match reg.get(internal) {
            None => Err(VmError::BadConstant("newInstance0:声明类未加载")),
            Some(c) => {
                let n: usize = c.cf.methods.len();
                if slot < 0 || slot as u64 >= n as u64 {
                    return Err(VmError::BadConstant("newInstance0:slot 越界"));
                }
                let is_constructor: bool = match c.cf.constant_pool.utf8(c.cf.methods[slot as usize].name_index) {
                    Some(name) => str_eq(name, "<init>"),
                    None => false,
                };
                if !is_constructor {
                    return Err(VmError::BadConstant("newInstance0:slot 非 <init>"));
                }
                match c.cf.constant_pool.utf8(c.cf.methods[slot as usize].descriptor_index) {
                    None => Err(VmError::BadConstant("newInstance0:描述符解析失败")),
                    Some(desc) => Ok(desc.to_owned()),
                }
            },
        },
    }
}

fn prepare_construction(vm: &mut VmThread, internal: &str, slot: i32, slots: &Vec<Slot>) -> (r: NativeStep)
    requires
        constructor_described(old(vm)@, internal@, slot) is Ok,
    ensures
        (final(vm)@, r@) == construction_prepared(old(vm)@, internal@, slot, slots@),
{
    let instance: Reference = vm.alloc_fresh(internal);
    let all: Vec<Slot> = prepend(instance, slots);
    match vm.registry() {
        Some(reg) => match reg.position(internal) {
            Some(k) => match reg.class_at(k) {
                Some(c) => match &c.cf.methods[slot as usize].code {
                    Some(code) => {
                        return match make_call(k, slot as usize, code, &all) {
                            Ok(call) => NativeStep::Construct(call, instance),
                            Err(e) => NativeStep::Done(Err(e)),
                        };
                    },
                    None => {},
                },
                None => {},
            },
            None => {},
        },
        None => {},
    }
    NativeStep::Done(throw(vm, "java/lang/InstantiationError"))
}

/// `NativeAccessor.newInstance0`, up to the call: allocates the instance, unwraps the arguments and prepares
/// the frame of the constructor.
pub fn new_instance_native(vm: &mut VmThread, args: &[Value]) -> (r: NativeStep)
    ensures
        (final(vm)@, r@) == reflective_construction(old(vm)@, args@),
{
    let constructor: Reference = match get_object(args, 0) {
        Some(r) => r,
        None => {
            return NativeStep::Done(throw(vm, "java/lang/NullPointerException"));
        },
    };
    let array: Reference = match get_object(args, 1) {
        Some(r) => r,
        None => Reference(None),
    };
    let (clazz, slot, _): (Reference, i32, i32) = match read_executable_meta(
        vm,
        constructor,
        "java/lang/reflect/Constructor",
    ) {
        Ok(m) => m,
        Err(e) => {
            return NativeStep::Done(Err(e));
        },
    };
    let internal: String = match vm.mirror_internal_name(clazz) {
        Some(n) => n,
        None => {
            return NativeStep::Done(Err(VmError::BadConstant("newInstance0:Constructor.clazz 非 Class 镜像")));
        },
    };
    if is_abstract_class(vm, internal.as_str()) {
        return NativeStep::Done(throw(vm, "java/lang/InstantiationException"));
    }
    let desc: String = match find_constructor_descriptor(vm, internal.as_str(), slot) {
        Ok(d) => d,
        Err(e) => {
            return NativeStep::Done(Err(e));
        },
    };
    let m: MethodDescriptor = match parse_method_descriptor(desc.as_str()) {
        Some(m) => m,
        None => {
            return NativeStep::Done(Err(VmError::BadConstant("newInstance0:方法描述符非法")));
        },
    };
    let slots: Vec<Slot> = match read_call_arguments(vm, array, &m) {
        Ok(v) => v,
        Err(e) => {
            return NativeStep::Done(Err(e));
        },
    };
    prepare_construction(vm, internal.as_str(), slot, &slots)
}

/// Runs a native method of `jdk.internal.reflect`.
pub fn run(vm: &mut VmThread, native: JdkInternalReflect, args: &[Value]) -> (r: NativeStep)
    ensures
        (final(vm)@, r@) == outcome(old(vm)@, native, args@),
{
    match native {
        JdkInternalReflect::GetCallerClass => NativeStep::Done(get_caller_class(vm)),
        JdkInternalReflect::GetClassAccessFlags => NativeStep::Done(get_class_access_flags(vm, args)),
        JdkInternalReflect::InvokeMethod => invoke_method_native(vm, args),
        JdkInternalReflect::NewInstance => new_instance_native(vm, args),
    }
}

/// The bindings of a registry after the native methods of `jdk.internal.reflect` were added.
pub open spec fn registered(m: Map<Key, Native>) -> Map<Key, Native> {
    m.insert(
        ("jdk/internal/reflect/Reflection"@, "getCallerClass"@, "()Ljava/lang/Class;"@),
        Native::JdkInternalReflect(JdkInternalReflect::GetCallerClass),
    ).insert(
        ("jdk/internal/reflect/Reflection"@, "getClassAccessFlags"@, "(Ljava/lang/Class;)I"@),
        Native::JdkInternalReflect(JdkInternalReflect::GetClassAccessFlags),
    ).insert(
        ("jdk/internal/reflect/DirectMethodHandleAccessor$NativeAccessor"@, "invoke0"@, "(Ljava/lang/reflect/Method;Ljava/lang/Object;[Ljava/lang/Object;)Ljava/lang/Object;"@),
        Native::JdkInternalReflect(JdkInternalReflect::InvokeMethod),
    ).insert(
        ("jdk/internal/reflect/DirectConstructorHandleAccessor$NativeAccessor"@, "newInstance0"@, "(Ljava/lang/reflect/Constructor;[Ljava/lang/Object;)Ljava/lang/Object;"@),
        Native::JdkInternalReflect(JdkInternalReflect::NewInstance),
    )
}

/// Binds the native methods of `jdk.internal.reflect`.
pub fn register(reg: &mut NativeRegistry<Native>)
    ensures
        final(reg)@ == registered(old(reg)@),
{
    reg.register(
        "jdk/internal/reflect/Reflection",
        "getCallerClass",
        "()Ljava/lang/Class;",
        Native::JdkInternalReflect(JdkInternalReflect::GetCallerClass),
    );
    reg.register(
        "jdk/internal/reflect/Reflection",
        "getClassAccessFlags",
        "(Ljava/lang/Class;)I",
        Native::JdkInternalReflect(JdkInternalReflect::GetClassAccessFlags),
    );
    reg.register(
        "jdk/internal/reflect/DirectMethodHandleAccessor$NativeAccessor",
        "invoke0",
        "(Ljava/lang/reflect/Method;Ljava/lang/Object;[Ljava/lang/Object;)Ljava/lang/Object;",
        Native::JdkInternalReflect(JdkInternalReflect::InvokeMethod),
    );
    reg.register(
        "jdk/internal/reflect/DirectConstructorHandleAccessor$NativeAccessor",
        "newInstance0",
        "(Ljava/lang/reflect/Constructor;[Ljava/lang/Object;)Ljava/lang/Object;",
        Native::JdkInternalReflect(JdkInternalReflect::NewInstance),
    );
}

/// A method that asks for its caller gets the class of the frame below its own.
pub proof fn law_caller_class(
    s: State,
    caller: Seq<char>,
    caller_method: Seq<char>,
    asking: Seq<char>,
    asking_method: Seq<char>,
    native: Seq<char>,
    native_method: Seq<char>,
)
    ensures
        ({
            let t = pushed(pushed(pushed(s, caller, caller_method), asking, asking_method), native, native_method);
            caller_class(t) == mirror_value(t, caller)
        }),
        s.thread.call_stack.len() < 2 ==> caller_class(pushed(s, native, native_method)).1 == Ok::<Value, VmError>(
            Value::Reference(Reference(None)),
        ),
{
}

/// What was wrapped is unwrapped again.
pub proof fn law_unbox_undoes_box(s: State, t: Type, slot: Slot)
    requires
        wrapper_of(t) is Some,
        wrapped(s, wrapper_of(t)->0, slot).1 is Ok,
        s.vm.heap.len() < crate::runtime::heap::handle_space(),
    ensures
        ({
            let (after, r) = wrapped(s, wrapper_of(t)->0, slot);
            unboxed(after, r->Ok_0, t) == Ok::<Slot, (State, VmError)>(slot)
        }),
{
    let wrapper = wrapper_of(t)->0;
    let c = s.class(wrapper)->0;
    let ord = c.ord_of("value"@)->0;
    let names = crate::metadata::class_registry::field_names(c.instance_fields@);
    let i = choose|i: int| crate::runtime::text::is_first(names, "value"@, i);
    assert(crate::runtime::text::is_first(names, "value"@, i));
    let (u, r) = s.alloc_fresh(wrapper);
    assert(u.object(r) == Some(c.fresh()));
    let after = u.write_field(r, ord, slot);
    assert(after.vm.registry == s.vm.registry);
    assert(value_ord(after, wrapper, VmError::BadConstant("拆箱需类注册表")) == Ok::<int, VmError>(ord));
}

/// A method that throws surfaces as an `InvocationTargetException` whose `target` is what it threw.
pub proof fn law_target_exception_holds_the_cause(s: State, result: Option<Type>, cause: Reference)
    requires
        s.field_ord("java/lang/reflect/InvocationTargetException"@, "target"@) is Some,
        s.vm.heap.len() < crate::runtime::heap::handle_space(),
    ensures
        ({
            let class = "java/lang/reflect/InvocationTargetException"@;
            let (t, r) = call_finished(s, result, Err(VmError::ThrownException(cause)));
            &&& r matches Err(VmError::ThrownException(e)) && reference_field(t, e, class, "target"@) == Some(cause)
        }),
{
    let class = "java/lang/reflect/InvocationTargetException"@;
    let c = s.class(class)->0;
    let names = crate::metadata::class_registry::field_names(c.instance_fields@);
    let i = choose|i: int| crate::runtime::text::is_first(names, "target"@, i);
    assert(crate::runtime::text::is_first(names, "target"@, i));
    let (t, e) = thrown(s, class);
    assert(t.object(e) == Some(c.fresh()));
    assert(t.vm.registry == s.vm.registry);
}

} // verus!
