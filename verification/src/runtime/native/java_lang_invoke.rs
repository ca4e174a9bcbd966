//! Native methods of `java.lang.invoke`: the members behind method handles.

use vstd::prelude::*;

use super::jdk_internal_reflect::or_null;
use super::registry::{Key, NativeRegistry};
use super::step::{
    done, error, get_object, get_reference, object_arg, reference_arg, throw, throws, value, NativeStep, Step,
};
use super::Native;
use crate::metadata::class_registry::LoadedClass;
use crate::runtime::oop::{slot_or_top, Object, Oop};
use crate::runtime::slot::{Reference, Slot};
use crate::runtime::string::{read_text, text_at};
use crate::runtime::text::str_eq;
use crate::runtime::value::{Value, VmError};
use crate::runtime::vm::class_mirrors::name_of;
use crate::runtime::vm::mirrors::{int_field, named_field_written, reference_field};
use crate::runtime::vm::threads::instance_class;
use crate::runtime::vm::{State, VmThread};

verus! {

broadcast use crate::runtime::oop::oop_variant;

/// `MN_IS_METHOD`: the member is a method.
pub const MN_IS_METHOD: i32 = 0x0001_0000;

/// `MN_IS_CONSTRUCTOR`: the member is a constructor.
pub const MN_IS_CONSTRUCTOR: i32 = 0x0002_0000;

/// `MN_IS_FIELD`: the member is a field.
pub const MN_IS_FIELD: i32 = 0x0004_0000;

/// `MN_REFERENCE_KIND_SHIFT`: where the reference kind stands in the flags.
pub const MN_REFERENCE_KIND_SHIFT: i32 = 24;

/// `REF_getField`.
pub const REF_GET_FIELD: i32 = 1;

/// `REF_getStatic`.
pub const REF_GET_STATIC: i32 = 2;

/// The access flag of static members.
pub const STATIC_BIT: i32 = 0x0008;

/// The native methods of `java.lang.invoke`.
#[derive(Debug, Clone, Copy, PartialEq, Eq, Structural)]
pub enum JavaLangInvoke {
    Init,
    Resolve,
    ObjectFieldOffset,
    StaticFieldOffset,
    StaticFieldBase,
}

/// The reference kind in member flags.
pub open spec fn reference_kind(flags: i32) -> i32 {
    (flags >> MN_REFERENCE_KIND_SHIFT) & 0x0F
}

/// The bit for the kind of member: field for kinds 1 to 4, constructor for 8, method for 5, 6, 7 and 9.
pub open spec fn kind_bit(kind: i32) -> i32 {
    if 1 <= kind <= 4 {
        MN_IS_FIELD
    } else if kind == 8 {
        MN_IS_CONSTRUCTOR
    } else if kind == 5 || kind == 6 || kind == 7 || kind == 9 {
        MN_IS_METHOD
    } else {
        0
    }
}

/// The static bit for the kinds that go to static members: `getStatic`, `putStatic`, `invokeStatic`.
pub open spec fn static_bit(kind: i32) -> i32 {
    if kind == 2 || kind == 4 || kind == 6 {
        STATIC_BIT
    } else {
        0
    }
}

/// Member flags with the bits that follow from the reference kind.
pub open spec fn resolved_flags(flags: i32) -> i32 {
    (flags | kind_bit(reference_kind(flags))) | static_bit(reference_kind(flags))
}

/// State after the flags of a `MemberName` were completed.
pub open spec fn flags_resolved(s: State, member: Reference) -> State {
    match int_field(s, member, "java/lang/invoke/MemberName"@, "flags"@) {
        None => s,
        Some(flags) => if resolved_flags(flags) == flags {
            s
        } else {
            named_field_written(
                s,
                member,
                "java/lang/invoke/MemberName"@,
                "flags"@,
                Slot::Int(resolved_flags(flags)),
            )
        },
    }
}

/// Class and field name of a `MemberName`; `None` if either is missing.
pub open spec fn member_parts(s: State, member: Option<Reference>) -> Result<Option<(Seq<char>, Seq<char>)>, VmError> {
    match member {
        None => Ok(None),
        Some(m) => match (
            reference_field(s, m, "java/lang/invoke/MemberName"@, "clazz"@),
            reference_field(s, m, "java/lang/invoke/MemberName"@, "name"@),
        ) {
            (Some(clazz), Some(name)) => match name_of(s.vm.class_mirrors, clazz) {
                None => Ok(None),
                Some(internal) => match text_at(s, name) {
                    Err(e) => Err(e),
                    Ok(None) => Ok(None),
                    Ok(Some(field)) => Ok(Some((internal, field))),
                },
            },
            _ => Ok(None),
        },
    }
}

/// A position as a `long`, -1 without one.
pub open spec fn position_value(ord: Option<int>) -> Value {
    Value::Long(
        match ord {
            Some(i) => i as i64,
            None => (-1) as i64,
        },
    )
}

/// Layout position of static field `field` of `class`.
pub open spec fn static_ord(s: State, class: Seq<char>, field: Seq<char>) -> Option<int> {
    match s.class(class) {
        Some(c) => c.static_ord_of(field),
        None => None,
    }
}

/// Outcome of `MethodHandleNatives.objectFieldOffset` or `staticFieldOffset`.
pub open spec fn member_offset(s: State, args: Seq<Value>, is_static: bool) -> Result<Value, VmError> {
    match member_parts(s, object_arg(args, 0)) {
        Err(e) => Err(e),
        Ok(None) => Ok(position_value(None)),
        Ok(Some((class, field))) => Ok(
            position_value(
                if is_static {
                    static_ord(s, class, field)
                } else {
                    s.field_ord(class, field)
                },
            ),
        ),
    }
}

/// Outcome of `MethodHandleNatives.staticFieldBase`: the mirror of the declaring class.
pub open spec fn member_base(s: State, args: Seq<Value>) -> Value {
    Value::Reference(
        match object_arg(args, 0) {
            None => Reference(None),
            Some(m) => match reference_field(s, m, "java/lang/invoke/MemberName"@, "clazz"@) {
                Some(c) => c,
                None => Reference(None),
            },
        },
    )
}

/// Class mirror and modifiers of a `Field`.
pub open spec fn field_meta(s: State, field: Reference) -> Result<(Reference, i32), VmError> {
    if s.vm.registry is None {
        Err(VmError::BadConstant("MethodHandleNatives.init 需类注册表"))
    } else {
        match s.class("java/lang/reflect/Field"@) {
            None => Err(VmError::BadConstant("Field 类未加载")),
            Some(c) => match (c.ord_of("clazz"@), c.ord_of("modifiers"@)) {
                (Some(clazz), Some(modifiers)) => match s.object(field) {
                    Some(Object::Instance { fields, .. }) => match slot_or_top(fields, clazz) {
                        Slot::Reference(mirror) => match slot_or_top(fields, modifiers) {
                            Slot::Int(flags) => Ok((mirror, flags)),
                            _ => Err(VmError::BadConstant("Field.modifiers 非 int")),
                        },
                        _ => Err(VmError::BadConstant("Field.clazz 非引用")),
                    },
                    _ => Err(VmError::BadConstant("Field 引用非 Instance")),
                },
                _ => Err(VmError::BadConstant("Field 缺 clazz/modifiers 字段")),
            },
        }
    }
}

/// The member flags of a field with the given modifiers: a getter, static if the field is.
pub open spec fn field_flags(modifiers: i32) -> i32 {
    let kind = if (modifiers & STATIC_BIT) != 0 {
        REF_GET_STATIC
    } else {
        REF_GET_FIELD
    };
    (modifiers | MN_IS_FIELD) | (kind << MN_REFERENCE_KIND_SHIFT)
}

/// State after a `MemberName` was filled from a `Field`.
pub open spec fn member_filled(s: State, member: Reference, clazz: Reference, modifiers: i32) -> State {
    let t = named_field_written(s, member, "java/lang/invoke/MemberName"@, "clazz"@, Slot::Reference(clazz));
    named_field_written(t, member, "java/lang/invoke/MemberName"@, "flags"@, Slot::Int(field_flags(modifiers)))
}

/// Outcome of `MethodHandleNatives.init`: fills a `MemberName` from a `Field`; nothing happens for any other
/// object.
pub open spec fn member_initialized(s: State, args: Seq<Value>) -> (State, Result<Value, VmError>) {
    match (reference_arg(args, 0), reference_arg(args, 1)) {
        (Some(member), Some(target)) => if instance_class(s, target) == Some("java/lang/reflect/Field"@) {
            match field_meta(s, target) {
                Err(e) => error(s, e),
                Ok((clazz, modifiers)) => value(member_filled(s, member, clazz, modifiers), Value::Void),
            }
        } else {
            value(s, Value::Void)
        },
        _ => throws(s, "java/lang/NullPointerException"@),
    }
}

/// What a native method of `java.lang.invoke` comes to.
pub open spec fn outcome(s: State, native: JavaLangInvoke, args: Seq<Value>) -> (State, Step) {
    match native {
        JavaLangInvoke::Init => done(member_initialized(s, args)),
        JavaLangInvoke::Resolve => done(
            value(flags_resolved(s, or_null(reference_arg(args, 0))), Value::Reference(or_null(reference_arg(args, 0)))),
        ),
        JavaLangInvoke::ObjectFieldOffset => (s, Step::Done(member_offset(s, args, false))),
        JavaLangInvoke::StaticFieldOffset => (s, Step::Done(member_offset(s, args, true))),
        JavaLangInvoke::StaticFieldBase => done(value(s, member_base(s, args))),
    }
}

fn kind_bit_of(kind: i32) -> (r: i32)
    ensures
        r == kind_bit(kind),
{
    if 1 <= kind && kind <= 4 {
        MN_IS_FIELD
    } else if kind == 8 {
        MN_IS_CONSTRUCTOR
    } else if kind == 5 || kind == 6 || kind == 7 || kind == 9 {
        MN_IS_METHOD
    } else {
        0
    }
}

/// Completes the flags of a `MemberName` by its reference kind. Sets bits only; does not look at the member.
pub fn resolve_member_flags(vm: &mut VmThread, mname: Reference)
    ensures
        final(vm)@ == flags_resolved(old(vm)@, mname),
{
    let flags: i32 = match vm.instance_int_field(mname, "java/lang/invoke/MemberName", "flags") {
        Some(f) => f,
        None => {
            return;
        },
    };
    let kind: i32 = (flags >> MN_REFERENCE_KIND_SHIFT) & 0x0F;
    let acc_static: i32 = if kind == 2 || kind == 4 || kind == 6 {
        STATIC_BIT
    } else {
        0
    };
    let new_flags: i32 = (flags | kind_bit_of(kind)) | acc_static;
    if new_flags != flags {
        vm.set_instance_field_by_name(mname, "java/lang/invoke/MemberName", "flags", Slot::Int(new_flags));
    }
}

fn read_member_parts(vm: &VmThread, member: Option<Reference>) -> (r: Result<Option<(String, String)>, VmError>)
    ensures
        match r {
            Err(e) => member_parts(vm@, member) == Err::<Option<(Seq<char>, Seq<char>)>, VmError>(e),
            Ok(None) => member_parts(vm@, member) == Ok::<Option<(Seq<char>, Seq<char>)>, VmError>(None),
            Ok(Some((c, f))) => member_parts(vm@, member) == Ok::<Option<(Seq<char>, Seq<char>)>, VmError>(
                Some((c@, f@)),
            ),
        },
{
    let m: Reference = match member {
        Some(m) => m,
        None => {
            return Ok(None);
        },
    };
    match (
        vm.instance_reference_field(m, "java/lang/invoke/MemberName", "clazz"),
        vm.instance_reference_field(m, "java/lang/invoke/MemberName", "name"),
    ) {
        (Some(clazz), Some(name)) => match vm.mirror_internal_name(clazz) {
            None => Ok(None),
            Some(internal) => match read_text(vm, name) {
                Err(e) => Err(e),
                Ok(None) => Ok(None),
                Ok(Some(field)) => Ok(Some((internal, field))),
            },
        },
        _ => Ok(None),
    }
}

/// `MethodHandleNatives.objectFieldOffset`: the layout position of an instance field, -1 if there is none.
pub fn object_field_offset(vm: &VmThread, args: &[Value]) -> (r: Result<Value, VmError>)
    ensures
        r == member_offset(vm@, args@, false),
{
    match read_member_parts(vm, get_object(args, 0)) {
        Err(e) => Err(e),
        Ok(None) => Ok(Value::Long(-1)),
        Ok(Some((class, field))) => match vm.field_ord(class.as_str(), field.as_str()) {
            Some(i) => Ok(Value::Long(i as i64)),
            None => Ok(Value::Long(-1)),
        },
    }
}

/// `MethodHandleNatives.staticFieldOffset`: the position of a static field, -1 if there is none.
pub fn static_field_offset(vm: &VmThread, args: &[Value]) -> (r: Result<Value, VmError>)
    ensures
        r == member_offset(vm@, args@, true),
{
    match read_member_parts(vm, get_object(args, 0)) {
        Err(e) => Err(e),
        Ok(None) => Ok(Value::Long(-1)),
        Ok(Some((class, field))) => {
            let found: Option<usize> = match vm.class(class.as_str()) {
                Some(c) => c.static_field_index(field.as_str()),
                None => None,
            };
            match found {
                Some(i) => Ok(Value::Long(i as i64)),
                None => Ok(Value::Long(-1)),
            }
        },
    }
}

/// `MethodHandleNatives.staticFieldBase`: the mirror of the declaring class.
pub fn static_field_base(vm: &VmThread, args: &[Value]) -> (r: Value)
    ensures
        r == member_base(vm@, args@),
{
    match get_object(args, 0) {
        None => Value::Reference(Reference(None)),
        Some(m) => match vm.instance_reference_field(m, "java/lang/invoke/MemberName", "clazz") {
            Some(c) => Value::Reference(c),
            None => Value::Reference(Reference(None)),
        },
    }
}

/// Class mirror and modifiers of a `Field`.
pub fn read_field_meta(vm: &VmThread, fld: Reference) -> (r: Result<(Reference, i32), VmError>)
    ensures
        r == field_meta(vm@, fld),
{
    let c: &LoadedClass = match vm.registry() {
        None => {
            return Err(VmError::BadConstant("MethodHandleNatives.init 需类注册表"));
        },
        Some(reg) => match reg.get("java/lang/reflect/Field") {
            None => {
                return Err(VmError::BadConstant("Field 类未加载"));
            },
            Some(c) => c,
        },
    };
    match (c.field_index("clazz"), c.field_index("modifiers")) {
        (Some(clazz), Some(modifiers)) => match vm.heap().get(fld) {
            Some(Oop::Instance(i)) => match i.field(clazz) {
                Slot::Reference(mirror) => match i.field(modifiers) {
                    Slot::Int(flags) => Ok((mirror, flags)),
                    _ => Err(VmError::BadConstant("Field.modifiers 非 int")),
                },
                _ => Err(VmError::BadConstant("Field.clazz 非引用")),
            },
            _ => Err(VmError::BadConstant("Field 引用非 Instance")),
        },
        _ => Err(VmError::BadConstant("Field 缺 clazz/modifiers 字段")),
    }
}

fn is_field_object(vm: &VmThread, r: Reference) -> (b: bool)
    ensures
        b == (instance_class(vm@, r) == Some("java/lang/reflect/Field"@)),
{
    match vm.heap().get(r) {
        Some(Oop::Instance(i)) => str_eq(i.class_name(), "java/lang/reflect/Field"),
        _ => false,
    }
}

fn init_from_field(vm: &mut VmThread, self_ref: Reference, fld: Reference) -> (r: Result<(), VmError>)
    ensures
        match field_meta(old(vm)@, fld) {
            Ok((clazz, modifiers)) => r is Ok && final(vm)@ == member_filled(old(vm)@, self_ref, clazz, modifiers),
            Err(e) => r == Err::<(), VmError>(e) && final(vm)@ == old(vm)@,
        },
{
    let (clazz, modifiers): (Reference, i32) = match read_field_meta(vm, fld) {
        Ok(m) => m,
        Err(e) => {
            return Err(e);
        },
    };
    let kind: i32 = if (modifiers & STATIC_BIT) != 0 {
        REF_GET_STATIC
    } else {
        REF_GET_FIELD
    };
    let flags: i32 = (modifiers | MN_IS_FIELD) | (kind << MN_REFERENCE_KIND_SHIFT);
    vm.set_instance_field_by_name(self_ref, "java/lang/invoke/MemberName", "clazz", Slot::Reference(clazz));
    vm.set_instance_field_by_name(self_ref, "java/lang/invoke/MemberName", "flags", Slot::Int(flags));
    Ok(())
}

/// `MethodHandleNatives.init`: fills a `MemberName` from a `Field`.
pub fn mhn_init(vm: &mut VmThread, args: &[Value]) -> (r: Result<Value, VmError>)
    ensures
        (final(vm)@, r) == member_initialized(old(vm)@, args@),
{
    match (get_reference(args, 0), get_reference(args, 1)) {
        (Some(member), Some(target)) => {
            if is_field_object(vm, target) {
                match init_from_field(vm, member, target) {
                    Ok(_) => {},
                    Err(e) => {
                        return Err(e);
                    },
                }
            }
            Ok(Value::Void)
        },
        _ => throw(vm, "java/lang/NullPointerException"),
    }
}

/// Runs a native method of `java.lang.invoke`.
pub fn run(vm: &mut VmThread, native: JavaLangInvoke, args: &[Value]) -> (r: NativeStep)
    ensures
        (final(vm)@, r@) == outcome(old(vm)@, native, args@),
{
    NativeStep::Done(
        match native {
            JavaLangInvoke::Init => mhn_init(vm, args),
            JavaLangInvoke::Resolve => {
                let member: Reference = match get_reference(args, 0) {
                    Some(r) => r,
                    None => Reference(None),
                };
                resolve_member_flags(vm, member);
                Ok(Value::Reference(member))
            },
            JavaLangInvoke::ObjectFieldOffset => object_field_offset(vm, args),
            JavaLangInvoke::StaticFieldOffset => static_field_offset(vm, args),
            JavaLangInvoke::StaticFieldBase => Ok(static_field_base(vm, args)),
        },
    )
}

/// The bindings of a registry after the native methods of `java.lang.invoke` were added.
pub open spec fn registered(m: Map<Key, Native>) -> Map<Key, Native> {
    m.insert(
        ("java/lang/invoke/MethodHandleNatives"@, "init"@, "(Ljava/lang/invoke/MemberName;Ljava/lang/Object;)V"@),
        Native::JavaLangInvoke(JavaLangInvoke::Init),
    ).insert(
        ("java/lang/invoke/MethodHandleNatives"@, "resolve"@, "(Ljava/lang/invoke/MemberName;Ljava/lang/Class;IZ)Ljava/lang/invoke/MemberName;"@),
        Native::JavaLangInvoke(JavaLangInvoke::Resolve),
    ).insert(
        ("java/lang/invoke/MethodHandleNatives"@, "objectFieldOffset"@, "(Ljava/lang/invoke/MemberName;)J"@),
        Native::JavaLangInvoke(JavaLangInvoke::ObjectFieldOffset),
    ).insert(
        ("java/lang/invoke/MethodHandleNatives"@, "staticFieldOffset"@, "(Ljava/lang/invoke/MemberName;)J"@),
        Native::JavaLangInvoke(JavaLangInvoke::StaticFieldOffset),
    ).insert(
        ("java/lang/invoke/MethodHandleNatives"@, "staticFieldBase"@, "(Ljava/lang/invoke/MemberName;)Ljava/lang/Object;"@),
        Native::JavaLangInvoke(JavaLangInvoke::StaticFieldBase),
    )
}

/// Binds the native methods of `java.lang.invoke`.
pub fn register(reg: &mut NativeRegistry<Native>)
    ensures
        final(reg)@ == registered(old(reg)@),
{
    reg.register(
        "java/lang/invoke/MethodHandleNatives",
        "init",
        "(Ljava/lang/invoke/MemberName;Ljava/lang/Object;)V",
        Native::JavaLangInvoke(JavaLangInvoke::Init),
    );
    reg.register(
        "java/lang/invoke/MethodHandleNatives",
        "resolve",
        "(Ljava/lang/invoke/MemberName;Ljava/lang/Class;IZ)Ljava/lang/invoke/MemberName;",
        Native::JavaLangInvoke(JavaLangInvoke::Resolve),
    );
    reg.register(
        "java/lang/invoke/MethodHandleNatives",
        "objectFieldOffset",
        "(Ljava/lang/invoke/MemberName;)J",
        Native::JavaLangInvoke(JavaLangInvoke::ObjectFieldOffset),
    );
    reg.register(
        "java/lang/invoke/MethodHandleNatives",
        "staticFieldOffset",
        "(Ljava/lang/invoke/MemberName;)J",
        Native::JavaLangInvoke(JavaLangInvoke::StaticFieldOffset),
    );
    reg.register(
        "java/lang/invoke/MethodHandleNatives",
        "staticFieldBase",
        "(Ljava/lang/invoke/MemberName;)Ljava/lang/Object;",
        Native::JavaLangInvoke(JavaLangInvoke::StaticFieldBase),
    );
}

/// Completing member flags keeps every bit that was set and the reference kind; doing it again changes
/// nothing.
pub proof fn law_resolved_flags(flags: i32)
    ensures
        resolved_flags(flags) & flags == flags,
        reference_kind(resolved_flags(flags)) == reference_kind(flags),
        resolved_flags(resolved_flags(flags)) == resolved_flags(flags),
{
    let k = kind_bit(reference_kind(flags));
    let t = static_bit(reference_kind(flags));
    assert(((flags | k) | t) & flags == flags) by (bit_vector);
    assert((((flags | k) | t) >> 24) & 0x0F == (flags >> 24) & 0x0F) by (bit_vector)
        requires
            k == 0 || k == 0x0001_0000 || k == 0x0002_0000 || k == 0x0004_0000,
            t == 0 || t == 0x0008,
    ;
    assert((((flags | k) | t) | k) | t == (flags | k) | t) by (bit_vector);
}

/// The flags of a field say that it is a field and that it is read, from the class if the field is static.
pub proof fn law_field_flags(modifiers: i32)
    requires
        0 <= modifiers < 0x1_0000,
    ensures
        field_flags(modifiers) & MN_IS_FIELD != 0,
        reference_kind(field_flags(modifiers)) == if modifiers & STATIC_BIT != 0 {
            REF_GET_STATIC
        } else {
            REF_GET_FIELD
        },
        field_flags(modifiers) & 0xFFFF == modifiers,
{
    assert(((modifiers | 0x0004_0000) | (2i32 << 24)) & 0x0004_0000 != 0) by (bit_vector);
    assert(((modifiers | 0x0004_0000) | (1i32 << 24)) & 0x0004_0000 != 0) by (bit_vector);
    assert((((modifiers | 0x0004_0000) | (2i32 << 24)) >> 24) & 0x0F == 2 && ((modifiers | 0x0004_0000) | (2i32 << 24))
        & 0xFFFF == modifiers) by (bit_vector)
        requires
            0 <= modifiers < 0x1_0000,
    ;
    assert((((modifiers | 0x0004_0000) | (1i32 << 24)) >> 24) & 0x0F == 1 && ((modifiers | 0x0004_0000) | (1i32 << 24))
        & 0xFFFF == modifiers) by (bit_vector)
        requires
            0 <= modifiers < 0x1_0000,
    ;
}

} // verus!
