//! `Class.getDeclaredFields0`, `getDeclaredMethods0` and `getDeclaredConstructors0`.

use vstd::prelude::*;

use super::step::{error, flag_arg, get_flag, throw, throws};
use crate::metadata::class_file::{ClassFile, ConstantPool, FieldInfo, MethodInfo, ACC_PUBLIC};
use crate::metadata::class_registry::LoadedClass;
use crate::metadata::descriptor::{
    class_name_of, method_type, parse_method_descriptor, types_of, FieldType, MethodDescriptor, ReturnDescriptor,
    Type,
};
use crate::runtime::oop::{ArrayOop, Object, Oop};
use crate::runtime::slot::{Reference, Slot};
use crate::runtime::string::{held_up, intern, interned};
use crate::runtime::text::{begins_with, slice, str_eq};
use crate::runtime::value::{Value, VmError};
use crate::runtime::vm::class_mirrors::name_of;
use crate::runtime::vm::mirrors::class_mirror;
use crate::runtime::vm::{State, VmThread};

verus! {

/// A declared field or method: name, descriptor, access flags and place in the class file.
#[derive(Debug)]
pub struct MemberInfo {
    pub name: String,
    pub desc: String,
    pub access: u16,
    pub place: usize,
}

/// The model of [`MemberInfo`].
#[verifier::ext_equal]
pub struct Member {
    pub name: Seq<char>,
    pub desc: Seq<char>,
    pub access: u16,
    pub place: usize,
}

impl View for MemberInfo {
    type V = Member;

    open spec fn view(&self) -> Member {
        Member { name: self.name@, desc: self.desc@, access: self.access, place: self.place }
    }
}

/// The models of a list of members.
pub open spec fn members_view(ms: Seq<MemberInfo>) -> Seq<Member> {
    ms.map_values(|m: MemberInfo| m@)
}

/// A member that is shown: its name and descriptor are texts and, where only public ones are asked for, it
/// is public.
pub open spec fn shown_member(
    cp: ConstantPool,
    name_index: u16,
    descriptor_index: u16,
    access: u16,
    place: usize,
    public_only: bool,
) -> Option<Member> {
    if public_only && (access & ACC_PUBLIC) == 0 {
        None
    } else {
        match (cp.utf8_at(name_index), cp.utf8_at(descriptor_index)) {
            (Some(name), Some(desc)) => Some(Member { name, desc, access, place }),
            _ => None,
        }
    }
}

/// The shown fields among the first `n`, in the order of declaration.
pub open spec fn shown_fields(cf: ClassFile, public_only: bool, n: int) -> Seq<Member>
    decreases n,
{
    if n <= 0 {
        Seq::empty()
    } else {
        let f = cf.fields@[n - 1];
        let before = shown_fields(cf, public_only, n - 1);
        match shown_member(
            cf.constant_pool,
            f.name_index,
            f.descriptor_index,
            f.access_flags,
            (n - 1) as usize,
            public_only,
        ) {
            Some(m) => before.push(m),
            None => before,
        }
    }
}

/// The shown methods among the first `n`, in the order of declaration; only constructors if asked so.
pub open spec fn shown_methods(cf: ClassFile, public_only: bool, constructors: bool, n: int) -> Seq<Member>
    decreases n,
{
    if n <= 0 {
        Seq::empty()
    } else {
        let f = cf.methods@[n - 1];
        let before = shown_methods(cf, public_only, constructors, n - 1);
        match shown_member(
            cf.constant_pool,
            f.name_index,
            f.descriptor_index,
            f.access_flags,
            (n - 1) as usize,
            public_only,
        ) {
            Some(m) => if constructors && m.name != "<init>"@ {
                before
            } else {
                before.push(m)
            },
            None => before,
        }
    }
}

/// Name of the class mirror for a field descriptor.
pub open spec fn mirror_name(desc: Seq<char>) -> Seq<char> {
    if desc == "B"@ {
        "byte"@
    } else if desc == "C"@ {
        "char"@
    } else if desc == "D"@ {
        "double"@
    } else if desc == "F"@ {
        "float"@
    } else if desc == "I"@ {
        "int"@
    } else if desc == "J"@ {
        "long"@
    } else if desc == "S"@ {
        "short"@
    } else if desc == "Z"@ {
        "boolean"@
    } else if desc == "V"@ {
        "void"@
    } else if begins_with(desc, 'L') && desc.last() == ';' && desc.len() >= 3 {
        desc.subrange(1, desc.len() - 1)
    } else {
        desc
    }
}

/// Name of the class mirror for a field descriptor: the keyword of a primitive type, the internal name of a
/// class, the descriptor itself otherwise.
pub fn field_type_internal(desc: &str) -> (r: String)
    ensures
        r@ == mirror_name(desc@),
{
    if str_eq(desc, "B") {
        "byte".to_owned()
    } else if str_eq(desc, "C") {
        "char".to_owned()
    } else if str_eq(desc, "D") {
        "double".to_owned()
    } else if str_eq(desc, "F") {
        "float".to_owned()
    } else if str_eq(desc, "I") {
        "int".to_owned()
    } else if str_eq(desc, "J") {
        "long".to_owned()
    } else if str_eq(desc, "S") {
        "short".to_owned()
    } else if str_eq(desc, "Z") {
        "boolean".to_owned()
    } else if str_eq(desc, "V") {
        "void".to_owned()
    } else {
        let n: usize = desc.unicode_len();
        if n >= 3 && desc.get_char(0) == 'L' && desc.get_char(n - 1) == ';' {
            slice(desc, 1, n - 1)
        } else {
            desc.to_owned()
        }
    }
}

/// Name of the class mirror for a type.
pub fn field_type_to_class_name(ft: &FieldType) -> (r: String)
    ensures
        r@ == class_name_of(ft@),
{
    match ft {
        FieldType::Byte => "byte".to_owned(),
        FieldType::Char => "char".to_owned(),
        FieldType::Double => "double".to_owned(),
        FieldType::Float => "float".to_owned(),
        FieldType::Int => "int".to_owned(),
        FieldType::Long => "long".to_owned(),
        FieldType::Short => "short".to_owned(),
        FieldType::Boolean => "boolean".to_owned(),
        FieldType::Class(name) => name.clone(),
        FieldType::Array(_) => ft.to_descriptor(),
    }
}

/// The mirrors of `types`: the state after them and the references.
pub open spec fn mirrors_of(s: State, types: Seq<Type>) -> (State, Seq<Slot>)
    decreases types.len(),
{
    if types.len() == 0 {
        (s, Seq::empty())
    } else {
        let (t, refs) = mirrors_of(s, types.drop_last());
        let (u, r) = class_mirror(t, class_name_of(types.last()));
        (u, refs.push(Slot::Reference(r)))
    }
}

/// A `Class[]` of the mirrors of `types`: the state after it and the reference.
pub open spec fn class_array(s: State, types: Seq<Type>) -> (State, Reference) {
    let (t, elements) = mirrors_of(s, types);
    t.alloc_object(Object::Array { class: "[Ljava/lang/Class;"@, elements })
}

/// The mirror of a result type.
pub open spec fn result_mirror(s: State, result: Option<Type>) -> (State, Reference) {
    match result {
        None => class_mirror(s, "void"@),
        Some(t) => class_mirror(s, class_name_of(t)),
    }
}

fn class_array_of(vm: &mut VmThread, types: &Vec<FieldType>) -> (r: Reference)
    ensures
        (final(vm)@, r) == class_array(old(vm)@, types_of(types@)),
{
    let ghost all = types_of(types@);
    let mut elements: Vec<Slot> = Vec::new();
    let mut i: usize = 0;
    while i < types.len()
        invariant
            i <= types@.len(),
            all == types_of(types@),
            (vm@, elements@) == mirrors_of(old(vm)@, all.take(i as int)),
        decreases types@.len() - i,
    {
        let name: String = field_type_to_class_name(&types[i]);
        let m: Reference = vm.make_class_mirror(name.as_str());
        elements.push(Slot::Reference(m));
        proof {
            let t = all.take(i + 1);
            assert(t.drop_last() =~= all.take(i as int));
            assert(t.last() == types@[i as int]@);
        }
        i = i + 1;
    }
    assert(all.take(i as int) =~= all);
    vm.alloc_object(Oop::Array(ArrayOop::new("[Ljava/lang/Class;".to_owned(), elements)))
}

fn return_type_mirror(vm: &mut VmThread, ret: &ReturnDescriptor) -> (r: Reference)
    ensures
        (final(vm)@, r) == result_mirror(old(vm)@, ret@),
{
    match ret {
        ReturnDescriptor::Void => vm.make_class_mirror("void"),
        ReturnDescriptor::FieldType(t) => {
            let name: String = field_type_to_class_name(t);
            vm.make_class_mirror(name.as_str())
        },
    }
}

/// Positions of the fields of a reflection object.
#[derive(Debug, Clone, Copy, PartialEq, Eq, Structural)]
pub struct FieldOrds {
    pub clazz: usize,
    pub slot: usize,
    pub name: usize,
    pub type_: usize,
    pub modifiers: usize,
}

/// Positions of the fields of a `Method` or `Constructor`; `name` and `result` are those of a `Method`.
#[derive(Debug, Clone, Copy, PartialEq, Eq, Structural)]
pub struct ExecutableOrds {
    pub clazz: usize,
    pub slot: usize,
    pub name: usize,
    pub parameter_types: usize,
    pub exception_types: usize,
    pub modifiers: usize,
    pub result: usize,
}

/// Whether the class has all five fields of a `Field`, and where.
pub open spec fn field_ords(c: LoadedClass) -> Option<FieldOrds> {
    match (c.ord_of("clazz"@), c.ord_of("slot"@), c.ord_of("name"@), c.ord_of("type"@), c.ord_of("modifiers"@)) {
        (Some(clazz), Some(slot), Some(name), Some(type_), Some(modifiers)) => Some(
            FieldOrds {
                clazz: clazz as usize,
                slot: slot as usize,
                name: name as usize,
                type_: type_ as usize,
                modifiers: modifiers as usize,
            },
        ),
        _ => None,
    }
}

/// Whether the class has the fields of a `Constructor`, and where; those of a `Method` too if asked so.
pub open spec fn executable_ords(c: LoadedClass, method: bool) -> Option<ExecutableOrds> {
    match (
        c.ord_of("clazz"@),
        c.ord_of("slot"@),
        c.ord_of("parameterTypes"@),
        c.ord_of("exceptionTypes"@),
        c.ord_of("modifiers"@),
    ) {
        (Some(clazz), Some(slot), Some(parameter_types), Some(exception_types), Some(modifiers)) => {
            let plain = ExecutableOrds {
                clazz: clazz as usize,
                slot: slot as usize,
                name: 0,
                parameter_types: parameter_types as usize,
                exception_types: exception_types as usize,
                modifiers: modifiers as usize,
                result: 0,
            };
            if method {
                match (c.ord_of("name"@), c.ord_of("returnType"@)) {
                    (Some(name), Some(result)) => Some(
                        ExecutableOrds { name: name as usize, result: result as usize, ..plain },
                    ),
                    _ => None,
                }
            } else {
                Some(plain)
            }
        },
        _ => None,
    }
}

fn find_field_ords(c: &LoadedClass) -> (r: Option<FieldOrds>)
    ensures
        r == field_ords(*c),
{
    match (
        c.field_index("clazz"),
        c.field_index("slot"),
        c.field_index("name"),
        c.field_index("type"),
        c.field_index("modifiers"),
    ) {
        (Some(clazz), Some(slot), Some(name), Some(type_), Some(modifiers)) => Some(
            FieldOrds { clazz, slot, name, type_, modifiers },
        ),
        _ => None,
    }
}

fn find_executable_ords(c: &LoadedClass, method: bool) -> (r: Option<ExecutableOrds>)
    ensures
        r == executable_ords(*c, method),
{
    match (
        c.field_index("clazz"),
        c.field_index("slot"),
        c.field_index("parameterTypes"),
        c.field_index("exceptionTypes"),
        c.field_index("modifiers"),
    ) {
        (Some(clazz), Some(slot), Some(parameter_types), Some(exception_types), Some(modifiers)) => {
            if method {
                match (c.field_index("name"), c.field_index("returnType")) {
                    (Some(name), Some(result)) => Some(
                        ExecutableOrds {
                            clazz,
                            slot,
                            name,
                            parameter_types,
                            exception_types,
                            modifiers,
                            result,
                        },
                    ),
                    _ => None,
                }
            } else {
                Some(
                    ExecutableOrds {
                        clazz,
                        slot,
                        name: 0,
                        parameter_types,
                        exception_types,
                        modifiers,
                        result: 0,
                    },
                )
            }
        },
        _ => None,
    }
}

fn member_of(
    cp: &ConstantPool,
    name_index: u16,
    descriptor_index: u16,
    access: u16,
    place: usize,
    public_only: bool,
) -> (r: Option<MemberInfo>)
    ensures
        match r {
            Some(m) => shown_member(*cp, name_index, descriptor_index, access, place, public_only) == Some(m@),
            None => shown_member(*cp, name_index, descriptor_index, access, place, public_only) is None,
        },
{
    if public_only && (access & ACC_PUBLIC) == 0 {
        return None;
    }
    match (cp.utf8(name_index), cp.utf8(descriptor_index)) {
        (Some(name), Some(desc)) => Some(
            MemberInfo { name: name.to_owned(), desc: desc.to_owned(), access, place },
        ),
        _ => None,
    }
}

fn collect_fields(cf: &ClassFile, public_only: bool) -> (r: Vec<MemberInfo>)
    ensures
        members_view(r@) == shown_fields(*cf, public_only, cf.fields@.len() as int),
{
    let mut out: Vec<MemberInfo> = Vec::new();
    let mut i: usize = 0;
    assert(members_view(out@) =~= shown_fields(*cf, public_only, 0));
    while i < cf.fields.len()
        invariant
            i <= cf.fields@.len(),
            members_view(out@) == shown_fields(*cf, public_only, i as int),
        decreases cf.fields@.len() - i,
    {
        let f: FieldInfo = cf.fields[i];
        let ghost before = members_view(out@);
        match member_of(&cf.constant_pool, f.name_index, f.descriptor_index, f.access_flags, i, public_only) {
            Some(m) => {
                out.push(m);
                assert(members_view(out@) =~= before.push(m@));
            },
            None => {},
        }
        i = i + 1;
    }
    out
}

fn collect_methods(cf: &ClassFile, public_only: bool, constructors: bool) -> (r: Vec<MemberInfo>)
    ensures
        members_view(r@) == shown_methods(*cf, public_only, constructors, cf.methods@.len() as int),
{
    let mut out: Vec<MemberInfo> = Vec::new();
    let mut i: usize = 0;
    assert(members_view(out@) =~= shown_methods(*cf, public_only, constructors, 0));
    while i < cf.methods.len()
        invariant
            i <= cf.methods@.len(),
            members_view(out@) == shown_methods(*cf, public_only, constructors, i as int),
        decreases cf.methods@.len() - i,
    {
        let f: &MethodInfo = &cf.methods[i];
        let ghost before = members_view(out@);
        match member_of(&cf.constant_pool, f.name_index, f.descriptor_index, f.access_flags, i, public_only) {
            Some(m) => {
                if !constructors || str_eq(m.name.as_str(), "<init>") {
                    out.push(m);
                    assert(members_view(out@) =~= before.push(m@));
                }
            },
            None => {},
        }
        i = i + 1;
    }
    out
}

fn null_elements(n: usize) -> (r: Vec<Slot>)
    ensures
        r@ == null_slots(n as nat),
{
    let v: Vec<Slot> = vec![Slot::Reference(Reference(None)); n];
    assert(v@ =~= null_slots(n as nat));
    v
}

/// `n` elements that are `null`.
pub open spec fn null_slots(n: nat) -> Seq<Slot> {
    Seq::new(n, |i: int| Slot::Reference(Reference(None)))
}

/// The class that a mirror stands for, with the errors for what is missing on the way.
pub open spec fn mirrored_class(
    s: State,
    this: Reference,
    no_mirror: VmError,
    no_registry: VmError,
    no_class: VmError,
) -> Result<LoadedClass, VmError> {
    match name_of(s.vm.class_mirrors, this) {
        None => Err(no_mirror),
        Some(internal) => if s.vm.registry is None {
            Err(no_registry)
        } else {
            match s.class(internal) {
                None => Err(no_class),
                Some(c) => Ok(c),
            }
        },
    }
}

fn find_mirrored_class(
    vm: &VmThread,
    this: Reference,
    no_mirror: VmError,
    no_registry: VmError,
    no_class: VmError,
) -> (r: Result<&LoadedClass, VmError>)
    ensures
        match r {
            Ok(c) => mirrored_class(vm@, this, no_mirror, no_registry, no_class) == Ok::<LoadedClass, VmError>(*c),
            Err(e) => mirrored_class(vm@, this, no_mirror, no_registry, no_class) == Err::<LoadedClass, VmError>(e),
        },
{
    match vm.mirror_internal_name(this) {
        None => Err(no_mirror),
        Some(internal) => match vm.registry() {
            None => Err(no_registry),
            Some(reg) => match reg.get(internal.as_str()) {
                None => Err(no_class),
                Some(c) => Ok(c),
            },
        },
    }
}

/// One `Field`: the state after it was made and put into the array.
pub open spec fn field_made(
    s: State,
    this: Reference,
    arr: Reference,
    i: int,
    m: Member,
    ords: FieldOrds,
) -> (State, Result<(), VmError>) {
    let (s1, f) = s.alloc_fresh("java/lang/reflect/Field"@);
    let (s2, mirror) = class_mirror(s1, mirror_name(m.desc));
    match interned(s2, m.name) {
        (s3, Err(e)) => (s3, Err(e)),
        (s3, Ok(name)) => {
            let s4 = s3.write_field(f, ords.clazz as int, Slot::Reference(this));
            let s5 = s4.write_field(f, ords.slot as int, Slot::Int(m.place as i32));
            let s6 = s5.write_field(f, ords.name as int, Slot::Reference(name));
            let s7 = s6.write_field(f, ords.type_ as int, Slot::Reference(mirror));
            let s8 = s7.write_field(f, ords.modifiers as int, Slot::Int(m.access as i32));
            (s8.write_element(arr, i, Slot::Reference(f)), Ok(()))
        },
    }
}

/// The `Field`s from `i` on.
pub open spec fn fields_made(
    s: State,
    this: Reference,
    arr: Reference,
    i: int,
    ms: Seq<Member>,
    ords: FieldOrds,
) -> (State, Result<Value, VmError>)
    decreases ms.len() - i,
{
    if i < 0 || i >= ms.len() {
        (s, Ok(Value::Reference(arr)))
    } else {
        match field_made(s, this, arr, i, ms[i], ords) {
            (t, Ok(_)) => fields_made(t, this, arr, i + 1, ms, ords),
            (t, Err(e)) => (t, Err(e)),
        }
    }
}

fn make_fields(
    vm: &mut VmThread,
    this: Reference,
    arr: Reference,
    ms: &Vec<MemberInfo>,
    ords: FieldOrds,
) -> (r: Result<Value, VmError>)
    ensures
        (final(vm)@, r) == fields_made(old(vm)@, this, arr, 0, members_view(ms@), ords),
{
    let ghost all = members_view(ms@);
    let ghost goal = fields_made(vm@, this, arr, 0, all, ords);
    let mut i: usize = 0;
    while i < ms.len()
        invariant
            i <= ms@.len(),
            all == members_view(ms@),
            fields_made(vm@, this, arr, i as int, all, ords) == goal,
            goal == fields_made(old(vm)@, this, arr, 0, all, ords),
        decreases ms@.len() - i,
    {
        let m: &MemberInfo = &ms[i];
        assert(all[i as int] == m@);
        let f: Reference = vm.alloc_fresh("java/lang/reflect/Field");
        let mirror: Reference = {
            let name: String = field_type_internal(m.desc.as_str());
            vm.make_class_mirror(name.as_str())
        };
        let name: Reference = match intern(vm, m.name.as_str()) {
            Ok(r) => r,
            Err(e) => {
                return Err(e);
            },
        };
        vm.write_field(f, ords.clazz, Slot::Reference(this));
        vm.write_field(f, ords.slot, Slot::Int(m.place as i32));
        vm.write_field(f, ords.name, Slot::Reference(name));
        vm.write_field(f, ords.type_, Slot::Reference(mirror));
        vm.write_field(f, ords.modifiers, Slot::Int(m.access as i32));
        vm.write_element(arr, i, Slot::Reference(f));
        i = i + 1;
    }
    Ok(Value::Reference(arr))
}

/// Outcome of `getDeclaredFields0`.
pub open spec fn declared_fields(s: State, this: Option<Reference>, args: Seq<Value>) -> (State, Result<Value, VmError>) {
    match this {
        None => throws(s, "java/lang/NullPointerException"@),
        Some(this) => match s.pending_initializer("java/lang/reflect/AccessibleObject"@) {
            Some(i) => error(s, VmError::InitializerPending(i as usize)),
            None => match mirrored_class(
                s,
                this,
                VmError::BadConstant("getDeclaredFields0:非 Class 镜像"),
                VmError::BadConstant("getDeclaredFields0 需注册表"),
                VmError::BadConstant("getDeclaredFields0:声明类未加载"),
            ) {
                Err(e) => error(s, e),
                Ok(c) => match s.class("java/lang/reflect/Field"@) {
                    None => error(s, VmError::BadConstant("java/lang/reflect/Field 未预载")),
                    Some(fc) => match field_ords(fc) {
                        None => error(
                            s,
                            VmError::BadConstant("java/lang/reflect/Field 缺 clazz/slot/name/type/modifiers 之一"),
                        ),
                        Some(ords) => {
                            let ms = shown_fields(c.cf, flag_arg(args, 0), c.cf.fields@.len() as int);
                            if ms.len() > 0 && s.pending_initializer("java/lang/String"@) is Some {
                                held_up(s, s.pending_initializer("java/lang/String"@)->0)
                            } else {
                                let (s1, arr) = s.alloc_object(
                                    Object::Array {
                                        class: "[Ljava/lang/reflect/Field;"@,
                                        elements: null_slots(ms.len()),
                                    },
                                );
                                fields_made(s1, this, arr, 0, ms, ords)
                            }
                        },
                    },
                },
            },
        },
    }
}

/// `Class.getDeclaredFields0`: one `Field` for each declared field, in the order of declaration; only the
/// public ones if the argument is true. The slot of a `Field` is its place among all fields that the class
/// declares.
pub fn get_declared_fields0(vm: &mut VmThread, this: Option<Reference>, args: &[Value]) -> (r: Result<Value, VmError>)
    ensures
        (final(vm)@, r) == declared_fields(old(vm)@, this, args@),
{
    let this: Reference = match this {
        None => {
            return throw(vm, "java/lang/NullPointerException");
        },
        Some(r) => r,
    };
    match vm.ensure_class_initialized("java/lang/reflect/AccessibleObject") {
        Ok(_) => {},
        Err(e) => {
            return Err(e);
        },
    }
    let ms: Vec<MemberInfo> = match find_mirrored_class(
        vm,
        this,
        VmError::BadConstant("getDeclaredFields0:非 Class 镜像"),
        VmError::BadConstant("getDeclaredFields0 需注册表"),
        VmError::BadConstant("getDeclaredFields0:声明类未加载"),
    ) {
        Ok(c) => collect_fields(&c.cf, get_flag(args, 0)),
        Err(e) => {
            return Err(e);
        },
    };
    let ords: FieldOrds = match vm.class("java/lang/reflect/Field") {
        None => {
            return Err(VmError::BadConstant("java/lang/reflect/Field 未预载"));
        },
        Some(fc) => match find_field_ords(fc) {
            None => {
                return Err(VmError::BadConstant("java/lang/reflect/Field 缺 clazz/slot/name/type/modifiers 之一"));
            },
            Some(o) => o,
        },
    };
    if ms.len() > 0 {
        match vm.ensure_class_initialized("java/lang/String") {
            Ok(_) => {},
            Err(e) => {
                return Err(e);
            },
        }
    }
    let arr: Reference = vm.alloc_object(
        Oop::Array(ArrayOop::new("[Ljava/lang/reflect/Field;".to_owned(), null_elements(ms.len()))),
    );
    make_fields(vm, this, arr, &ms, ords)
}

/// One `Method` or `Constructor`: the state after it was made and put into the array.
pub open spec fn executable_made(
    s: State,
    this: Reference,
    arr: Reference,
    i: int,
    m: Member,
    ords: ExecutableOrds,
    method: bool,
) -> (State, Result<(), VmError>) {
    match method_type(m.desc) {
        None => (
            s,
            Err(
                if method {
                    VmError::BadConstant("getDeclaredMethods0:方法描述符解析失败")
                } else {
                    VmError::BadConstant("getDeclaredConstructors0:方法描述符解析失败")
                },
            ),
        ),
        Some(t) => {
            let (s1, params) = class_array(s, t.parameters);
            if method {
                let (s2, result) = result_mirror(s1, t.result);
                let (s3, exceptions) = class_array(s2, Seq::empty());
                match interned(s3, m.name) {
                    (s4, Err(e)) => (s4, Err(e)),
                    (s4, Ok(name)) => {
                        let (s5, x) = s4.alloc_fresh("java/lang/reflect/Method"@);
                        let t1 = s5.write_field(x, ords.clazz as int, Slot::Reference(this));
                        let t2 = t1.write_field(x, ords.slot as int, Slot::Int(m.place as i32));
                        let t3 = t2.write_field(x, ords.name as int, Slot::Reference(name));
                        let t4 = t3.write_field(x, ords.result as int, Slot::Reference(result));
                        let t5 = t4.write_field(x, ords.parameter_types as int, Slot::Reference(params));
                        let t6 = t5.write_field(x, ords.exception_types as int, Slot::Reference(exceptions));
                        let t7 = t6.write_field(x, ords.modifiers as int, Slot::Int(m.access as i32));
                        (t7.write_element(arr, i, Slot::Reference(x)), Ok(()))
                    },
                }
            } else {
                let (s3, exceptions) = class_array(s1, Seq::empty());
                let (s5, x) = s3.alloc_fresh("java/lang/reflect/Constructor"@);
                let t1 = s5.write_field(x, ords.clazz as int, Slot::Reference(this));
                let t2 = t1.write_field(x, ords.slot as int, Slot::Int(m.place as i32));
                let t5 = t2.write_field(x, ords.parameter_types as int, Slot::Reference(params));
                let t6 = t5.write_field(x, ords.exception_types as int, Slot::Reference(exceptions));
                let t7 = t6.write_field(x, ords.modifiers as int, Slot::Int(m.access as i32));
                (t7.write_element(arr, i, Slot::Reference(x)), Ok(()))
            }
        },
    }
}

/// The `Method`s or `Constructor`s from `i` on.
pub open spec fn executables_made(
    s: State,
    this: Reference,
    arr: Reference,
    i: int,
    ms: Seq<Member>,
    ords: ExecutableOrds,
    method: bool,
) -> (State, Result<Value, VmError>)
    decreases ms.len() - i,
{
    if i < 0 || i >= ms.len() {
        (s, Ok(Value::Reference(arr)))
    } else {
        match executable_made(s, this, arr, i, ms[i], ords, method) {
            (t, Ok(_)) => executables_made(t, this, arr, i + 1, ms, ords, method),
            (t, Err(e)) => (t, Err(e)),
        }
    }
}

/// Outcome of `getDeclaredMethods0`.
pub open spec fn declared_methods(s: State, this: Option<Reference>, args: Seq<Value>) -> (State, Result<Value, VmError>) {
    match this {
        None => throws(s, "java/lang/NullPointerException"@),
        Some(this) => match s.pending_initializer("java/lang/reflect/AccessibleObject"@) {
            Some(i) => error(s, VmError::InitializerPending(i as usize)),
            None => match mirrored_class(
                s,
                this,
                VmError::BadConstant("getDeclaredMethods0:非 Class 镜像"),
                VmError::BadConstant("getDeclaredMethods0 需注册表"),
                VmError::BadConstant("getDeclaredMethods0:声明类未加载"),
            ) {
                Err(e) => error(s, e),
                Ok(c) => match s.class("java/lang/reflect/Method"@) {
                    None => error(s, VmError::BadConstant("java/lang/reflect/Method 未预载")),
                    Some(mc) => match executable_ords(mc, true) {
                        None => error(
                            s,
                            VmError::BadConstant(
                                "java/lang/reflect/Method 缺 clazz/slot/name/returnType/parameterTypes/exceptionTypes/modifiers 之一",
                            ),
                        ),
                        Some(ords) => {
                            let ms = shown_methods(c.cf, flag_arg(args, 0), false, c.cf.methods@.len() as int);
                            if ms.len() > 0 && s.pending_initializer("java/lang/String"@) is Some {
                                held_up(s, s.pending_initializer("java/lang/String"@)->0)
                            } else {
                                let (s1, arr) = s.alloc_object(
                                    Object::Array {
                                        class: "[Ljava/lang/reflect/Method;"@,
                                        elements: null_slots(ms.len()),
                                    },
                                );
                                executables_made(s1, this, arr, 0, ms, ords, true)
                            }
                        },
                    },
                },
            },
        },
    }
}

/// Outcome of `getDeclaredConstructors0`.
pub open spec fn declared_constructors(s: State, this: Option<Reference>, args: Seq<Value>) -> (
    State,
    Result<Value, VmError>,
) {
    match this {
        None => throws(s, "java/lang/NullPointerException"@),
        Some(this) => match s.pending_initializer("java/lang/reflect/AccessibleObject"@) {
            Some(i) => error(s, VmError::InitializerPending(i as usize)),
            None => match mirrored_class(
                s,
                this,
                VmError::BadConstant("getDeclaredConstructors0:非 Class 镜像"),
                VmError::BadConstant("getDeclaredConstructors0 需注册表"),
                VmError::BadConstant("getDeclaredConstructors0:声明类未加载"),
            ) {
                Err(e) => error(s, e),
                Ok(c) => match s.class("java/lang/reflect/Constructor"@) {
                    None => error(s, VmError::BadConstant("java/lang/reflect/Constructor 未预载")),
                    Some(mc) => match executable_ords(mc, false) {
                        None => error(
                            s,
                            VmError::BadConstant(
                                "java/lang/reflect/Constructor 缺 clazz/slot/parameterTypes/exceptionTypes/modifiers 之一",
                            ),
                        ),
                        Some(ords) => {
                            let ms = shown_methods(c.cf, flag_arg(args, 0), true, c.cf.methods@.len() as int);
                            if ms.len() > 0 && s.pending_initializer("java/lang/String"@) is Some {
                                held_up(s, s.pending_initializer("java/lang/String"@)->0)
                            } else {
                                let (s1, arr) = s.alloc_object(
                                    Object::Array {
                                        class: "[Ljava/lang/reflect/Constructor;"@,
                                        elements: null_slots(ms.len()),
                                    },
                                );
                                executables_made(s1, this, arr, 0, ms, ords, false)
                            }
                        },
                    },
                },
            },
        },
    }
}

/// Makes one `Method` and puts it into the array.
fn make_method(
    vm: &mut VmThread,
    this: Reference,
    arr: Reference,
    i: usize,
    m: &MemberInfo,
    ords: ExecutableOrds,
) -> (r: Result<(), VmError>)
    ensures
        (final(vm)@, r) == executable_made(old(vm)@, this, arr, i as int, m@, ords, true),
{
    let parsed: MethodDescriptor = match parse_method_descriptor(m.desc.as_str()) {
        Some(p) => p,
        None => {
            return Err(VmError::BadConstant("getDeclaredMethods0:方法描述符解析失败"));
        },
    };
    let params: Reference = class_array_of(vm, &parsed.parameters);
    let result: Reference = return_type_mirror(vm, &parsed.return_type);
    let none: Vec<FieldType> = Vec::new();
    assert(types_of(none@) =~= Seq::<Type>::empty());
    let exceptions: Reference = class_array_of(vm, &none);
    let name: Reference = match intern(vm, m.name.as_str()) {
        Ok(r) => r,
        Err(e) => {
            return Err(e);
        },
    };
    let x: Reference = vm.alloc_fresh("java/lang/reflect/Method");
    vm.write_field(x, ords.clazz, Slot::Reference(this));
    vm.write_field(x, ords.slot, Slot::Int(m.place as i32));
    vm.write_field(x, ords.name, Slot::Reference(name));
    vm.write_field(x, ords.result, Slot::Reference(result));
    vm.write_field(x, ords.parameter_types, Slot::Reference(params));
    vm.write_field(x, ords.exception_types, Slot::Reference(exceptions));
    vm.write_field(x, ords.modifiers, Slot::Int(m.access as i32));
    vm.write_element(arr, i, Slot::Reference(x));
    Ok(())
}

/// Makes one `Constructor` and puts it into the array.
fn make_constructor(
    vm: &mut VmThread,
    this: Reference,
    arr: Reference,
    i: usize,
    m: &MemberInfo,
    ords: ExecutableOrds,
) -> (r: Result<(), VmError>)
    ensures
        (final(vm)@, r) == executable_made(old(vm)@, this, arr, i as int, m@, ords, false),
{
    let parsed: MethodDescriptor = match parse_method_descriptor(m.desc.as_str()) {
        Some(p) => p,
        None => {
            return Err(VmError::BadConstant("getDeclaredConstructors0:方法描述符解析失败"));
        },
    };
    let params: Reference = class_array_of(vm, &parsed.parameters);
    let none: Vec<FieldType> = Vec::new();
    assert(types_of(none@) =~= Seq::<Type>::empty());
    let exceptions: Reference = class_array_of(vm, &none);
    let x: Reference = vm.alloc_fresh("java/lang/reflect/Constructor");
    vm.write_field(x, ords.clazz, Slot::Reference(this));
    vm.write_field(x, ords.slot, Slot::Int(m.place as i32));
    vm.write_field(x, ords.parameter_types, Slot::Reference(params));
    vm.write_field(x, ords.exception_types, Slot::Reference(exceptions));
    vm.write_field(x, ords.modifiers, Slot::Int(m.access as i32));
    vm.write_element(arr, i, Slot::Reference(x));
    Ok(())
}

fn make_executables(
    vm: &mut VmThread,
    this: Reference,
    arr: Reference,
    ms: &Vec<MemberInfo>,
    ords: ExecutableOrds,
    method: bool,
) -> (r: Result<Value, VmError>)
    ensures
        (final(vm)@, r) == executables_made(old(vm)@, this, arr, 0, members_view(ms@), ords, method),
{
    let ghost all = members_view(ms@);
    let ghost goal = executables_made(vm@, this, arr, 0, all, ords, method);
    let mut i: usize = 0;
    while i < ms.len()
        invariant
            i <= ms@.len(),
            all == members_view(ms@),
            executables_made(vm@, this, arr, i as int, all, ords, method) == goal,
            goal == executables_made(old(vm)@, this, arr, 0, all, ords, method),
        decreases ms@.len() - i,
    {
        assert(all[i as int] == ms@[i as int]@);
        let made: Result<(), VmError> = if method {
            make_method(vm, this, arr, i, &ms[i], ords)
        } else {
            make_constructor(vm, this, arr, i, &ms[i], ords)
        };
        match made {
            Ok(_) => {},
            Err(e) => {
                return Err(e);
            },
        }
        i = i + 1;
    }
    Ok(Value::Reference(arr))
}

/// `Class.getDeclaredMethods0`: one `Method` for each declared method, in the order of declaration; only the
/// public ones if the argument is true. The slot of a `Method` is its place among all methods of the class
/// file.
pub fn get_declared_methods0(vm: &mut VmThread, this: Option<Reference>, args: &[Value]) -> (r: Result<Value, VmError>)
    ensures
        (final(vm)@, r) == declared_methods(old(vm)@, this, args@),
{
    let this: Reference = match this {
        None => {
            return throw(vm, "java/lang/NullPointerException");
        },
        Some(r) => r,
    };
    match vm.ensure_class_initialized("java/lang/reflect/AccessibleObject") {
        Ok(_) => {},
        Err(e) => {
            return Err(e);
        },
    }
    let ms: Vec<MemberInfo> = match find_mirrored_class(
        vm,
        this,
        VmError::BadConstant("getDeclaredMethods0:非 Class 镜像"),
        VmError::BadConstant("getDeclaredMethods0 需注册表"),
        VmError::BadConstant("getDeclaredMethods0:声明类未加载"),
    ) {
        Ok(c) => collect_methods(&c.cf, get_flag(args, 0), false),
        Err(e) => {
            return Err(e);
        },
    };
    let ords: ExecutableOrds = match vm.class("java/lang/reflect/Method") {
        None => {
            return Err(VmError::BadConstant("java/lang/reflect/Method 未预载"));
        },
        Some(mc) => match find_executable_ords(mc, true) {
            None => {
                return Err(
                    VmError::BadConstant(
                        "java/lang/reflect/Method 缺 clazz/slot/name/returnType/parameterTypes/exceptionTypes/modifiers 之一",
                    ),
                );
            },
            Some(o) => o,
        },
    };
    if ms.len() > 0 {
        match vm.ensure_class_initialized("java/lang/String") {
            Ok(_) => {},
            Err(e) => {
                return Err(e);
            },
        }
    }
    let arr: Reference = vm.alloc_object(
        Oop::Array(ArrayOop::new("[Ljava/lang/reflect/Method;".to_owned(), null_elements(ms.len()))),
    );
    make_executables(vm, this, arr, &ms, ords, true)
}

/// `Class.getDeclaredConstructors0`: one `Constructor` for each declared constructor, in the order of
/// declaration; only the public ones if the argument is true. The slot of a `Constructor` is its place among all
/// methods of the class file.
pub fn get_declared_constructors0(vm: &mut VmThread, this: Option<Reference>, args: &[Value]) -> (r: Result<
    Value,
    VmError,
>)
    ensures
        (final(vm)@, r) == declared_constructors(old(vm)@, this, args@),
{
    let this: Reference = match this {
        None => {
            return throw(vm, "java/lang/NullPointerException");
        },
        Some(r) => r,
    };
    match vm.ensure_class_initialized("java/lang/reflect/AccessibleObject") {
        Ok(_) => {},
        Err(e) => {
            return Err(e);
        },
    }
    let ms: Vec<MemberInfo> = match find_mirrored_class(
        vm,
        this,
        VmError::BadConstant("getDeclaredConstructors0:非 Class 镜像"),
        VmError::BadConstant("getDeclaredConstructors0 需注册表"),
        VmError::BadConstant("getDeclaredConstructors0:声明类未加载"),
    ) {
        Ok(c) => collect_methods(&c.cf, get_flag(args, 0), true),
        Err(e) => {
            return Err(e);
        },
    };
    let ords: ExecutableOrds = match vm.class("java/lang/reflect/Constructor") {
        None => {
            return Err(VmError::BadConstant("java/lang/reflect/Constructor 未预载"));
        },
        Some(mc) => match find_executable_ords(mc, false) {
            None => {
                return Err(
                    VmError::BadConstant(
                        "java/lang/reflect/Constructor 缺 clazz/slot/parameterTypes/exceptionTypes/modifiers 之一",
                    ),
                );
            },
            Some(o) => o,
        },
    };
    if ms.len() > 0 {
        match vm.ensure_class_initialized("java/lang/String") {
            Ok(_) => {},
            Err(e) => {
                return Err(e);
            },
        }
    }
    let arr: Reference = vm.alloc_object(
        Oop::Array(ArrayOop::new("[Ljava/lang/reflect/Constructor;".to_owned(), null_elements(ms.len()))),
    );
    make_executables(vm, this, arr, &ms, ords, false)
}

/// Without a filter, and with every name and descriptor a text, every method of the class file is shown, at its
/// place.
pub proof fn law_slots_of_methods(cf: ClassFile, n: int, i: int)
    requires
        0 <= i < n <= cf.methods@.len(),
        forall|j: int|
            0 <= j < n ==> cf.constant_pool.utf8_at((#[trigger] cf.methods@[j]).name_index) is Some
                && cf.constant_pool.utf8_at(cf.methods@[j].descriptor_index) is Some,
    ensures
        shown_methods(cf, false, false, n).len() == n,
        shown_methods(cf, false, false, n)[i] == (Member {
            name: cf.constant_pool.utf8_at(cf.methods@[i].name_index)->0,
            desc: cf.constant_pool.utf8_at(cf.methods@[i].descriptor_index)->0,
            access: cf.methods@[i].access_flags,
            place: i as usize,
        }),
    decreases n,
{
    let last = cf.methods@[n - 1];
    if i < n - 1 {
        law_slots_of_methods(cf, n - 1, i);
    } else if n > 1 {
        law_slots_of_methods(cf, n - 1, 0);
    } else {
        assert(shown_methods(cf, false, false, 0) =~= Seq::<Member>::empty());
    }
}

/// Every method that is shown stands in the class file, at its place. Only public ones are shown where only
/// those were asked for, and only constructors where only those were.
pub proof fn law_shown_methods(cf: ClassFile, public_only: bool, constructors: bool, n: int, i: int)
    requires
        0 <= n <= cf.methods@.len(),
        0 <= i < shown_methods(cf, public_only, constructors, n).len(),
    ensures
        ({
            let m = shown_methods(cf, public_only, constructors, n)[i];
            let f = cf.methods@[m.place as int];
            &&& m.place < n
            &&& cf.constant_pool.utf8_at(f.name_index) == Some(m.name)
            &&& cf.constant_pool.utf8_at(f.descriptor_index) == Some(m.desc)
            &&& m.access == f.access_flags
            &&& public_only ==> (m.access & ACC_PUBLIC) != 0
            &&& constructors ==> m.name == "<init>"@
        }),
    decreases n,
{
    if n > 0 {
        assert(cf.methods.len() == cf.methods@.len());
        let before = shown_methods(cf, public_only, constructors, n - 1);
        if i < before.len() {
            law_shown_methods(cf, public_only, constructors, n - 1, i);
        }
    }
}

/// Every field that is shown stands in the class file, at its place. Only public ones are shown where only
/// those were asked for.
pub proof fn law_shown_fields(cf: ClassFile, public_only: bool, n: int, i: int)
    requires
        0 <= n <= cf.fields@.len(),
        0 <= i < shown_fields(cf, public_only, n).len(),
    ensures
        ({
            let m = shown_fields(cf, public_only, n)[i];
            let f = cf.fields@[m.place as int];
            &&& m.place < n
            &&& cf.constant_pool.utf8_at(f.name_index) == Some(m.name)
            &&& cf.constant_pool.utf8_at(f.descriptor_index) == Some(m.desc)
            &&& m.access == f.access_flags
            &&& public_only ==> (m.access & ACC_PUBLIC) != 0
        }),
    decreases n,
{
    if n > 0 {
        assert(cf.fields.len() == cf.fields@.len());
        let before = shown_fields(cf, public_only, n - 1);
        if i < before.len() {
            law_shown_fields(cf, public_only, n - 1, i);
        }
    }
}

} // verus!
