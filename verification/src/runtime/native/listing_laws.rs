//! Which members `getDeclaredFields0`, `getDeclaredMethods0` and `getDeclaredConstructors0` list, and where their
//! objects keep what.

use vstd::prelude::*;

use super::growth::{class_array_grown, executable_made_grown, field_made_grown, result_mirror_grown};
use super::java_lang_members::{
    class_array, declared_constructors, declared_fields, declared_methods, executable_made, executable_ords,
    executables_made, field_made, field_ords, fields_made, mirror_name, null_slots, result_mirror, shown_fields,
    shown_methods, ExecutableOrds, FieldOrds, Member,
};
use super::step::flag_arg;
use crate::metadata::class_file::ClassFile;
use crate::metadata::class_registry::LoadedClass;
use crate::metadata::descriptor::method_type;
use crate::runtime::oop::Object;
use crate::runtime::slot::Reference;
use crate::runtime::string::{build_layout, interned};
use crate::runtime::value::{Value, VmError};
use crate::runtime::vm::class_mirrors::name_of;
use crate::runtime::vm::exceptions::thrown;
use crate::runtime::vm::growth::{alloc_grown, class_mirror_grown, fresh_grown, grown, grown_trans};
use crate::runtime::vm::mirrors::class_mirror;
use crate::runtime::vm::State;

verus! {

/// Whether method `j` is one to list: its name and descriptor can be read, it is public if only public ones are asked
/// for, and a constructor if only those are.
pub open spec fn method_wanted(cf: ClassFile, j: int, public_only: bool, constructors: bool) -> bool {
    let m = cf.methods@[j];
    &&& cf.constant_pool.utf8_at(m.name_index) is Some && cf.constant_pool.utf8_at(m.descriptor_index) is Some
    &&& public_only ==> m.access_flags & 0x0001 != 0
    &&& constructors ==> cf.constant_pool.utf8_at(m.name_index) == Some("<init>"@)
}

/// Whether field `j` is one to list.
pub open spec fn field_wanted(cf: ClassFile, j: int, public_only: bool) -> bool {
    let f = cf.fields@[j];
    &&& cf.constant_pool.utf8_at(f.name_index) is Some && cf.constant_pool.utf8_at(f.descriptor_index) is Some
    &&& public_only ==> f.access_flags & 0x0001 != 0
}

/// Whether the places of members grow.
pub open spec fn places_grow(ms: Seq<Member>) -> bool {
    forall|a: int, b: int| 0 <= a < b < ms.len() ==> (#[trigger] ms[a]).place < (#[trigger] ms[b]).place
}

/// The methods that are listed are exactly those to list, each once, at its place, in the order of declaration.
pub proof fn law_listed_methods(cf: ClassFile, public_only: bool, constructors: bool, n: int, j: int)
    requires
        0 <= n <= cf.methods@.len(),
        0 <= j < n,
    ensures
        ({
            let ms = shown_methods(cf, public_only, constructors, n);
            &&& places_grow(ms)
            &&& forall|i: int| 0 <= i < ms.len() ==> (#[trigger] ms[i]).place < n
            &&& method_wanted(cf, j, public_only, constructors) == exists|i: int|
                0 <= i < ms.len() && (#[trigger] ms[i]).place == j
        }),
    decreases n,
{
    assert(cf.methods.len() == cf.methods@.len());
    let before = shown_methods(cf, public_only, constructors, n - 1);
    let ms = shown_methods(cf, public_only, constructors, n);
    if n > 1 {
        law_listed_methods(
            cf,
            public_only,
            constructors,
            n - 1,
            if j < n - 1 {
                j
            } else {
                0
            },
        );
    } else {
        assert(before =~= Seq::<Member>::empty());
    }
    let added = method_wanted(cf, n - 1, public_only, constructors);
    assert(crate::metadata::class_file::ACC_PUBLIC == 0x0001);
    assert(added ==> ms.len() == before.len() + 1 && ms.drop_last() =~= before && ms.last().place == n - 1);
    assert(!added ==> ms == before);
    assert forall|i: int| 0 <= i < ms.len() implies (#[trigger] ms[i]).place < n by {
        if i < before.len() {
            assert(ms[i] == before[i]);
        }
    }
    assert forall|a: int, b: int| 0 <= a < b < ms.len() implies (#[trigger] ms[a]).place < (#[trigger] ms[b]).place by {
        assert(ms[a] == before[a]);
        if b < before.len() {
            assert(ms[b] == before[b]);
        }
    }
    if j < n - 1 {
        if exists|i: int| 0 <= i < before.len() && (#[trigger] before[i]).place == j {
            let i = choose|i: int| 0 <= i < before.len() && (#[trigger] before[i]).place == j;
            assert(ms[i].place == j);
        }
        if exists|i: int| 0 <= i < ms.len() && (#[trigger] ms[i]).place == j {
            let i = choose|i: int| 0 <= i < ms.len() && (#[trigger] ms[i]).place == j;
            assert(i < before.len());
            assert(before[i].place == j);
        }
    } else {
        if added {
            assert(ms[ms.len() - 1].place == j);
        }
        if exists|i: int| 0 <= i < ms.len() && (#[trigger] ms[i]).place == j {
            let i = choose|i: int| 0 <= i < ms.len() && (#[trigger] ms[i]).place == j;
            if i < before.len() {
                assert(before[i].place < n - 1);
            }
        }
    }
}

/// The fields that are listed are exactly those to list, each once, at its place, in the order of declaration.
pub proof fn law_listed_fields(cf: ClassFile, public_only: bool, n: int, j: int)
    requires
        0 <= n <= cf.fields@.len(),
        0 <= j < n,
    ensures
        ({
            let ms = shown_fields(cf, public_only, n);
            &&& places_grow(ms)
            &&& forall|i: int| 0 <= i < ms.len() ==> (#[trigger] ms[i]).place < n
            &&& field_wanted(cf, j, public_only) == exists|i: int| 0 <= i < ms.len() && (#[trigger] ms[i]).place == j
        }),
    decreases n,
{
    assert(cf.fields.len() == cf.fields@.len());
    let before = shown_fields(cf, public_only, n - 1);
    let ms = shown_fields(cf, public_only, n);
    if n > 1 {
        law_listed_fields(
            cf,
            public_only,
            n - 1,
            if j < n - 1 {
                j
            } else {
                0
            },
        );
    } else {
        assert(before =~= Seq::<Member>::empty());
    }
    let added = field_wanted(cf, n - 1, public_only);
    assert(crate::metadata::class_file::ACC_PUBLIC == 0x0001);
    assert(added ==> ms.len() == before.len() + 1 && ms.drop_last() =~= before && ms.last().place == n - 1);
    assert(!added ==> ms == before);
    assert forall|i: int| 0 <= i < ms.len() implies (#[trigger] ms[i]).place < n by {
        if i < before.len() {
            assert(ms[i] == before[i]);
        }
    }
    assert forall|a: int, b: int| 0 <= a < b < ms.len() implies (#[trigger] ms[a]).place < (#[trigger] ms[b]).place by {
        assert(ms[a] == before[a]);
        if b < before.len() {
            assert(ms[b] == before[b]);
        }
    }
    if j < n - 1 {
        if exists|i: int| 0 <= i < before.len() && (#[trigger] before[i]).place == j {
            let i = choose|i: int| 0 <= i < before.len() && (#[trigger] before[i]).place == j;
            assert(ms[i].place == j);
        }
        if exists|i: int| 0 <= i < ms.len() && (#[trigger] ms[i]).place == j {
            let i = choose|i: int| 0 <= i < ms.len() && (#[trigger] ms[i]).place == j;
            assert(i < before.len());
            assert(before[i].place == j);
        }
    } else {
        if added {
            assert(ms[ms.len() - 1].place == j);
        }
        if exists|i: int| 0 <= i < ms.len() && (#[trigger] ms[i]).place == j {
            let i = choose|i: int| 0 <= i < ms.len() && (#[trigger] ms[i]).place == j;
            if i < before.len() {
                assert(before[i].place < n - 1);
            }
        }
    }
}

/// A listed member has the name, descriptor and access flags that stand at its place in the class file.
pub proof fn law_listed_members_are_declared(cf: ClassFile, public_only: bool, constructors: bool, i: int, k: int)
    ensures
        0 <= i < shown_methods(cf, public_only, constructors, cf.methods@.len() as int).len() ==> {
            let m = shown_methods(cf, public_only, constructors, cf.methods@.len() as int)[i];
            let f = cf.methods@[m.place as int];
            m.place < cf.methods@.len() && cf.constant_pool.utf8_at(f.name_index) == Some(m.name)
                && cf.constant_pool.utf8_at(f.descriptor_index) == Some(m.desc) && m.access == f.access_flags
        },
        0 <= k < shown_fields(cf, public_only, cf.fields@.len() as int).len() ==> {
            let m = shown_fields(cf, public_only, cf.fields@.len() as int)[k];
            let f = cf.fields@[m.place as int];
            m.place < cf.fields@.len() && cf.constant_pool.utf8_at(f.name_index) == Some(m.name)
                && cf.constant_pool.utf8_at(f.descriptor_index) == Some(m.desc) && m.access == f.access_flags
        },
{
    if 0 <= i < shown_methods(cf, public_only, constructors, cf.methods@.len() as int).len() {
        super::java_lang_members::law_shown_methods(cf, public_only, constructors, cf.methods@.len() as int, i);
    }
    if 0 <= k < shown_fields(cf, public_only, cf.fields@.len() as int).len() {
        super::java_lang_members::law_shown_fields(cf, public_only, cf.fields@.len() as int, k);
    }
}

/// Reflection objects keep what they tell in the fields of these names.
pub proof fn law_reflection_fields(c: LoadedClass)
    requires
        c.instance_fields@.len() <= usize::MAX,
    ensures
        field_ords(c) matches Some(o) ==> c.ord_of("clazz"@) == Some(o.clazz as int) && c.ord_of("slot"@) == Some(
            o.slot as int,
        ) && c.ord_of("name"@) == Some(o.name as int) && c.ord_of("type"@) == Some(o.type_ as int) && c.ord_of(
            "modifiers"@,
        ) == Some(o.modifiers as int),
        executable_ords(c, true) matches Some(o) ==> c.ord_of("clazz"@) == Some(o.clazz as int) && c.ord_of("slot"@)
            == Some(o.slot as int) && c.ord_of("name"@) == Some(o.name as int) && c.ord_of("returnType"@) == Some(
            o.result as int,
        ) && c.ord_of("parameterTypes"@) == Some(o.parameter_types as int) && c.ord_of("exceptionTypes"@) == Some(
            o.exception_types as int,
        ) && c.ord_of("modifiers"@) == Some(o.modifiers as int),
        executable_ords(c, false) matches Some(o) ==> c.ord_of("clazz"@) == Some(o.clazz as int) && c.ord_of("slot"@)
            == Some(o.slot as int) && c.ord_of("parameterTypes"@) == Some(o.parameter_types as int) && c.ord_of(
            "exceptionTypes"@,
        ) == Some(o.exception_types as int) && c.ord_of("modifiers"@) == Some(o.modifiers as int),
{
    use_ord(c, "clazz"@);
    use_ord(c, "slot"@);
    use_ord(c, "name"@);
    use_ord(c, "type"@);
    use_ord(c, "modifiers"@);
    use_ord(c, "returnType"@);
    use_ord(c, "parameterTypes"@);
    use_ord(c, "exceptionTypes"@);
}

proof fn use_ord(c: LoadedClass, name: Seq<char>)
    requires
        c.instance_fields@.len() <= usize::MAX,
    ensures
        c.ord_of(name) matches Some(i) ==> 0 <= i <= usize::MAX,
{
    crate::metadata::registry_laws::law_field_positions(c, name, name);
}

/// Without a receiver there is a `NullPointerException`; while the class of all reflection objects has not been
/// initialized, its initializer has to run first.
pub proof fn law_listing_needs_a_class(s: State, args: Seq<Value>, this: Reference)
    ensures
        ({
            let npe = (
                thrown(s, "java/lang/NullPointerException"@).0,
                Err::<Value, VmError>(VmError::ThrownException(thrown(s, "java/lang/NullPointerException"@).1)),
            );
            declared_fields(s, None, args) == npe && declared_methods(s, None, args) == npe && declared_constructors(
                s,
                None,
                args,
            ) == npe
        }),
        s.class("java/lang/reflect/AccessibleObject"@) is Some && !s.vm.initialized.contains_key(
            "java/lang/reflect/AccessibleObject"@,
        ) ==> {
            let at = s.vm.registry->0.index_of("java/lang/reflect/AccessibleObject"@)->0;
            let wait = (s, Err::<Value, VmError>(VmError::InitializerPending(at as usize)));
            declared_fields(s, Some(this), args) == wait && declared_methods(s, Some(this), args) == wait
                && declared_constructors(s, Some(this), args) == wait
        },
        name_of(s.vm.class_mirrors, this) is None ==> declared_fields(s, Some(this), args).1 is Err && declared_methods(
            s,
            Some(this),
            args,
        ).1 is Err && declared_constructors(s, Some(this), args).1 is Err,
{
    if s.vm.registry is Some {
        crate::metadata::registry_laws::law_found_classes(s.vm.registry->0, "java/lang/reflect/AccessibleObject"@);
    }
}

/// Whether strings can be built.
pub open spec fn text_ready(s: State) -> bool {
    s.pending_initializer("java/lang/String"@) is None && build_layout(s) is Ok
}

/// Whether the descriptor of every member from `i` on is one of a method.
pub open spec fn readable(ms: Seq<Member>, i: int) -> bool {
    forall|k: int| i <= k < ms.len() ==> method_type((#[trigger] ms[k]).desc) is Some
}

proof fn text_stays_ready(s: State, t: State, text: Seq<char>)
    requires
        grown(s, t),
        text_ready(s),
    ensures
        text_ready(t),
        interned(t, text).1 is Ok,
{
    reveal(grown);
}

proof fn fields_are_made(s: State, this: Reference, arr: Reference, i: int, ms: Seq<Member>, ords: FieldOrds)
    requires
        0 <= i <= ms.len(),
        i < ms.len() ==> text_ready(s),
    ensures
        fields_made(s, this, arr, i, ms, ords).1 == Ok::<Value, VmError>(Value::Reference(arr)),
    decreases ms.len() - i,
{
    if i < ms.len() {
        let m = ms[i];
        let s1 = s.alloc_fresh("java/lang/reflect/Field"@).0;
        fresh_grown(s, "java/lang/reflect/Field"@);
        let s2 = class_mirror(s1, mirror_name(m.desc)).0;
        class_mirror_grown(s1, mirror_name(m.desc));
        grown_trans(s, s1, s2);
        text_stays_ready(s, s2, m.name);
        field_made_grown(s, this, arr, i, m, ords);
        let t = field_made(s, this, arr, i, m, ords).0;
        text_stays_ready(s, t, m.name);
        fields_are_made(t, this, arr, i + 1, ms, ords);
    }
}

proof fn executables_are_made(
    s: State,
    this: Reference,
    arr: Reference,
    i: int,
    ms: Seq<Member>,
    ords: ExecutableOrds,
    method: bool,
)
    requires
        0 <= i <= ms.len(),
        i < ms.len() ==> text_ready(s),
    ensures
        executables_made(s, this, arr, i, ms, ords, method).1 == if readable(ms, i) {
            Ok::<Value, VmError>(Value::Reference(arr))
        } else {
            Err::<Value, VmError>(
                if method {
                    VmError::BadConstant("getDeclaredMethods0:方法描述符解析失败")
                } else {
                    VmError::BadConstant("getDeclaredConstructors0:方法描述符解析失败")
                },
            )
        },
    decreases ms.len() - i,
{
    if i < ms.len() {
        let m = ms[i];
        match method_type(m.desc) {
            None => {},
            Some(mt) => {
                let s1 = class_array(s, mt.parameters).0;
                class_array_grown(s, mt.parameters);
                let s2 = result_mirror(s1, mt.result).0;
                result_mirror_grown(s1, mt.result);
                let s3 = class_array(s2, Seq::empty()).0;
                class_array_grown(s2, Seq::empty());
                grown_trans(s, s1, s2);
                grown_trans(s, s2, s3);
                text_stays_ready(s, s3, m.name);
                executable_made_grown(s, this, arr, i, m, ords, method);
                let t = executable_made(s, this, arr, i, m, ords, method).0;
                text_stays_ready(s, t, m.name);
                executables_are_made(t, this, arr, i + 1, ms, ords, method);
                assert(readable(ms, i) == readable(ms, i + 1));
            },
        }
    }
}

/// The fields of a class are listed where the class and the class of fields are loaded, the latter with the fields that a
/// `Field` keeps what it tells in, and strings can be built; an empty list needs no strings. What is missing is named,
/// and nothing changes.
pub proof fn law_when_fields_are_listed(s: State, this: Reference, args: Seq<Value>, at: int)
    requires
        s.pending_initializer("java/lang/reflect/AccessibleObject"@) is None,
    ensures
        ({
            let r = declared_fields(s, Some(this), args);
            let kind = "java/lang/reflect/Field"@;
            match name_of(s.vm.class_mirrors, this) {
                None => r == (s, Err::<Value, VmError>(VmError::BadConstant("getDeclaredFields0:非 Class 镜像"))),
                Some(internal) => if s.vm.registry is None {
                    r == (s, Err::<Value, VmError>(VmError::BadConstant("getDeclaredFields0 需注册表")))
                } else {
                    match (s.class(internal), s.class(kind)) {
                        (None, _) => r == (s, Err::<Value, VmError>(VmError::BadConstant("getDeclaredFields0:声明类未加载"))),
                        (Some(_), None) => r == (s, Err::<Value, VmError>(VmError::BadConstant("java/lang/reflect/Field 未预载"))),
                        (Some(c), Some(k)) => if !(k.ord_of("clazz"@) is Some && k.ord_of("slot"@) is Some && k.ord_of("name"@) is Some
                            && k.ord_of("type"@) is Some && k.ord_of("modifiers"@) is Some) {
                            r == (
                                s,
                                Err::<Value, VmError>(
                                    VmError::BadConstant(
                                        "java/lang/reflect/Field 缺 clazz/slot/name/type/modifiers 之一",
                                    ),
                                ),
                            )
                        } else {
                            let ms = shown_fields(c.cf, flag_arg(args, 0), c.cf.fields@.len() as int);
                            &&& ms.len() > 0 && s.pending_initializer("java/lang/String"@) == Some(at) ==> r == (
                                s,
                                Err::<Value, VmError>(VmError::InitializerPending(at as usize)),
                            )
                            &&& ms.len() == 0 || text_ready(s) ==> r.1 is Ok && r.1->Ok_0 is Reference
                        },
                    }
                },
            }
        }),
{
    if name_of(s.vm.class_mirrors, this) is Some && s.class(name_of(s.vm.class_mirrors, this)->0) is Some && s.class(
        "java/lang/reflect/Field"@,
    ) is Some {
        let c = s.class(name_of(s.vm.class_mirrors, this)->0)->0;
        let ms = shown_fields(c.cf, flag_arg(args, 0), c.cf.fields@.len() as int);
        match field_ords(s.class("java/lang/reflect/Field"@)->0) {
            None => {},
            Some(ords) => {
                let o = Object::Array { class: "[Ljava/lang/reflect/Field;"@, elements: null_slots(ms.len()) };
                let (s1, arr) = s.alloc_object(o);
                alloc_grown(s, o);
                if text_ready(s) {
                    text_stays_ready(s, s1, Seq::empty());
                }
                if ms.len() == 0 || text_ready(s) {
                    fields_are_made(s1, this, arr, 0, ms, ords);
                }
            },
        }
    }
}

/// The methods of a class are listed where the class and the class of methods are loaded, the latter with the fields that
/// a `Method` keeps what it tells in, strings can be built and every descriptor can be read; an empty list needs no
/// strings. What is missing is named, and nothing changes.
pub proof fn law_when_methods_are_listed(s: State, this: Reference, args: Seq<Value>, at: int)
    requires
        s.pending_initializer("java/lang/reflect/AccessibleObject"@) is None,
    ensures
        ({
            let r = declared_methods(s, Some(this), args);
            let kind = "java/lang/reflect/Method"@;
            match name_of(s.vm.class_mirrors, this) {
                None => r == (s, Err::<Value, VmError>(VmError::BadConstant("getDeclaredMethods0:非 Class 镜像"))),
                Some(internal) => if s.vm.registry is None {
                    r == (s, Err::<Value, VmError>(VmError::BadConstant("getDeclaredMethods0 需注册表")))
                } else {
                    match (s.class(internal), s.class(kind)) {
                        (None, _) => r == (s, Err::<Value, VmError>(VmError::BadConstant("getDeclaredMethods0:声明类未加载"))),
                        (Some(_), None) => r == (s, Err::<Value, VmError>(VmError::BadConstant("java/lang/reflect/Method 未预载"))),
                        (Some(c), Some(k)) => if !(k.ord_of("clazz"@) is Some && k.ord_of("slot"@) is Some && k.ord_of("parameterTypes"@)
                            is Some && k.ord_of("exceptionTypes"@) is Some && k.ord_of("modifiers"@) is Some && k.ord_of(
                            "name"@,
                        ) is Some && k.ord_of("returnType"@) is Some) {
                            r == (
                                s,
                                Err::<Value, VmError>(
                                    VmError::BadConstant(
                                        "java/lang/reflect/Method 缺 clazz/slot/name/returnType/parameterTypes/exceptionTypes/modifiers 之一",
                                    ),
                                ),
                            )
                        } else {
                            let ms = shown_methods(c.cf, flag_arg(args, 0), false, c.cf.methods@.len() as int);
                            &&& ms.len() > 0 && s.pending_initializer("java/lang/String"@) == Some(at) ==> r == (
                                s,
                                Err::<Value, VmError>(VmError::InitializerPending(at as usize)),
                            )
                            &&& ms.len() == 0 || (text_ready(s) && readable(ms, 0)) ==> r.1 is Ok && r.1->Ok_0
                                is Reference
                            &&& text_ready(s) && !readable(ms, 0) ==> r.1 == Err::<Value, VmError>(
                                VmError::BadConstant("getDeclaredMethods0:方法描述符解析失败"),
                            )
                        },
                    }
                },
            }
        }),
{
    executables_listed(s, this, args, true);
}

/// The constructors of a class are listed where the class and the class of constructors are loaded, the latter with the
/// fields that a `Constructor` keeps what it tells in, strings can be built and every descriptor can be read; an empty
/// list needs no strings. What is missing is named, and nothing changes.
pub proof fn law_when_constructors_are_listed(s: State, this: Reference, args: Seq<Value>, at: int)
    requires
        s.pending_initializer("java/lang/reflect/AccessibleObject"@) is None,
    ensures
        ({
            let r = declared_constructors(s, Some(this), args);
            let kind = "java/lang/reflect/Constructor"@;
            match name_of(s.vm.class_mirrors, this) {
                None => r == (s, Err::<Value, VmError>(VmError::BadConstant("getDeclaredConstructors0:非 Class 镜像"))),
                Some(internal) => if s.vm.registry is None {
                    r == (s, Err::<Value, VmError>(VmError::BadConstant("getDeclaredConstructors0 需注册表")))
                } else {
                    match (s.class(internal), s.class(kind)) {
                        (None, _) => r == (s, Err::<Value, VmError>(VmError::BadConstant("getDeclaredConstructors0:声明类未加载"))),
                        (Some(_), None) => r == (s, Err::<Value, VmError>(VmError::BadConstant("java/lang/reflect/Constructor 未预载"))),
                        (Some(c), Some(k)) => if !(k.ord_of("clazz"@) is Some && k.ord_of("slot"@) is Some && k.ord_of("parameterTypes"@)
                            is Some && k.ord_of("exceptionTypes"@) is Some && k.ord_of("modifiers"@) is Some) {
                            r == (
                                s,
                                Err::<Value, VmError>(
                                    VmError::BadConstant(
                                        "java/lang/reflect/Constructor 缺 clazz/slot/parameterTypes/exceptionTypes/modifiers 之一",
                                    ),
                                ),
                            )
                        } else {
                            let ms = shown_methods(c.cf, flag_arg(args, 0), true, c.cf.methods@.len() as int);
                            &&& ms.len() > 0 && s.pending_initializer("java/lang/String"@) == Some(at) ==> r == (
                                s,
                                Err::<Value, VmError>(VmError::InitializerPending(at as usize)),
                            )
                            &&& ms.len() == 0 || (text_ready(s) && readable(ms, 0)) ==> r.1 is Ok && r.1->Ok_0
                                is Reference
                            &&& text_ready(s) && !readable(ms, 0) ==> r.1 == Err::<Value, VmError>(
                                VmError::BadConstant("getDeclaredConstructors0:方法描述符解析失败"),
                            )
                        },
                    }
                },
            }
        }),
{
    executables_listed(s, this, args, false);
}

proof fn executables_listed(s: State, this: Reference, args: Seq<Value>, method: bool)
    ensures
        ({
            let kind = if method {
                "java/lang/reflect/Method"@
            } else {
                "java/lang/reflect/Constructor"@
            };
            let class = if method {
                "[Ljava/lang/reflect/Method;"@
            } else {
                "[Ljava/lang/reflect/Constructor;"@
            };
            let c = s.class(name_of(s.vm.class_mirrors, this)->0)->0;
            let ms = shown_methods(c.cf, flag_arg(args, 0), !method, c.cf.methods@.len() as int);
            let (s1, arr) = s.alloc_object(Object::Array { class, elements: null_slots(ms.len()) });
            s.class(kind) is Some && executable_ords(s.class(kind)->0, method) is Some && (ms.len() == 0 || text_ready(s))
                ==> executables_made(s1, this, arr, 0, ms, executable_ords(s.class(kind)->0, method)->0, method).1
                == if readable(ms, 0) {
                Ok::<Value, VmError>(Value::Reference(arr))
            } else {
                Err::<Value, VmError>(
                    if method {
                        VmError::BadConstant("getDeclaredMethods0:方法描述符解析失败")
                    } else {
                        VmError::BadConstant("getDeclaredConstructors0:方法描述符解析失败")
                    },
                )
            }
        }),
{
    let kind = if method {
        "java/lang/reflect/Method"@
    } else {
        "java/lang/reflect/Constructor"@
    };
    let class = if method {
        "[Ljava/lang/reflect/Method;"@
    } else {
        "[Ljava/lang/reflect/Constructor;"@
    };
    let c = s.class(name_of(s.vm.class_mirrors, this)->0)->0;
    let ms = shown_methods(c.cf, flag_arg(args, 0), !method, c.cf.methods@.len() as int);
    let o = Object::Array { class, elements: null_slots(ms.len()) };
    let (s1, arr) = s.alloc_object(o);
    alloc_grown(s, o);
    if text_ready(s) {
        text_stays_ready(s, s1, Seq::empty());
    }
    if s.class(kind) is Some && executable_ords(s.class(kind)->0, method) is Some && (ms.len() == 0 || text_ready(s)) {
        executables_are_made(s1, this, arr, 0, ms, executable_ords(s.class(kind)->0, method)->0, method);
    }
}

} // verus!
