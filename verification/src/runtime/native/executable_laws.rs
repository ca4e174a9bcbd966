//! What the arrays of `Method` and `Constructor` objects hold.

use vstd::prelude::*;

use super::growth::{
    class_array_grown, declared_constructors_grown, declared_methods_grown, executables_made_grown, result_mirror_grown,
};
use super::java_lang_members::{
    class_array, declared_constructors, declared_methods, executable_made, executable_ords, executables_made,
    law_shown_methods, mirrors_of, null_slots, result_mirror, shown_methods, ExecutableOrds, Member,
};
use super::jdk_internal_reflect::{
    abstract_class, call_arguments, call_prepared, call_target, construction_prepared, executable_meta, or_null,
    reflective_call, reflective_construction, static_flag,
};
use super::member_laws::{array_of, class_has_its_name};
use super::step::{done, flag_arg, object_arg, stopped, throws};
use crate::metadata::class_file::ACC_STATIC;
use crate::metadata::class_registry::LoadedClass;
use crate::metadata::descriptor::{class_name_of, method_type, Type};
use crate::runtime::heap::handle_space;
use crate::runtime::oop::{slot_or_top, Object};
use crate::runtime::slot::{Reference, Slot};
use crate::runtime::string::interned;
use crate::runtime::value::{Value, VmError};
use crate::runtime::vm::class_mirrors::name_of;
use crate::runtime::vm::growth::{
    class_mirror_grown, fresh_grown, grown, interned_grown, mirrors_kept, mirrors_stay, sound,
};
use crate::runtime::vm::mirror_laws::{
    interned_keeps, law_mirrors_leave_objects_alone, mirror_step, ord_names,
};
use crate::runtime::vm::mirrors::class_mirror;
use crate::runtime::vm::State;

verus! {

/// Whether `t` holds everything that `s` holds, unchanged: classes, objects, interned strings and mirrors.
#[verifier::opaque]
pub open spec fn kept(s: State, t: State) -> bool {
    &&& t.vm.registry == s.vm.registry
    &&& s.vm.heap.len() <= t.vm.heap.len()
    &&& forall|x: Reference| s.object(x) is Some ==> #[trigger] t.object(x) == s.object(x)
    &&& forall|n: Seq<char>|
        s.vm.strings.contains_key(n) ==> #[trigger] t.vm.strings.contains_key(n) && t.vm.strings[n] == s.vm.strings[n]
    &&& mirrors_kept(s, t)
    &&& sound(t)
}

/// Whether `e` is the mirror of the class `name`, or `null`.
pub open spec fn is_mirror(s: State, e: Slot, name: Seq<char>) -> bool {
    e matches Slot::Reference(c) && (c.0 is Some ==> s.vm.class_mirrors.get(name) == Some(c))
}

/// Whether `p` is an array of the mirrors of `types`.
pub open spec fn mirrors_array(s: State, p: Reference, types: Seq<Type>) -> bool {
    s.object(p) matches Some(Object::Array { class, elements }) && class == "[Ljava/lang/Class;"@ && elements.len()
        == types.len() && forall|k: int|
        0 <= k < types.len() ==> is_mirror(s, #[trigger] elements[k], class_name_of(types[k]))
}

/// Whether `fields` are those of a `Method` or `Constructor` of the class behind `this` for the member `m`:
/// class, place in the class file, modifiers, the mirrors of the parameter types and no exception types; for a
/// `Method` also the interned name and the mirror of the result type.
pub open spec fn executable_fields(
    s: State,
    this: Reference,
    m: Member,
    ords: ExecutableOrds,
    method: bool,
    fields: Seq<Slot>,
) -> bool {
    let t = method_type(m.desc)->0;
    &&& slot_or_top(fields, ords.clazz as int) == Slot::Reference(this)
    &&& slot_or_top(fields, ords.slot as int) == Slot::Int(m.place as i32)
    &&& slot_or_top(fields, ords.modifiers as int) == Slot::Int(m.access as i32)
    &&& slot_or_top(fields, ords.parameter_types as int) matches Slot::Reference(p) && mirrors_array(s, p, t.parameters)
    &&& slot_or_top(fields, ords.exception_types as int) matches Slot::Reference(p) && mirrors_array(
        s,
        p,
        Seq::empty(),
    )
    &&& method ==> (slot_or_top(fields, ords.name as int) matches Slot::Reference(n) && s.vm.strings.get(m.name)
        == Some(n))
    &&& method ==> is_mirror(
        s,
        slot_or_top(fields, ords.result as int),
        match t.result {
            Some(r) => class_name_of(r),
            None => "void"@,
        },
    )
}

/// Class of the objects in the array.
pub open spec fn executable_class(method: bool) -> Seq<char> {
    if method {
        "java/lang/reflect/Method"@
    } else {
        "java/lang/reflect/Constructor"@
    }
}

/// Whether element `i` of the array is a `Method` or `Constructor` that describes `m`.
pub open spec fn executable_described(
    s: State,
    this: Reference,
    arr: Reference,
    i: int,
    m: Member,
    ords: ExecutableOrds,
    method: bool,
) -> bool {
    match s.object(arr) {
        Some(Object::Array { elements, .. }) => 0 <= i < elements.len() && match elements[i] {
            Slot::Reference(x) => match s.object(x) {
                Some(Object::Instance { class, fields }) => class == executable_class(method) && executable_fields(
                    s,
                    this,
                    m,
                    ords,
                    method,
                    fields,
                ),
                _ => false,
            },
            _ => false,
        },
        _ => false,
    }
}

/// What is kept twice is kept.
pub(crate) proof fn kept_trans(a: State, b: State, c: State)
    requires
        kept(a, b),
        kept(b, c),
    ensures
        kept(a, c),
{
    reveal(kept);
    assert forall|x: Reference| a.object(x) is Some implies #[trigger] c.object(x) == a.object(x) by {
        assert(b.object(x) == a.object(x));
    }
    assert forall|n: Seq<char>| a.vm.strings.contains_key(n) implies #[trigger] c.vm.strings.contains_key(n)
        && c.vm.strings[n] == a.vm.strings[n] by {
        assert(b.vm.strings.contains_key(n));
    }
    assert forall|n: Seq<char>|
        a.vm.class_mirrors.contains_key(n)
            && a.vm.class_mirrors[n].0 is Some implies #[trigger] c.vm.class_mirrors.contains_key(n)
        && c.vm.class_mirrors[n] == a.vm.class_mirrors[n] by {
        assert(b.vm.class_mirrors.contains_key(n));
    }
}

proof fn alloc_keeps(s: State, o: Object)
    requires
        sound(s),
    ensures
        kept(s, s.alloc_object(o).0),
{
    reveal(kept);
    let t = s.alloc_object(o).0;
    assert forall|n: Seq<char>| #[trigger] t.vm.class_mirrors.contains_key(n) implies (t.vm.class_mirrors[n].0 matches Some(
        id,
    ) ==> id < t.vm.heap.len()) by {
        assert(s.vm.class_mirrors.contains_key(n));
    }
}

/// Asking for a mirror keeps everything and gives the mirror.
pub(crate) proof fn mirror_keeps(s: State, name: Seq<char>)
    requires
        sound(s),
    ensures
        kept(s, class_mirror(s, name).0),
        is_mirror(class_mirror(s, name).0, Slot::Reference(class_mirror(s, name).1), name),
{
    reveal(kept);
    let t = class_mirror(s, name).0;
    mirror_step(s, name);
    class_mirror_grown(s, name);
    reveal(grown);
    assert forall|x: Reference| s.object(x) is Some implies #[trigger] t.object(x) == s.object(x) by {
        law_mirrors_leave_objects_alone(s, name, x);
    }
}

/// Interning a string keeps everything and gives the interned string.
pub(crate) proof fn interned_is_kept(s: State, text: Seq<char>)
    requires
        sound(s),
    ensures
        kept(s, interned(s, text).0),
        interned(s, text).1 matches Ok(r) ==> interned(s, text).0.vm.strings.get(text) == Some(r),
{
    reveal(kept);
    let t = interned(s, text).0;
    interned_keeps(s, text, Reference(None));
    assert forall|x: Reference| s.object(x) is Some implies #[trigger] t.object(x) == s.object(x) by {
        interned_keeps(s, text, x);
    }
    assert forall|n: Seq<char>| #[trigger] t.vm.class_mirrors.contains_key(n) implies (t.vm.class_mirrors[n].0 matches Some(
        id,
    ) ==> id < t.vm.heap.len()) by {
        assert(s.vm.class_mirrors.contains_key(n));
    }
}

proof fn mirror_stays(s: State, t: State, e: Slot, name: Seq<char>)
    requires
        kept(s, t),
        is_mirror(s, e, name),
    ensures
        is_mirror(t, e, name),
{
    reveal(kept);
    if e->Reference_0.0 is Some {
        assert(s.vm.class_mirrors.contains_key(name));
        assert(t.vm.class_mirrors.contains_key(name));
    }
}

proof fn mirrors_of_keeps(s: State, types: Seq<Type>)
    requires
        sound(s),
    ensures
        kept(s, mirrors_of(s, types).0),
        mirrors_of(s, types).1.len() == types.len(),
        forall|k: int|
            0 <= k < types.len() ==> is_mirror(
                mirrors_of(s, types).0,
                #[trigger] mirrors_of(s, types).1[k],
                class_name_of(types[k]),
            ),
    decreases types.len(),
{
    if types.len() == 0 {
        reveal(kept);
    } else {
        let (t, refs) = mirrors_of(s, types.drop_last());
        mirrors_of_keeps(s, types.drop_last());
        assert(sound(t)) by {
            reveal(kept);
        }
        let name = class_name_of(types.last());
        mirror_keeps(t, name);
        let u = class_mirror(t, name).0;
        kept_trans(s, t, u);
        assert forall|k: int| 0 <= k < types.len() implies is_mirror(
            u,
            #[trigger] mirrors_of(s, types).1[k],
            class_name_of(types[k]),
        ) by {
            if k < types.len() - 1 {
                assert(mirrors_of(s, types).1[k] == refs[k]);
                assert(types.drop_last()[k] == types[k]);
                mirror_stays(t, u, refs[k], class_name_of(types[k]));
            }
        }
    }
}

proof fn mirrors_array_stays(s: State, t: State, p: Reference, types: Seq<Type>)
    requires
        kept(s, t),
        mirrors_array(s, p, types),
    ensures
        mirrors_array(t, p, types),
{
    assert(t.object(p) == s.object(p)) by {
        reveal(kept);
    }
    let es = s.object(p)->0->elements;
    assert forall|k: int| 0 <= k < types.len() implies is_mirror(t, #[trigger] es[k], class_name_of(types[k])) by {
        mirror_stays(s, t, es[k], class_name_of(types[k]));
    }
}

proof fn class_array_keeps(s: State, types: Seq<Type>)
    requires
        sound(s),
        class_array(s, types).0.vm.heap.len() < handle_space(),
    ensures
        kept(s, class_array(s, types).0),
        mirrors_array(class_array(s, types).0, class_array(s, types).1, types),
        s.object(class_array(s, types).1) is None,
{
    let (t, es) = mirrors_of(s, types);
    mirrors_of_keeps(s, types);
    assert(sound(t)) by {
        reveal(kept);
    }
    let o = Object::Array { class: "[Ljava/lang/Class;"@, elements: es };
    alloc_keeps(t, o);
    let u = t.alloc_object(o).0;
    kept_trans(s, t, u);
    assert(s.vm.heap.len() <= t.vm.heap.len()) by {
        reveal(kept);
    }
    assert forall|k: int| 0 <= k < types.len() implies is_mirror(u, #[trigger] es[k], class_name_of(types[k])) by {
        mirror_stays(t, u, es[k], class_name_of(types[k]));
    }
}

/// The positions that are filled in.
pub open spec fn positions(ords: ExecutableOrds, method: bool) -> Seq<usize> {
    if method {
        seq![
            ords.clazz,
            ords.slot,
            ords.parameter_types,
            ords.exception_types,
            ords.modifiers,
            ords.name,
            ords.result,
        ]
    } else {
        seq![ords.clazz, ords.slot, ords.parameter_types, ords.exception_types, ords.modifiers]
    }
}

/// Whether the positions are those of different fields of `n`.
pub open spec fn positions_apart(ords: ExecutableOrds, method: bool, n: int) -> bool {
    let all = positions(ords, method);
    &&& forall|i: int| 0 <= i < all.len() ==> #[trigger] all[i] < n
    &&& forall|i: int, j: int| 0 <= i < j < all.len() ==> #[trigger] all[i] != #[trigger] all[j]
}

proof fn field_names_apart()
    ensures
        ({
            let names = seq![
                "clazz"@,
                "slot"@,
                "name"@,
                "returnType"@,
                "parameterTypes"@,
                "exceptionTypes"@,
                "modifiers"@,
            ];
            forall|i: int, j: int| 0 <= i < j < names.len() ==> #[trigger] names[i] != #[trigger] names[j]
        }),
{
    reveal_strlit("clazz");
    reveal_strlit("slot");
    reveal_strlit("name");
    reveal_strlit("returnType");
    reveal_strlit("parameterTypes");
    reveal_strlit("exceptionTypes");
    reveal_strlit("modifiers");
    assert("clazz"@[0] == 'c' && "slot"@[0] == 's' && "name"@[0] == 'n' && "returnType"@[0] == 'r');
    assert("parameterTypes"@[0] == 'p' && "exceptionTypes"@[0] == 'e' && "modifiers"@[0] == 'm');
    let names = seq![
        "clazz"@,
        "slot"@,
        "name"@,
        "returnType"@,
        "parameterTypes"@,
        "exceptionTypes"@,
        "modifiers"@,
    ];
    assert forall|i: int, j: int| 0 <= i < j < names.len() implies #[trigger] names[i] != #[trigger] names[j] by {
        assert(names[i][0] != names[j][0]);
    }
}

proof fn positions_are_apart(c: LoadedClass, method: bool)
    requires
        executable_ords(c, method) is Some,
    ensures
        positions_apart(executable_ords(c, method)->0, method, c.instance_fields@.len() as int),
{
    assert(c.instance_fields.len() == c.instance_fields@.len());
    field_names_apart();
    let names = seq![
        "clazz"@,
        "slot"@,
        "name"@,
        "returnType"@,
        "parameterTypes"@,
        "exceptionTypes"@,
        "modifiers"@,
    ];
    assert(names[0] != names[1] && names[0] != names[2] && names[0] != names[3] && names[0] != names[4] && names[0]
        != names[5] && names[0] != names[6]);
    assert(names[1] != names[2] && names[1] != names[3] && names[1] != names[4] && names[1] != names[5] && names[1]
        != names[6]);
    assert(names[2] != names[3] && names[2] != names[4] && names[2] != names[5] && names[2] != names[6]);
    assert(names[3] != names[4] && names[3] != names[5] && names[3] != names[6]);
    assert(names[4] != names[5] && names[4] != names[6]);
    assert(names[5] != names[6]);
    ord_names(c, "clazz"@);
    ord_names(c, "slot"@);
    ord_names(c, "name"@);
    ord_names(c, "returnType"@);
    ord_names(c, "parameterTypes"@);
    ord_names(c, "exceptionTypes"@);
    ord_names(c, "modifiers"@);
}

/// State after a new `Method` or `Constructor` was filled and put into the array.
pub open spec fn filled(
    s: State,
    x: Reference,
    this: Reference,
    arr: Reference,
    i: int,
    place: usize,
    access: u16,
    ords: ExecutableOrds,
    params: Reference,
    exceptions: Reference,
    named: Option<(Reference, Reference)>,
) -> State {
    let t1 = s.write_field(x, ords.clazz as int, Slot::Reference(this));
    let t2 = t1.write_field(x, ords.slot as int, Slot::Int(place as i32));
    let t4 = match named {
        Some((name, result)) => t2.write_field(x, ords.name as int, Slot::Reference(name)).write_field(
            x,
            ords.result as int,
            Slot::Reference(result),
        ),
        None => t2,
    };
    let t5 = t4.write_field(x, ords.parameter_types as int, Slot::Reference(params));
    let t6 = t5.write_field(x, ords.exception_types as int, Slot::Reference(exceptions));
    let t7 = t6.write_field(x, ords.modifiers as int, Slot::Int(access as i32));
    t7.write_element(arr, i, Slot::Reference(x))
}

proof fn filled_fields(
    s: State,
    x: Reference,
    this: Reference,
    arr: Reference,
    i: int,
    n: int,
    place: usize,
    access: u16,
    ords: ExecutableOrds,
    params: Reference,
    exceptions: Reference,
    named: Option<(Reference, Reference)>,
)
    requires
        s.object(x) is Some,
        s.object(x)->0 is Instance,
        positions_apart(ords, named is Some, s.object(x)->0->fields.len() as int),
        array_of(s, arr, n),
        0 <= i < n,
    ensures
        ({
            let t = filled(s, x, this, arr, i, place, access, ords, params, exceptions, named);
            &&& t.object(x) matches Some(Object::Instance { class, fields }) && class == s.object(x)->0->Instance_class
                && slot_or_top(fields, ords.clazz as int) == Slot::Reference(this) && slot_or_top(
                fields,
                ords.slot as int,
            ) == Slot::Int(place as i32) && slot_or_top(fields, ords.modifiers as int) == Slot::Int(access as i32)
                && slot_or_top(fields, ords.parameter_types as int) == Slot::Reference(params) && slot_or_top(
                fields,
                ords.exception_types as int,
            ) == Slot::Reference(exceptions) && (named matches Some((name, result)) ==> slot_or_top(
                fields,
                ords.name as int,
            ) == Slot::Reference(name) && slot_or_top(fields, ords.result as int) == Slot::Reference(result))
            &&& array_of(t, arr, n)
            &&& t.object(arr)->0->elements == s.object(arr)->0->elements.update(i, Slot::Reference(x))
            &&& t.object(arr)->0->Array_class == s.object(arr)->0->Array_class
            &&& forall|y: Reference| y != x && y != arr ==> #[trigger] t.object(y) == s.object(y)
            &&& t.vm.strings == s.vm.strings
            &&& t.vm.class_mirrors == s.vm.class_mirrors
            &&& t.vm.registry == s.vm.registry
            &&& t.vm.heap.len() == s.vm.heap.len()
        }),
{
    let f = s.object(x)->0->fields;
    let all = positions(ords, named is Some);
    assert(all[0] < f.len() && all[1] < f.len() && all[2] < f.len() && all[3] < f.len() && all[4] < f.len());
    assert(all[0] != all[1] && all[0] != all[2] && all[0] != all[3] && all[0] != all[4]);
    assert(all[1] != all[2] && all[1] != all[3] && all[1] != all[4]);
    assert(all[2] != all[3] && all[2] != all[4]);
    assert(all[3] != all[4]);
    if named is Some {
        assert(all[5] < f.len() && all[6] < f.len());
        assert(all[0] != all[5] && all[1] != all[5] && all[2] != all[5] && all[3] != all[5] && all[4] != all[5]);
        assert(all[0] != all[6] && all[1] != all[6] && all[2] != all[6] && all[3] != all[6] && all[4] != all[6]
            && all[5] != all[6]);
    }
    let t1 = s.write_field(x, ords.clazz as int, Slot::Reference(this));
    let f1 = f.update(ords.clazz as int, Slot::Reference(this));
    let class = s.object(x)->0->Instance_class;
    assert(t1.object(x) == Some(Object::Instance { class, fields: f1 }));
    let t2 = t1.write_field(x, ords.slot as int, Slot::Int(place as i32));
    let f2 = f1.update(ords.slot as int, Slot::Int(place as i32));
    assert(t2.object(x) == Some(Object::Instance { class, fields: f2 }));
    let (t4, f4) = match named {
        Some((name, result)) => (
            t2.write_field(x, ords.name as int, Slot::Reference(name)).write_field(
                x,
                ords.result as int,
                Slot::Reference(result),
            ),
            f2.update(ords.name as int, Slot::Reference(name)).update(ords.result as int, Slot::Reference(result)),
        ),
        None => (t2, f2),
    };
    assert(t4.object(x) == Some(Object::Instance { class, fields: f4 }));
    let t5 = t4.write_field(x, ords.parameter_types as int, Slot::Reference(params));
    let f5 = f4.update(ords.parameter_types as int, Slot::Reference(params));
    assert(t5.object(x) == Some(Object::Instance { class, fields: f5 }));
    let t6 = t5.write_field(x, ords.exception_types as int, Slot::Reference(exceptions));
    let f6 = f5.update(ords.exception_types as int, Slot::Reference(exceptions));
    assert(t6.object(x) == Some(Object::Instance { class, fields: f6 }));
    let t7 = t6.write_field(x, ords.modifiers as int, Slot::Int(access as i32));
    let f7 = f6.update(ords.modifiers as int, Slot::Int(access as i32));
    assert(t7.object(x) == Some(Object::Instance { class, fields: f7 }));
    assert(t7.object(arr) == s.object(arr));
    let t = t7.write_element(arr, i, Slot::Reference(x));
    assert(t.object(x) == t7.object(x));
    assert forall|y: Reference| y != x && y != arr implies #[trigger] t.object(y) == s.object(y) by {
        assert(t1.object(y) == s.object(y));
        assert(t2.object(y) == t1.object(y));
        assert(t4.object(y) == t2.object(y));
        assert(t5.object(y) == t4.object(y));
        assert(t6.object(y) == t5.object(y));
        assert(t7.object(y) == t6.object(y));
    }
}

/// Whether `t` holds what `s` holds, up to the elements of `arr`, in which only element `i` differs.
pub open spec fn one_element_set(s: State, t: State, arr: Reference, i: int) -> bool {
    &&& sound(t)
    &&& t.vm.registry == s.vm.registry
    &&& mirrors_kept(s, t)
    &&& forall|n: Seq<char>|
        s.vm.strings.contains_key(n) ==> #[trigger] t.vm.strings.contains_key(n) && t.vm.strings[n] == s.vm.strings[n]
    &&& forall|y: Reference| s.object(y) is Some && y != arr ==> #[trigger] t.object(y) == s.object(y)
    &&& s.object(arr) matches Some(Object::Array { class: c, elements: es }) && t.object(arr) matches Some(
        Object::Array { class: d, elements: fs },
    ) && c == d && es.len() == fs.len() && forall|k: int| 0 <= k < es.len() && k != i ==> #[trigger] fs[k] == es[k]
}

proof fn same_mirrors(s: State, a: State, b: State)
    requires
        mirrors_kept(s, a),
        sound(a),
        b.vm.class_mirrors == a.vm.class_mirrors,
        b.vm.heap.len() == a.vm.heap.len(),
    ensures
        mirrors_kept(s, b),
        sound(b),
{
    assert forall|k: Seq<char>| #[trigger] b.vm.class_mirrors.contains_key(k) implies (
    b.vm.class_mirrors[k].0 matches Some(id) ==> id < b.vm.heap.len()) by {
        assert(a.vm.class_mirrors.contains_key(k));
    }
    assert forall|n: Seq<char>|
        s.vm.class_mirrors.contains_key(n)
            && s.vm.class_mirrors[n].0 is Some implies #[trigger] b.vm.class_mirrors.contains_key(n)
        && b.vm.class_mirrors[n] == s.vm.class_mirrors[n] by {
        assert(a.vm.class_mirrors.contains_key(n));
    }
}

/// The last part of making a `Method` or `Constructor`, once everything that it refers to is there.
proof fn fill_step(
    s: State,
    s4: State,
    this: Reference,
    arr: Reference,
    i: int,
    n: int,
    m: Member,
    ords: ExecutableOrds,
    method: bool,
    params: Reference,
    exceptions: Reference,
    named: Option<(Reference, Reference)>,
)
    requires
        method_type(m.desc) is Some,
        array_of(s, arr, n),
        0 <= i < n,
        kept(s, s4),
        s.class(executable_class(method)) is Some,
        executable_ords(s.class(executable_class(method))->0, method) == Some(ords),
        s4.vm.heap.len() < handle_space(),
        mirrors_array(s4, params, method_type(m.desc)->0.parameters),
        mirrors_array(s4, exceptions, Seq::empty()),
        s.object(params) is None,
        s.object(exceptions) is None,
        method == (named is Some),
        named matches Some((name, result)) ==> s4.vm.strings.get(m.name) == Some(name) && is_mirror(
            s4,
            Slot::Reference(result),
            match method_type(m.desc)->0.result {
                Some(r) => class_name_of(r),
                None => "void"@,
            },
        ),
    ensures
        ({
            let (s5, x) = s4.alloc_fresh(executable_class(method));
            let t = filled(s5, x, this, arr, i, m.place, m.access, ords, params, exceptions, named);
            executable_described(t, this, arr, i, m, ords, method) && one_element_set(s, t, arr, i)
        }),
{
    let c = s.class(executable_class(method))->0;
    class_has_its_name(s, executable_class(method));
    positions_are_apart(c, method);
    let (s5, x) = s4.alloc_fresh(executable_class(method));
    assert(s4.vm.registry == s.vm.registry && sound(s4) && s.vm.heap.len() <= s4.vm.heap.len()) by {
        reveal(kept);
    }
    assert(s4.class(executable_class(method)) == Some(c));
    alloc_keeps(s4, c.fresh());
    assert(s5.object(x) == Some(c.fresh()));
    assert(s4.object(arr) == s.object(arr) && s5.object(arr) == s.object(arr)) by {
        reveal(kept);
    }
    kept_trans(s, s4, s5);
    mirrors_array_stays(s4, s5, params, method_type(m.desc)->0.parameters);
    mirrors_array_stays(s4, s5, exceptions, Seq::empty());
    assert(c.fresh()->fields.len() == c.instance_fields@.len());
    filled_fields(s5, x, this, arr, i, n, m.place, m.access, ords, params, exceptions, named);
    let t = filled(s5, x, this, arr, i, m.place, m.access, ords, params, exceptions, named);
    assert(x != arr);
    assert(t.object(params) == s5.object(params) && t.object(exceptions) == s5.object(exceptions)) by {
        assert(s4.object(params) is Some && s4.object(exceptions) is Some);
    }
    assert(executable_fields(t, this, m, ords, method, t.object(x)->0->fields));
    assert(t.object(arr)->0->elements[i] == Slot::Reference(x));
    assert(s5.vm.strings == s4.vm.strings);
    assert(mirrors_kept(s, s5) && sound(s5)) by {
        reveal(kept);
    }
    same_mirrors(s, s5, t);
    assert forall|y: Reference| s.object(y) is Some && y != arr implies #[trigger] t.object(y) == s.object(y) by {
        reveal(kept);
        assert(s5.object(y) == s.object(y));
        assert(y != x);
    }
    assert forall|k: Seq<char>| s.vm.strings.contains_key(k) implies #[trigger] t.vm.strings.contains_key(k)
        && t.vm.strings[k] == s.vm.strings[k] by {
        reveal(kept);
        assert(s5.vm.strings.contains_key(k));
    }
}

/// One more `Method` or `Constructor`: it is described, and nothing else that was there changes.
proof fn executable_step(
    s: State,
    this: Reference,
    arr: Reference,
    i: int,
    n: int,
    m: Member,
    ords: ExecutableOrds,
    method: bool,
)
    requires
        array_of(s, arr, n),
        0 <= i < n,
        sound(s),
        s.class(executable_class(method)) is Some,
        executable_ords(s.class(executable_class(method))->0, method) == Some(ords),
        executable_made(s, this, arr, i, m, ords, method).1 is Ok,
        executable_made(s, this, arr, i, m, ords, method).0.vm.heap.len() < handle_space(),
    ensures
        executable_described(executable_made(s, this, arr, i, m, ords, method).0, this, arr, i, m, ords, method),
        one_element_set(s, executable_made(s, this, arr, i, m, ords, method).0, arr, i),
        method_type(m.desc) is Some,
{
    let t = method_type(m.desc)->0;
    let (s1, params) = class_array(s, t.parameters);
    let end = executable_made(s, this, arr, i, m, ords, method).0;
    if method {
        let (s2, result) = result_mirror(s1, t.result);
        let (s3, exceptions) = class_array(s2, Seq::empty());
        let (s4, named) = interned(s3, m.name);
        let name = named->Ok_0;
        let (s5, x) = s4.alloc_fresh("java/lang/reflect/Method"@);
        assert(end == filled(s5, x, this, arr, i, m.place, m.access, ords, params, exceptions, Some((name, result))));
        result_mirror_grown(s1, t.result);
        class_array_grown(s2, Seq::empty());
        interned_grown(s3, m.name);
        fresh_grown(s4, "java/lang/reflect/Method"@);
        assert(s5.vm.heap.len() == end.vm.heap.len());
        assert(s1.vm.heap.len() <= s2.vm.heap.len() <= s3.vm.heap.len() <= s4.vm.heap.len() <= s5.vm.heap.len()) by {
            reveal(grown);
        }
        class_array_keeps(s, t.parameters);
        assert(sound(s1)) by {
            reveal(kept);
        }
        let rn = match t.result {
            Some(r) => class_name_of(r),
            None => "void"@,
        };
        mirror_keeps(s1, rn);
        assert(s2 == class_mirror(s1, rn).0 && result == class_mirror(s1, rn).1);
        assert(sound(s2)) by {
            reveal(kept);
        }
        class_array_keeps(s2, Seq::empty());
        assert(sound(s3)) by {
            reveal(kept);
        }
        interned_is_kept(s3, m.name);
        kept_trans(s, s1, s2);
        kept_trans(s, s2, s3);
        kept_trans(s, s3, s4);
        kept_trans(s1, s2, s3);
        kept_trans(s1, s3, s4);
        kept_trans(s2, s3, s4);
        mirrors_array_stays(s1, s4, params, t.parameters);
        mirrors_array_stays(s3, s4, exceptions, Seq::empty());
        mirror_stays(s2, s4, Slot::Reference(result), rn);
        assert(s.object(exceptions) is None) by {
            reveal(kept);
            kept_objects(s, s2, exceptions);
        }
        fill_step(s, s4, this, arr, i, n, m, ords, method, params, exceptions, Some((name, result)));
    } else {
        let (s3, exceptions) = class_array(s1, Seq::empty());
        let (s5, x) = s3.alloc_fresh("java/lang/reflect/Constructor"@);
        assert(end == filled(s5, x, this, arr, i, m.place, m.access, ords, params, exceptions, None));
        class_array_grown(s1, Seq::empty());
        fresh_grown(s3, "java/lang/reflect/Constructor"@);
        assert(s5.vm.heap.len() == end.vm.heap.len());
        assert(s1.vm.heap.len() <= s3.vm.heap.len() <= s5.vm.heap.len()) by {
            reveal(grown);
        }
        class_array_keeps(s, t.parameters);
        assert(sound(s1)) by {
            reveal(kept);
        }
        class_array_keeps(s1, Seq::empty());
        kept_trans(s, s1, s3);
        mirrors_array_stays(s1, s3, params, t.parameters);
        assert(s.object(exceptions) is None) by {
            kept_objects(s, s1, exceptions);
        }
        fill_step(s, s3, this, arr, i, n, m, ords, method, params, exceptions, None);
    }
}

proof fn kept_objects(s: State, t: State, x: Reference)
    requires
        kept(s, t),
        t.object(x) is None,
    ensures
        s.object(x) is None,
{
    reveal(kept);
    assert(s.object(x) is Some ==> t.object(x) == s.object(x));
}

/// What is described stays so while other elements are set.
proof fn described_stays(
    s: State,
    t: State,
    this: Reference,
    arr: Reference,
    i: int,
    j: int,
    m: Member,
    ords: ExecutableOrds,
    method: bool,
)
    requires
        one_element_set(s, t, arr, i),
        s.object(arr)->0->Array_class != "[Ljava/lang/Class;"@,
        j != i,
        executable_described(s, this, arr, j, m, ords, method),
    ensures
        executable_described(t, this, arr, j, m, ords, method),
{
    let x = s.object(arr)->0->elements[j]->Reference_0;
    assert(t.object(arr)->0->elements[j] == s.object(arr)->0->elements[j]);
    assert(x != arr);
    assert(t.object(x) == s.object(x));
    let fields = s.object(x)->0->fields;
    let p = slot_or_top(fields, ords.parameter_types as int)->Reference_0;
    let q = slot_or_top(fields, ords.exception_types as int)->Reference_0;
    let types = method_type(m.desc)->0.parameters;
    assert(p != arr && q != arr);
    assert(t.object(p) == s.object(p));
    assert(t.object(q) == s.object(q));
    let es = s.object(p)->0->elements;
    assert forall|k: int| 0 <= k < types.len() implies is_mirror(t, #[trigger] es[k], class_name_of(types[k])) by {
        assert(is_mirror(s, es[k], class_name_of(types[k])));
        assert(s.vm.class_mirrors.contains_key(class_name_of(types[k])) ==> t.vm.class_mirrors.contains_key(
            class_name_of(types[k]),
        ) || s.vm.class_mirrors[class_name_of(types[k])].0 is None);
    }
    if method {
        let rn = match method_type(m.desc)->0.result {
            Some(r) => class_name_of(r),
            None => "void"@,
        };
        assert(s.vm.class_mirrors.contains_key(rn) ==> t.vm.class_mirrors.contains_key(rn)
            || s.vm.class_mirrors[rn].0 is None);
        assert(s.vm.strings.contains_key(m.name));
        assert(t.vm.strings.contains_key(m.name));
    }
}

#[verifier::rlimit(30)]
#[verifier::spinoff_prover]
proof fn executables_step(
    s: State,
    this: Reference,
    arr: Reference,
    i: int,
    ms: Seq<Member>,
    ords: ExecutableOrds,
    method: bool,
    j: int,
)
    requires
        0 <= i <= ms.len(),
        0 <= j < ms.len(),
        array_of(s, arr, ms.len() as int),
        s.object(arr)->0->Array_class != "[Ljava/lang/Class;"@,
        sound(s),
        s.class(executable_class(method)) is Some,
        executable_ords(s.class(executable_class(method))->0, method) == Some(ords),
        executables_made(s, this, arr, i, ms, ords, method).1 is Ok,
        executables_made(s, this, arr, i, ms, ords, method).0.vm.heap.len() < handle_space(),
        j < i ==> executable_described(s, this, arr, j, ms[j], ords, method) && method_type(ms[j].desc) is Some,
    ensures
        array_of(executables_made(s, this, arr, i, ms, ords, method).0, arr, ms.len() as int),
        executable_described(executables_made(s, this, arr, i, ms, ords, method).0, this, arr, j, ms[j], ords, method),
        method_type(ms[j].desc) is Some,
    decreases ms.len() - i,
{
    if i < ms.len() {
        let t = executable_made(s, this, arr, i, ms[i], ords, method).0;
        executables_made_grown(t, this, arr, i + 1, ms, ords, method);
        assert(t.vm.heap.len() < handle_space()) by {
            reveal(grown);
        }
        executable_step(s, this, arr, i, ms.len() as int, ms[i], ords, method);
        if j < i {
            described_stays(s, t, this, arr, i, j, ms[j], ords, method);
        }
        executables_step(t, this, arr, i + 1, ms, ords, method, j);
    }
}

proof fn executables_result(
    s: State,
    this: Reference,
    arr: Reference,
    i: int,
    ms: Seq<Member>,
    ords: ExecutableOrds,
    method: bool,
)
    requires
        0 <= i <= ms.len(),
        executables_made(s, this, arr, i, ms, ords, method).1 is Ok,
    ensures
        executables_made(s, this, arr, i, ms, ords, method).1 == Ok::<Value, VmError>(Value::Reference(arr)),
    decreases ms.len() - i,
{
    if i < ms.len() {
        let t = executable_made(s, this, arr, i, ms[i], ords, method).0;
        executables_result(t, this, arr, i + 1, ms, ords, method);
    }
}

proof fn array_described(
    s: State,
    this: Reference,
    array_class: Seq<char>,
    ms: Seq<Member>,
    ords: ExecutableOrds,
    method: bool,
    i: int,
)
    requires
        array_class != "[Ljava/lang/Class;"@,
        sound(s),
        s.class(executable_class(method)) is Some,
        executable_ords(s.class(executable_class(method))->0, method) == Some(ords),
        ({
            let (s1, arr) = s.alloc_object(Object::Array { class: array_class, elements: null_slots(ms.len()) });
            let (t, r) = executables_made(s1, this, arr, 0, ms, ords, method);
            r is Ok && t.vm.heap.len() < handle_space()
        }),
    ensures
        ({
            let (s1, arr) = s.alloc_object(Object::Array { class: array_class, elements: null_slots(ms.len()) });
            let (t, r) = executables_made(s1, this, arr, 0, ms, ords, method);
            &&& r == Ok::<Value, VmError>(Value::Reference(arr))
            &&& array_of(t, arr, ms.len() as int)
            &&& 0 <= i < ms.len() ==> executable_described(t, this, arr, i, ms[i], ords, method) && method_type(
                ms[i].desc,
            ) is Some
        }),
{
    let o = Object::Array { class: array_class, elements: null_slots(ms.len()) };
    let (s1, arr) = s.alloc_object(o);
    executables_made_grown(s1, this, arr, 0, ms, ords, method);
    executables_result(s1, this, arr, 0, ms, ords, method);
    assert(s1.vm.heap.len() < handle_space()) by {
        reveal(grown);
    }
    alloc_keeps(s, o);
    assert(sound(s1)) by {
        reveal(kept);
    }
    assert(s1.object(arr) == Some(o));
    if 0 <= i < ms.len() {
        executables_step(s1, this, arr, 0, ms, ords, method, i);
    } else if 0 < ms.len() {
        executables_step(s1, this, arr, 0, ms, ords, method, 0);
    }
}

/// Every `Method` that `getDeclaredMethods0` returns describes its method: the array has one for each shown
/// method, in the order of declaration.
pub proof fn law_declared_methods_describe_the_class(s: State, this: Reference, args: Seq<Value>, i: int)
    requires
        sound(s),
        declared_methods(s, Some(this), args).1 is Ok,
        declared_methods(s, Some(this), args).0.vm.heap.len() < handle_space(),
    ensures
        ({
            let (t, r) = declared_methods(s, Some(this), args);
            let c = s.class(name_of(s.vm.class_mirrors, this)->0)->0;
            let ms = shown_methods(c.cf, flag_arg(args, 0), false, c.cf.methods@.len() as int);
            let ords = executable_ords(s.class("java/lang/reflect/Method"@)->0, true)->0;
            &&& r matches Ok(Value::Reference(arr)) && array_of(t, arr, ms.len() as int)
            &&& 0 <= i < ms.len() ==> executable_described(t, this, r->Ok_0->Reference_0, i, ms[i], ords, true)
                && method_type(ms[i].desc) is Some
        }),
{
    reveal_strlit("[Ljava/lang/Class;");
    reveal_strlit("[Ljava/lang/reflect/Method;");
    assert("[Ljava/lang/Class;"@.len() == 18 && "[Ljava/lang/reflect/Method;"@.len() == 27);
    let c = s.class(name_of(s.vm.class_mirrors, this)->0)->0;
    let ms = shown_methods(c.cf, flag_arg(args, 0), false, c.cf.methods@.len() as int);
    let ords = executable_ords(s.class("java/lang/reflect/Method"@)->0, true)->0;
    array_described(s, this, "[Ljava/lang/reflect/Method;"@, ms, ords, true, i);
}

/// Every `Constructor` that `getDeclaredConstructors0` returns describes its constructor: the array has one for
/// each shown constructor, in the order of declaration.
pub proof fn law_declared_constructors_describe_the_class(s: State, this: Reference, args: Seq<Value>, i: int)
    requires
        sound(s),
        declared_constructors(s, Some(this), args).1 is Ok,
        declared_constructors(s, Some(this), args).0.vm.heap.len() < handle_space(),
    ensures
        ({
            let (t, r) = declared_constructors(s, Some(this), args);
            let c = s.class(name_of(s.vm.class_mirrors, this)->0)->0;
            let ms = shown_methods(c.cf, flag_arg(args, 0), true, c.cf.methods@.len() as int);
            let ords = executable_ords(s.class("java/lang/reflect/Constructor"@)->0, false)->0;
            &&& r matches Ok(Value::Reference(arr)) && array_of(t, arr, ms.len() as int)
            &&& 0 <= i < ms.len() ==> executable_described(t, this, r->Ok_0->Reference_0, i, ms[i], ords, false)
                && method_type(ms[i].desc) is Some
        }),
{
    reveal_strlit("[Ljava/lang/Class;");
    reveal_strlit("[Ljava/lang/reflect/Constructor;");
    assert("[Ljava/lang/Class;"@.len() == 18 && "[Ljava/lang/reflect/Constructor;"@.len() == 32);
    let c = s.class(name_of(s.vm.class_mirrors, this)->0)->0;
    let ms = shown_methods(c.cf, flag_arg(args, 0), true, c.cf.methods@.len() as int);
    let ords = executable_ords(s.class("java/lang/reflect/Constructor"@)->0, false)->0;
    array_described(s, this, "[Ljava/lang/reflect/Constructor;"@, ms, ords, false, i);
}

/// A mirror that is not `null` leads to the same name after the machine has grown.
proof fn name_stays(s: State, t: State, this: Reference)
    requires
        sound(s),
        grown(s, t),
        this.0 is Some,
        name_of(s.vm.class_mirrors, this) is Some,
    ensures
        name_of(t.vm.class_mirrors, this) == name_of(s.vm.class_mirrors, this),
        t.vm.registry == s.vm.registry,
{
    reveal(grown);
    reveal(mirrors_stay);
    let a = s.vm.class_mirrors;
    let b = t.vm.class_mirrors;
    let n = choose|n: Seq<char>| #[trigger] a.contains_key(n) && a[n] == this;
    assert(a.contains_key(n) && a[n] == this);
    assert(b.contains_key(n) && b[n] == this);
    let k = choose|k: Seq<char>| #[trigger] b.contains_key(k) && b[k] == this;
    assert(b.contains_key(k) && b[k] == this);
    assert(b[k] == b[n]);
}

/// What the fields of a described `Method` or `Constructor` read as.
proof fn described_meta(
    t: State,
    this: Reference,
    arr: Reference,
    i: int,
    m: Member,
    ords: ExecutableOrds,
    method: bool,
    x: Reference,
)
    requires
        t.class(executable_class(method)) is Some,
        executable_ords(t.class(executable_class(method))->0, method) == Some(ords),
        array_of(t, arr, t.object(arr)->0->elements.len() as int),
        t.object(arr)->0->elements[i] == Slot::Reference(x),
        executable_described(t, this, arr, i, m, ords, method),
        m.place <= i32::MAX,
    ensures
        x.0 is Some,
        executable_meta(t, x, executable_class(method)) == Ok::<(Reference, i32, i32), VmError>(
            (this, m.place as i32, m.access as i32),
        ),
{
    let c = t.class(executable_class(method))->0;
    assert(c.instance_fields.len() == c.instance_fields@.len());
    ord_names(c, "clazz"@);
    ord_names(c, "slot"@);
    ord_names(c, "modifiers"@);
}

/// What `getDeclaredConstructors0` returns is what `newInstance0` runs: with a `Constructor` out of the array,
/// `newInstance0` runs the constructor that it stands for, which is the `<init>` at its slot, or finds fault with
/// the arguments; for an abstract class it throws an `InstantiationException`.
pub proof fn law_constructors_run_what_they_stand_for(
    s: State,
    this: Reference,
    args: Seq<Value>,
    i: int,
    x: Reference,
    arguments: Reference,
)
    requires
        sound(s),
        this.0 is Some,
        declared_constructors(s, Some(this), args).1 is Ok,
        declared_constructors(s, Some(this), args).0.vm.heap.len() < handle_space(),
        ({
            let (t, r) = declared_constructors(s, Some(this), args);
            let cf = s.class(name_of(s.vm.class_mirrors, this)->0)->0.cf;
            &&& cf.methods@.len() <= i32::MAX
            &&& 0 <= i < shown_methods(cf, flag_arg(args, 0), true, cf.methods@.len() as int).len()
            &&& t.object(r->Ok_0->Reference_0)->0->elements[i] == Slot::Reference(x)
        }),
    ensures
        ({
            let t = declared_constructors(s, Some(this), args).0;
            let internal = name_of(s.vm.class_mirrors, this)->0;
            let cf = s.class(internal)->0.cf;
            let m = shown_methods(cf, flag_arg(args, 0), true, cf.methods@.len() as int)[i];
            let init = cf.methods@[m.place as int];
            &&& m.place < cf.methods@.len()
            &&& cf.constant_pool.utf8_at(init.name_index) == Some("<init>"@)
            &&& cf.constant_pool.utf8_at(init.descriptor_index) == Some(m.desc)
            &&& executable_meta(t, x, "java/lang/reflect/Constructor"@) == Ok::<(Reference, i32, i32), VmError>(
                (this, m.place as i32, m.access as i32),
            )
            &&& reflective_construction(t, seq![Value::Reference(x), Value::Reference(arguments)])
                == if abstract_class(s, internal) {
                done(throws(t, "java/lang/InstantiationException"@))
            } else {
                match call_arguments(t, arguments, method_type(m.desc)->0) {
                    Err(e) => done(stopped(e)),
                    Ok(slots) => construction_prepared(t, internal, m.place as i32, slots),
                }
            }
        }),
{
    let (t, r) = declared_constructors(s, Some(this), args);
    let internal = name_of(s.vm.class_mirrors, this)->0;
    let cf = s.class(internal)->0.cf;
    let ms = shown_methods(cf, flag_arg(args, 0), true, cf.methods@.len() as int);
    let ords = executable_ords(s.class("java/lang/reflect/Constructor"@)->0, false)->0;
    law_declared_constructors_describe_the_class(s, this, args, i);
    law_shown_methods(cf, flag_arg(args, 0), true, cf.methods@.len() as int, i);
    declared_constructors_grown(s, Some(this), args);
    name_stays(s, t, this);
    described_meta(t, this, r->Ok_0->Reference_0, i, ms[i], ords, false, x);
    let call = seq![Value::Reference(x), Value::Reference(arguments)];
    assert(object_arg(call, 0) == Some(x));
    assert(or_null(object_arg(call, 1)) == arguments);
}

/// What `getDeclaredMethods0` returns is what `invoke0` runs: with a `Method` out of the array, `invoke0` runs the
/// method at its slot if that is static, and what the class of the receiver has for its name and descriptor if
/// not, or finds fault with arguments or receiver.
pub proof fn law_methods_run_what_they_stand_for(
    s: State,
    this: Reference,
    args: Seq<Value>,
    i: int,
    x: Reference,
    receiver: Reference,
    arguments: Reference,
)
    requires
        sound(s),
        this.0 is Some,
        declared_methods(s, Some(this), args).1 is Ok,
        declared_methods(s, Some(this), args).0.vm.heap.len() < handle_space(),
        ({
            let (t, r) = declared_methods(s, Some(this), args);
            let cf = s.class(name_of(s.vm.class_mirrors, this)->0)->0.cf;
            &&& cf.methods@.len() <= i32::MAX
            &&& 0 <= i < shown_methods(cf, flag_arg(args, 0), false, cf.methods@.len() as int).len()
            &&& t.object(r->Ok_0->Reference_0)->0->elements[i] == Slot::Reference(x)
        }),
    ensures
        ({
            let t = declared_methods(s, Some(this), args).0;
            let internal = name_of(s.vm.class_mirrors, this)->0;
            let cf = s.class(internal)->0.cf;
            let m = shown_methods(cf, flag_arg(args, 0), false, cf.methods@.len() as int)[i];
            let method = cf.methods@[m.place as int];
            let is_static = (m.access & ACC_STATIC) != 0;
            &&& m.place < cf.methods@.len()
            &&& cf.constant_pool.utf8_at(method.name_index) == Some(m.name)
            &&& cf.constant_pool.utf8_at(method.descriptor_index) == Some(m.desc)
            &&& method.access_flags == m.access
            &&& executable_meta(t, x, "java/lang/reflect/Method"@) == Ok::<(Reference, i32, i32), VmError>(
                (this, m.place as i32, m.access as i32),
            )
            &&& reflective_call(
                t,
                seq![Value::Reference(x), Value::Reference(receiver), Value::Reference(arguments)],
            ) == match call_arguments(t, arguments, method_type(m.desc)->0) {
                Err(e) => done(stopped(e)),
                Ok(slots) => call_prepared(
                    t,
                    call_target(t, internal, m.place as i32, m.name, m.desc, is_static, receiver),
                    if is_static {
                        None
                    } else {
                        Some(receiver)
                    },
                    slots,
                    method_type(m.desc)->0.result,
                ),
            }
        }),
{
    let (t, r) = declared_methods(s, Some(this), args);
    let internal = name_of(s.vm.class_mirrors, this)->0;
    let cf = s.class(internal)->0.cf;
    let ms = shown_methods(cf, flag_arg(args, 0), false, cf.methods@.len() as int);
    let ords = executable_ords(s.class("java/lang/reflect/Method"@)->0, true)->0;
    law_declared_methods_describe_the_class(s, this, args, i);
    law_shown_methods(cf, flag_arg(args, 0), false, cf.methods@.len() as int, i);
    declared_methods_grown(s, Some(this), args);
    name_stays(s, t, this);
    described_meta(t, this, r->Ok_0->Reference_0, i, ms[i], ords, true, x);
    let call = seq![Value::Reference(x), Value::Reference(receiver), Value::Reference(arguments)];
    assert(object_arg(call, 0) == Some(x));
    assert(or_null(super::step::reference_arg(call, 1)) == receiver);
    assert(or_null(object_arg(call, 2)) == arguments);
    assert(static_flag(ms[i].access as i32) == ((ms[i].access & ACC_STATIC) != 0));
}

} // verus!
