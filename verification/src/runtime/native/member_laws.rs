//! What the arrays of `Field`, `Method` and `Constructor` objects hold.

use vstd::prelude::*;

use super::growth::{field_made_grown, fields_made_grown};
use super::java_lang_members::{
    declared_fields, field_made, field_ords, fields_made, mirror_name, mirrored_class, null_slots, shown_fields,
    FieldOrds, Member,
};
use super::step::flag_arg;
use crate::metadata::class_registry::{class_names, LoadedClass};
use crate::runtime::heap::handle_space;
use crate::runtime::oop::{slot_or_top, Object};
use crate::runtime::slot::{Reference, Slot};
use crate::runtime::string::interned;
use crate::runtime::text::{first_index, is_first};
use crate::runtime::value::{Value, VmError};
use crate::runtime::vm::class_mirrors::one_to_one;
use crate::runtime::vm::growth::{
    class_mirror_grown, fresh_grown, grown, interned_grown, mirrors_allocated, mirrors_kept,
};
use crate::runtime::vm::mirror_laws::{
    interned_keeps, law_mirrors_leave_objects_alone, mirror_step, ord_names,
};
use crate::runtime::vm::mirrors::class_mirror;
use crate::runtime::vm::State;

verus! {

/// Whether element `i` of the array is a `Field` of the class behind `this` that describes `m`: class, slot,
/// modifiers, the interned name and the mirror of the type.
pub open spec fn field_described(s: State, this: Reference, arr: Reference, i: int, m: Member, ords: FieldOrds) -> bool {
    match s.object(arr) {
        Some(Object::Array { elements, .. }) => 0 <= i < elements.len() && match elements[i] {
            Slot::Reference(f) => match s.object(f) {
                Some(Object::Instance { class, fields }) => {
                    &&& class == "java/lang/reflect/Field"@
                    &&& slot_or_top(fields, ords.clazz as int) == Slot::Reference(this)
                    &&& slot_or_top(fields, ords.slot as int) == Slot::Int(m.place as i32)
                    &&& slot_or_top(fields, ords.modifiers as int) == Slot::Int(m.access as i32)
                    &&& slot_or_top(fields, ords.name as int) matches Slot::Reference(n) && s.vm.strings.get(m.name)
                        == Some(n)
                    &&& slot_or_top(fields, ords.type_ as int) matches Slot::Reference(c) && (c.0 is Some
                        ==> s.vm.class_mirrors.get(mirror_name(m.desc)) == Some(c))
                },
                _ => false,
            },
            _ => false,
        },
        _ => false,
    }
}

/// Whether `arr` is an array of `n` elements.
pub open spec fn array_of(s: State, arr: Reference, n: int) -> bool {
    s.object(arr) matches Some(Object::Array { elements, .. }) && elements.len() == n
}

/// Whether the positions are those of five different fields of `n`.
pub open spec fn apart(ords: FieldOrds, n: int) -> bool {
    &&& ords.clazz < n && ords.slot < n && ords.name < n && ords.type_ < n && ords.modifiers < n
    &&& ords.clazz != ords.slot && ords.clazz != ords.name && ords.clazz != ords.type_ && ords.clazz != ords.modifiers
    &&& ords.slot != ords.name && ords.slot != ords.type_ && ords.slot != ords.modifiers
    &&& ords.name != ords.type_ && ords.name != ords.modifiers
    &&& ords.type_ != ords.modifiers
}

proof fn names_apart()
    ensures
        "clazz"@ != "slot"@,
        "clazz"@ != "name"@,
        "clazz"@ != "type"@,
        "clazz"@ != "modifiers"@,
        "slot"@ != "name"@,
        "slot"@ != "type"@,
        "slot"@ != "modifiers"@,
        "name"@ != "type"@,
        "name"@ != "modifiers"@,
        "type"@ != "modifiers"@,
{
    reveal_strlit("clazz");
    reveal_strlit("slot");
    reveal_strlit("name");
    reveal_strlit("type");
    reveal_strlit("modifiers");
    assert("clazz"@[0] == 'c');
    assert("slot"@[0] == 's');
    assert("name"@[0] == 'n');
    assert("type"@[0] == 't');
    assert("modifiers"@[0] == 'm');
}

proof fn ords_apart(c: LoadedClass)
    requires
        field_ords(c) is Some,
    ensures
        apart(field_ords(c)->0, c.instance_fields@.len() as int),
{
    assert(c.instance_fields.len() == c.instance_fields@.len());
    names_apart();
    ord_names(c, "clazz"@);
    ord_names(c, "slot"@);
    ord_names(c, "name"@);
    ord_names(c, "type"@);
    ord_names(c, "modifiers"@);
}

pub(crate) proof fn class_has_its_name(s: State, name: Seq<char>)
    requires
        s.class(name) is Some,
    ensures
        s.class(name)->0.name@ == name,
{
    let reg = s.vm.registry->0;
    let cs = class_names(reg.classes());
    let i = first_index(cs, name)->0;
    assert(is_first(cs, name, i));
    assert(cs[i] == s.class(name)->0.name@);
}

/// One more `Field`: it is described, and nothing else that was there changes.
proof fn field_step(s: State, this: Reference, arr: Reference, i: int, n: int, m: Member, ords: FieldOrds, x: Reference)
    requires
        array_of(s, arr, n),
        0 <= i < n,
        mirrors_allocated(s),
        one_to_one(s.vm.class_mirrors),
        s.class("java/lang/reflect/Field"@) is Some,
        field_ords(s.class("java/lang/reflect/Field"@)->0) == Some(ords),
        field_made(s, this, arr, i, m, ords).1 is Ok,
        field_made(s, this, arr, i, m, ords).0.vm.heap.len() < handle_space(),
    ensures
        ({
            let t = field_made(s, this, arr, i, m, ords).0;
            &&& field_described(t, this, arr, i, m, ords)
            &&& array_of(t, arr, n)
            &&& mirrors_allocated(t)
            &&& one_to_one(t.vm.class_mirrors)
            &&& mirrors_kept(s, t)
            &&& t.class("java/lang/reflect/Field"@) == s.class("java/lang/reflect/Field"@)
            &&& s.object(x) is Some && x != arr ==> t.object(x) == s.object(x)
            &&& forall|k: int| 0 <= k < n && k != i ==> (#[trigger] t.object(arr)->0->elements[k]) == s.object(
                arr,
            )->0->elements[k]
        }),
{
    let t = field_made(s, this, arr, i, m, ords).0;
    field_made_grown(s, this, arr, i, m, ords);
    let c = s.class("java/lang/reflect/Field"@)->0;
    ords_apart(c);
    class_has_its_name(s, "java/lang/reflect/Field"@);
    let (s1, f) = s.alloc_fresh("java/lang/reflect/Field"@);
    fresh_grown(s, "java/lang/reflect/Field"@);
    let mn = mirror_name(m.desc);
    let (s2, mirror) = class_mirror(s1, mn);
    class_mirror_grown(s1, mn);
    let (s3, named) = interned(s2, m.name);
    interned_grown(s2, m.name);
    assert(s.vm.heap.len() < handle_space()) by {
        reveal(grown);
    }
    assert(s1.object(f) == Some(c.fresh()));
    assert(f != arr && (s.object(x) is Some ==> f != x));
    mirror_step(s1, mn);
    law_mirrors_leave_objects_alone(s1, mn, f);
    law_mirrors_leave_objects_alone(s1, mn, arr);
    interned_keeps(s2, m.name, f);
    interned_keeps(s2, m.name, arr);
    if s.object(x) is Some {
        assert(s1.object(x) == s.object(x));
        law_mirrors_leave_objects_alone(s1, mn, x);
        interned_keeps(s2, m.name, x);
    }
    let name = named->Ok_0;
    let s4 = s3.write_field(f, ords.clazz as int, Slot::Reference(this));
    let s5 = s4.write_field(f, ords.slot as int, Slot::Int(m.place as i32));
    let s6 = s5.write_field(f, ords.name as int, Slot::Reference(name));
    let s7 = s6.write_field(f, ords.type_ as int, Slot::Reference(mirror));
    let s8 = s7.write_field(f, ords.modifiers as int, Slot::Int(m.access as i32));
    assert(s3.object(f) == Some(c.fresh()));
    let fresh = c.fresh()->fields;
    assert(fresh.len() == c.instance_fields@.len());
    assert(s8.object(f) == Some(
        Object::Instance {
            class: c.name@,
            fields: fresh.update(ords.clazz as int, Slot::Reference(this)).update(
                ords.slot as int,
                Slot::Int(m.place as i32),
            ).update(ords.name as int, Slot::Reference(name)).update(ords.type_ as int, Slot::Reference(mirror)).update(
                ords.modifiers as int,
                Slot::Int(m.access as i32),
            ),
        },
    ));
    assert(s8.object(arr) == s.object(arr));
    assert(t == s8.write_element(arr, i, Slot::Reference(f)));
    assert(t.object(f) == s8.object(f));
    assert(t.vm.strings == s3.vm.strings);
    assert(s3.vm.strings.contains_key(m.name) && s3.vm.strings[m.name] == name);
    assert(t.vm.class_mirrors == s2.vm.class_mirrors);
    assert(mirrors_kept(s, t)) by {
        assert(s1.vm.class_mirrors == s.vm.class_mirrors);
    }
    assert(t.vm.heap.len() >= s2.vm.heap.len()) by {
        reveal(grown);
    }
    assert(mirrors_allocated(t)) by {
        assert forall|n: Seq<char>| #[trigger] t.vm.class_mirrors.contains_key(n) implies (t.vm.class_mirrors[n].0 matches Some(
            id,
        ) ==> id < t.vm.heap.len()) by {
            assert(s2.vm.class_mirrors.contains_key(n));
        }
    }
    assert(t.vm.registry == s.vm.registry) by {
        reveal(grown);
    }
}

proof fn fields_result(s: State, this: Reference, arr: Reference, i: int, ms: Seq<Member>, ords: FieldOrds)
    requires
        0 <= i <= ms.len(),
        fields_made(s, this, arr, i, ms, ords).1 is Ok,
    ensures
        fields_made(s, this, arr, i, ms, ords).1 == Ok::<Value, VmError>(Value::Reference(arr)),
    decreases ms.len() - i,
{
    if i < ms.len() {
        fields_result(field_made(s, this, arr, i, ms[i], ords).0, this, arr, i + 1, ms, ords);
    }
}

proof fn fields_step(
    s: State,
    this: Reference,
    arr: Reference,
    i: int,
    ms: Seq<Member>,
    ords: FieldOrds,
    j: int,
)
    requires
        0 <= i <= ms.len(),
        0 <= j < ms.len(),
        array_of(s, arr, ms.len() as int),
        mirrors_allocated(s),
        one_to_one(s.vm.class_mirrors),
        s.class("java/lang/reflect/Field"@) is Some,
        field_ords(s.class("java/lang/reflect/Field"@)->0) == Some(ords),
        fields_made(s, this, arr, i, ms, ords).1 is Ok,
        fields_made(s, this, arr, i, ms, ords).0.vm.heap.len() < handle_space(),
        j < i ==> field_described(s, this, arr, j, ms[j], ords),
    ensures
        array_of(fields_made(s, this, arr, i, ms, ords).0, arr, ms.len() as int),
        field_described(fields_made(s, this, arr, i, ms, ords).0, this, arr, j, ms[j], ords),
    decreases ms.len() - i,
{
    if i < ms.len() {
        let t = field_made(s, this, arr, i, ms[i], ords).0;
        fields_made_grown(t, this, arr, i + 1, ms, ords);
        assert(t.vm.heap.len() < handle_space()) by {
            reveal(grown);
        }
        let x = s.object(arr)->0->elements[j]->Reference_0;
        field_step(s, this, arr, i, ms.len() as int, ms[i], ords, x);
        if j < i {
            field_made_grown(s, this, arr, i, ms[i], ords);
            assert(t.object(arr)->0->elements[j] == s.object(arr)->0->elements[j]);
            assert(x != arr);
            assert(t.vm.strings.contains_key(ms[j].name)) by {
                reveal(grown);
                assert(s.vm.strings.contains_key(ms[j].name));
            }
            assert(t.vm.strings[ms[j].name] == s.vm.strings[ms[j].name]) by {
                reveal(grown);
            }
            assert(s.vm.class_mirrors.contains_key(mirror_name(ms[j].desc)) ==> t.vm.class_mirrors.contains_key(
                mirror_name(ms[j].desc),
            ) || s.vm.class_mirrors[mirror_name(ms[j].desc)].0 is None);
        }
        fields_step(t, this, arr, i + 1, ms, ords, j);
    }
}

/// Every `Field` that `getDeclaredFields0` returns describes its field: the array has one for each shown
/// field, in the order of declaration.
pub proof fn law_declared_fields_describe_the_class(s: State, this: Reference, args: Seq<Value>, i: int)
    requires
        mirrors_allocated(s),
        one_to_one(s.vm.class_mirrors),
        declared_fields(s, Some(this), args).1 is Ok,
        declared_fields(s, Some(this), args).0.vm.heap.len() < handle_space(),
    ensures
        ({
            let (t, r) = declared_fields(s, Some(this), args);
            let c = s.class(crate::runtime::vm::class_mirrors::name_of(s.vm.class_mirrors, this)->0)->0;
            let ms = shown_fields(c.cf, flag_arg(args, 0), c.cf.fields@.len() as int);
            let ords = field_ords(s.class("java/lang/reflect/Field"@)->0)->0;
            &&& r matches Ok(Value::Reference(arr)) && array_of(t, arr, ms.len() as int)
            &&& 0 <= i < ms.len() ==> field_described(t, this, r->Ok_0->Reference_0, i, ms[i], ords)
        }),
{
    let (t, r) = declared_fields(s, Some(this), args);
    let c = mirrored_class(
        s,
        this,
        VmError::BadConstant("getDeclaredFields0:非 Class 镜像"),
        VmError::BadConstant("getDeclaredFields0 需注册表"),
        VmError::BadConstant("getDeclaredFields0:声明类未加载"),
    )->Ok_0;
    let ms = shown_fields(c.cf, flag_arg(args, 0), c.cf.fields@.len() as int);
    let ords = field_ords(s.class("java/lang/reflect/Field"@)->0)->0;
    let (s1, arr) = s.alloc_object(
        Object::Array { class: "[Ljava/lang/reflect/Field;"@, elements: null_slots(ms.len()) },
    );
    fields_made_grown(s1, this, arr, 0, ms, ords);
    fields_result(s1, this, arr, 0, ms, ords);
    assert(s.vm.heap.len() < handle_space()) by {
        reveal(grown);
    }
    assert(array_of(s1, arr, ms.len() as int));
    assert(mirrors_allocated(s1)) by {
        assert forall|n: Seq<char>| #[trigger] s1.vm.class_mirrors.contains_key(n) implies (s1.vm.class_mirrors[n].0 matches Some(
            id,
        ) ==> id < s1.vm.heap.len()) by {
            assert(s.vm.class_mirrors.contains_key(n));
        }
    }
    if 0 <= i < ms.len() {
        fields_step(s1, this, arr, 0, ms, ords, i);
    } else if 0 < ms.len() {
        fields_step(s1, this, arr, 0, ms, ords, 0);
    }
}

} // verus!
