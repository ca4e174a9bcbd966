//! What class mirrors promise: one mirror per class, found again by name and by reference, with the fields that
//! the machine fills in.

use vstd::prelude::*;

use super::class_mirrors::{bound, law_bound_both_ways, name_of, one_to_one};
use super::growth::{
    class_mirror_grown, grown, mirror_begun, mirror_finished_grown, mirrors_allocated, mirrors_kept, mirrors_stay,
    mirrors_there, same_mirrors_stay, sound,
};
use super::mirrors::{
    array_len, class_mirror, component_name, component_shrinks, int_field, mirror_asked, mirror_bound,
    mirror_field_written, mirror_finished, mirror_modifiers, mirror_pending, module_for, module_name_for, named_field, named_field_written,
    primitive_keyword, reference_field,
};
use super::{new_local, new_shared, Shared, State};
use crate::metadata::class_registry::{field_names, ClassRegistry, LoadedClass};
use crate::runtime::heap::handle_space;
use crate::runtime::slot::{Reference, Slot};
use crate::runtime::string::interned;
use crate::runtime::text::is_first;

verus! {

/// Interning leaves mirrors, classes and existing objects alone.
pub(crate) proof fn interned_keeps(s: State, text: Seq<char>, x: Reference)
    ensures
        interned(s, text).0.vm.class_mirrors == s.vm.class_mirrors,
        interned(s, text).0.vm.registry == s.vm.registry,
        interned(s, text).0.vm.unnamed_module == s.vm.unnamed_module,
        interned(s, text).0.vm.module_mirrors == s.vm.module_mirrors,
        interned(s, text).0.vm.heap.len() >= s.vm.heap.len(),
        s.object(x) is Some ==> interned(s, text).0.object(x) == s.object(x),
{
}

proof fn module_for_keeps(s: State, internal: Seq<char>, x: Reference)
    ensures
        module_for(s, internal).0.vm.class_mirrors == s.vm.class_mirrors,
        module_for(s, internal).0.vm.registry == s.vm.registry,
        s.object(x) is Some ==> module_for(s, internal).0.object(x) == s.object(x),
        module_for(s, internal).1.0 is Some ==> match module_name_for(s, internal) {
            Some(m) => module_for(s, internal).0.vm.module_mirrors.get(m) == Some(module_for(s, internal).1),
            None => module_for(s, internal).0.vm.unnamed_module == Some(module_for(s, internal).1),
        },
{
    match module_name_for(s, internal) {
        Some(name) => {
            if !s.vm.module_mirrors.contains_key(name) {
                let (s1, r) = s.alloc_fresh("java/lang/Module"@);
                if r.0 is Some {
                    let s2 = State {
                        vm: Shared { module_mirrors: s1.vm.module_mirrors.insert(name, r), ..s1.vm },
                        ..s1
                    };
                    interned_keeps(s2, name, x);
                    assert(s.object(x) is Some ==> x != r);
                }
            }
        },
        None => {},
    }
}

proof fn finished_keeps(s: State, mirror: Reference, internal: Seq<char>, x: Reference)
    ensures
        mirror_finished(s, mirror, internal).vm.class_mirrors == s.vm.class_mirrors,
        mirror_finished(s, mirror, internal).vm.registry == s.vm.registry,
        mirror_finished(s, mirror, internal).vm.heap.len() >= s.vm.heap.len(),
        s.object(x) is Some && x != mirror ==> mirror_finished(s, mirror, internal).object(x) == s.object(x),
{
    let s1 = if primitive_keyword(internal) {
        mirror_field_written(s, mirror, "primitive"@, Slot::Int(1))
    } else {
        s
    };
    module_for_keeps(s1, internal, x);
    mirror_finished_grown(s, mirror, internal);
    reveal(grown);
}

/// What asking for a mirror does to the table of mirrors.
pub(crate) proof fn mirror_step(s: State, name: Seq<char>)
    requires
        mirrors_allocated(s),
    ensures
        mirrors_allocated(class_mirror(s, name).0),
        mirrors_kept(s, class_mirror(s, name).0),
        class_mirror(s, name).0.vm.heap.len() >= s.vm.heap.len(),
        class_mirror(s, name).1.0 is Some ==> class_mirror(s, name).0.vm.class_mirrors.contains_key(name)
            && class_mirror(s, name).0.vm.class_mirrors[name] == class_mirror(s, name).1,
        one_to_one(s.vm.class_mirrors) ==> one_to_one(class_mirror(s, name).0.vm.class_mirrors),
    decreases array_len(name),
{
    if !s.vm.class_mirrors.contains_key(name) {
        class_mirror_grown(s, name);
        let (s1, r) = s.alloc_fresh("java/lang/Class"@);
        let s2 = mirror_bound(s1, name, r);
        assert(s2.vm.class_mirrors == bound(s.vm.class_mirrors, name, r));
        if one_to_one(s.vm.class_mirrors) {
            law_bound_both_ways(s.vm.class_mirrors, name, r);
        }
        assert(mirrors_allocated(s2));
        assert(mirrors_kept(s, s2)) by {
            assert forall|n: Seq<char>|
                s.vm.class_mirrors.contains_key(n)
                    && s.vm.class_mirrors[n].0 is Some implies #[trigger] s2.vm.class_mirrors.contains_key(n)
                && s2.vm.class_mirrors[n] == s.vm.class_mirrors[n] by {
                assert(s.vm.class_mirrors[n] != r);
            }
        }
        let s3 = mirror_begun(s, name);
        match component_name(name) {
            Some(c) => {
                component_shrinks(name);
                mirror_step(s2, c);
                let t = class_mirror(s2, c).0;
                assert(s3.vm.class_mirrors == t.vm.class_mirrors);
                assert(s3.vm.heap.len() == t.vm.heap.len());
                assert forall|n: Seq<char>|
                    s.vm.class_mirrors.contains_key(n)
                        && s.vm.class_mirrors[n].0 is Some implies #[trigger] s3.vm.class_mirrors.contains_key(n)
                    && s3.vm.class_mirrors[n] == s.vm.class_mirrors[n] by {
                    assert(s2.vm.class_mirrors.contains_key(n));
                }
                if r.0 is Some {
                    assert(s2.vm.class_mirrors.contains_key(name));
                }
            },
            None => {},
        }
        finished_keeps(s3, r, name, r);
    }
}

/// The mirrors of a new machine are sound.
pub proof fn law_new_machine_has_sound_mirrors(registry: Option<ClassRegistry>)
    ensures
        sound(State { vm: new_shared(registry), thread: new_local() }),
        mirrors_there(State { vm: new_shared(registry), thread: new_local() }),
{
}

/// Sound mirrors stay sound, and every mirror stays what it is, through everything after which the machine is what
/// it can become.
pub proof fn law_mirrors_stay_sound(s: State, t: State)
    requires
        grown(s, t),
    ensures
        sound(s) ==> sound(t) && mirrors_kept(s, t),
        mirrors_there(s) ==> mirrors_there(t),
{
    reveal(grown);
    reveal(mirrors_stay);
}

/// What touches neither classes nor mirrors and takes no object off the heap leaves the mirrors sound: writes to the
/// heap, the call stack, the phases of the machine, marks of initialized classes, the table of strings, limits and
/// identities.
pub proof fn law_mirrors_rest_on_heap_and_classes(s: State, t: State)
    requires
        t.vm.class_mirrors == s.vm.class_mirrors,
        t.vm.registry == s.vm.registry,
        s.vm.heap.len() <= t.vm.heap.len(),
    ensures
        sound(s) ==> sound(t) && mirrors_kept(s, t),
        mirrors_there(s) ==> mirrors_there(t),
{
    reveal(mirrors_stay);
    same_mirrors_stay(s, t);
}

/// Where there is a class to make mirrors of, and there are handles, the mirror of a class is not `null`.
pub proof fn law_class_mirrors_are_there(s: State, name: Seq<char>)
    requires
        mirrors_there(s),
        s.class("java/lang/Class"@) is Some,
        s.vm.heap.len() < handle_space(),
    ensures
        class_mirror(s, name).1.0 is Some,
{
    class_mirror_grown(s, name);
}

/// A class has one mirror: asked for again, it is the same and nothing changes; it leads back to the name; no
/// other class has it; and every class that had a mirror before keeps its own.
pub proof fn law_class_mirrors_are_canonical(s: State, name: Seq<char>, other: Seq<char>)
    requires
        sound(s),
        class_mirror(s, name).1.0 is Some,
    ensures
        ({
            let (t, r) = class_mirror(s, name);
            &&& class_mirror(t, name) == (t, r)
            &&& name_of(t.vm.class_mirrors, r) == Some(name)
            &&& sound(t)
            &&& s.vm.class_mirrors.contains_key(other) && s.vm.class_mirrors[other].0 is Some ==> class_mirror(t, other)
                == (t, s.vm.class_mirrors[other])
            &&& other != name && class_mirror(t, other).1.0 is Some ==> class_mirror(t, other).1 != r
        }),
{
    mirror_step(s, name);
    let (t, r) = class_mirror(s, name);
    assert(t.vm.class_mirrors.contains_key(name));
    let k = choose|n: Seq<char>| #[trigger] t.vm.class_mirrors.contains_key(n) && t.vm.class_mirrors[n] == r;
    assert(t.vm.class_mirrors.contains_key(k) && t.vm.class_mirrors[k] == r);
    assert(t.vm.class_mirrors[k] == t.vm.class_mirrors[name]);
    if s.vm.class_mirrors.contains_key(other) && s.vm.class_mirrors[other].0 is Some {
        assert(t.vm.class_mirrors.contains_key(other));
    }
    if other != name && class_mirror(t, other).1.0 is Some {
        mirror_step(t, other);
        let (u, q) = class_mirror(t, other);
        assert(u.vm.class_mirrors.contains_key(name));
        assert(u.vm.class_mirrors.contains_key(other));
        assert(u.vm.class_mirrors[name] == r);
        assert(u.vm.class_mirrors[other] == q);
    }
}

/// Once no initializer has to run first, asking for the mirror of a class gives one that is not `null`, and the same
/// again, without any change, when asked again; it leads back to the name, and no other class gets it.
pub proof fn law_asking_for_mirrors(s: State, name: Seq<char>, other: Seq<char>)
    requires
        sound(s),
        mirrors_there(s),
        s.class("java/lang/Class"@) is Some,
        s.vm.heap.len() < handle_space(),
        mirror_pending(s, name) is None,
    ensures
        ({
            let (t, m) = mirror_asked(s, name);
            &&& sound(t)
            &&& mirrors_there(t)
            &&& m is Ok
            &&& m->Ok_0.0 is Some
            &&& mirror_asked(t, name) == (t, m)
            &&& name_of(t.vm.class_mirrors, m->Ok_0) == Some(name)
            &&& other != name ==> mirror_asked(t, other).1 != m
        }),
{
    law_class_mirrors_are_there(s, name);
    law_class_mirrors_are_canonical(s, name, other);
    class_mirror_grown(s, name);
    law_mirrors_stay_sound(s, class_mirror(s, name).0);
    let t = class_mirror(s, name).0;
    assert(t.vm.class_mirrors.contains_key(name)) by {
        mirror_step(s, name);
    }
}

/// Asking for a mirror changes no object that was there before.
pub proof fn law_mirrors_leave_objects_alone(s: State, name: Seq<char>, x: Reference)
    requires
        s.object(x) is Some,
    ensures
        class_mirror(s, name).0.object(x) == s.object(x),
    decreases array_len(name),
{
    if !s.vm.class_mirrors.contains_key(name) {
        class_mirror_grown(s, name);
        let (s1, r) = s.alloc_fresh("java/lang/Class"@);
        let s2 = mirror_bound(s1, name, r);
        assert(x != r);
        let s3 = mirror_begun(s, name);
        match component_name(name) {
            Some(c) => {
                component_shrinks(name);
                law_mirrors_leave_objects_alone(s2, c, x);
            },
            None => {},
        }
        assert(s3.object(x) == s.object(x));
        finished_keeps(s3, r, name, x);
    }
}

/// The position of a field lies in the layout and names that field.
pub(crate) proof fn ord_names(c: LoadedClass, name: Seq<char>)
    ensures
        c.ord_of(name) matches Some(i) ==> 0 <= i < c.instance_fields@.len() && field_names(c.instance_fields@)[i]
            == name && field_names(c.instance_fields@).len() == c.instance_fields@.len(),
{
    let names = field_names(c.instance_fields@);
    if exists|i: int| is_first(names, name, i) {
        let i = choose|i: int| is_first(names, name, i);
        assert(is_first(names, name, i));
    }
}

/// A field that was written by name is read back, and no other field of the instance is affected.
pub(crate) proof fn named_write_read(
    s: State,
    r: Reference,
    class: Seq<char>,
    c: LoadedClass,
    field: Seq<char>,
    slot: Slot,
    other: Seq<char>,
)
    requires
        s.class(class) == Some(c),
        s.object(r) is Some,
        s.object(r)->0 is Instance,
        s.object(r)->0->fields.len() == c.instance_fields@.len(),
    ensures
        ({
            let t = named_field_written(s, r, class, field, slot);
            &&& c.ord_of(field) is Some ==> named_field(t, r, class, field) == Some(slot)
            &&& other != field ==> named_field(t, r, class, other) == named_field(s, r, class, other)
            &&& t.object(r) is Some && t.object(r)->0 is Instance && t.object(r)->0->fields.len()
                == c.instance_fields@.len()
            &&& t.class(class) == Some(c)
        }),
{
    ord_names(c, field);
    ord_names(c, other);
}

/// The fields of a new mirror: the modifiers of the class, its module, that it is primitive, and the mirror of
/// its component type.
pub proof fn law_fields_of_a_new_mirror(s: State, name: Seq<char>)
    requires
        !s.vm.class_mirrors.contains_key(name),
        s.class("java/lang/Class"@) is Some,
        s.class("java/lang/Class"@)->0.ord_of("modifiers"@) is Some,
        s.class("java/lang/Class"@)->0.ord_of("module"@) is Some,
        s.class("java/lang/Class"@)->0.ord_of("primitive"@) is Some,
        s.class("java/lang/Class"@)->0.ord_of("componentType"@) is Some,
        s.vm.heap.len() < handle_space(),
    ensures
        ({
            let (t, r) = class_mirror(s, name);
            let class = "java/lang/Class"@;
            &&& int_field(t, r, class, "modifiers"@) == Some(mirror_modifiers(s, name))
            &&& primitive_keyword(name) ==> int_field(t, r, class, "primitive"@) == Some(1i32)
            &&& reference_field(t, r, class, "module"@) matches Some(m) && (m.0 is Some ==> match module_name_for(
                t,
                name,
            ) {
                Some(named) => t.vm.module_mirrors.get(named) == Some(m),
                None => t.vm.unnamed_module == Some(m),
            })
            &&& component_name(name) matches Some(c) ==> reference_field(t, r, class, "componentType"@) == Some(
                class_mirror(mirror_bound(s.alloc_fresh(class).0, name, r), c).1,
            )
        }),
{
    reveal_strlit("modifiers");
    reveal_strlit("module");
    reveal_strlit("primitive");
    reveal_strlit("componentType");
    assert("modifiers"@.len() == 9 && "module"@.len() == 6 && "componentType"@.len() == 13 && "primitive"@.len() == 9);
    assert("modifiers"@[0] == 'm');
    assert("primitive"@[0] == 'p');
    let class = "java/lang/Class"@;
    let c = s.class(class)->0;
    class_mirror_grown(s, name);
    let (s1, r) = s.alloc_fresh(class);
    let s2 = mirror_bound(s1, name, r);
    let s3 = mirror_begun(s, name);
    assert(s2.object(r) == Some(c.fresh()));
    assert(s2.class(class) == Some(c));
    match component_name(name) {
        Some(n) => {
            component_shrinks(name);
            let (t, m) = class_mirror(s2, n);
            law_mirrors_leave_objects_alone(s2, n, r);
            class_mirror_grown(s2, n);
            assert(t.vm.registry == s2.vm.registry) by {
                reveal(grown);
            }
            named_write_read(t, r, class, c, "componentType"@, Slot::Reference(m), "module"@);
        },
        None => {},
    }
    assert(s3.class(class) == Some(c));
    let s4 = if primitive_keyword(name) {
        mirror_field_written(s3, r, "primitive"@, Slot::Int(1))
    } else {
        s3
    };
    named_write_read(s3, r, class, c, "primitive"@, Slot::Int(1), "componentType"@);
    let (s5, module) = module_for(s4, name);
    module_for_keeps(s4, name, r);
    assert(s5.object(r) == s4.object(r));
    let s6 = mirror_field_written(s5, r, "module"@, Slot::Reference(module));
    named_write_read(s5, r, class, c, "module"@, Slot::Reference(module), "componentType"@);
    named_write_read(s5, r, class, c, "module"@, Slot::Reference(module), "primitive"@);
    let mods = Slot::Int(mirror_modifiers(s6, name));
    named_write_read(s6, r, class, c, "modifiers"@, mods, "componentType"@);
    named_write_read(s6, r, class, c, "modifiers"@, mods, "primitive"@);
    named_write_read(s6, r, class, c, "modifiers"@, mods, "module"@);
    let t = class_mirror(s, name).0;
    assert(t == mirror_field_written(s6, r, "modifiers"@, mods));
    module_name_stable(s4, t, name);
}

proof fn module_name_stable(s: State, t: State, name: Seq<char>)
    requires
        s.vm.registry == t.vm.registry,
    ensures
        module_name_for(s, name) == module_name_for(t, name),
    decreases array_len(name),
{
    match component_name(name) {
        Some(c) => {
            component_shrinks(name);
            module_name_stable(s, t, c);
        },
        None => {},
    }
}

/// A mirror that is not of a primitive type keeps the field `primitive` that a new instance has, and one that is not of
/// an array the field `componentType`.
pub proof fn law_fields_that_a_new_mirror_keeps(s: State, name: Seq<char>)
    requires
        !s.vm.class_mirrors.contains_key(name),
        s.class("java/lang/Class"@) is Some,
        s.class("java/lang/Class"@)->0.ord_of("primitive"@) is Some,
        s.class("java/lang/Class"@)->0.ord_of("componentType"@) is Some,
        s.vm.heap.len() < handle_space(),
    ensures
        ({
            let (t, r) = class_mirror(s, name);
            let class = "java/lang/Class"@;
            let c = s.class(class)->0;
            let keyword = name == "boolean"@ || name == "byte"@ || name == "char"@ || name == "short"@ || name
                == "int"@ || name == "long"@ || name == "float"@ || name == "double"@ || name == "void"@;
            &&& !keyword ==> named_field(t, r, class, "primitive"@) == Some(
                c.fresh()->fields[c.ord_of("primitive"@)->0],
            )
            &&& component_name(name) is None ==> named_field(t, r, class, "componentType"@) == Some(
                c.fresh()->fields[c.ord_of("componentType"@)->0],
            )
        }),
{
    reveal_strlit("modifiers");
    reveal_strlit("module");
    reveal_strlit("primitive");
    reveal_strlit("componentType");
    assert("modifiers"@.len() == 9 && "module"@.len() == 6 && "componentType"@.len() == 13 && "primitive"@.len() == 9);
    assert("modifiers"@[0] == 'm');
    assert("primitive"@[0] == 'p');
    let class = "java/lang/Class"@;
    let c = s.class(class)->0;
    class_mirror_grown(s, name);
    let (s1, r) = s.alloc_fresh(class);
    let s2 = mirror_bound(s1, name, r);
    let s3 = mirror_begun(s, name);
    assert(s2.object(r) == Some(c.fresh()));
    assert(s2.class(class) == Some(c));
    ord_names(c, "primitive"@);
    ord_names(c, "componentType"@);
    match component_name(name) {
        Some(n) => {
            component_shrinks(name);
            let (t, m) = class_mirror(s2, n);
            law_mirrors_leave_objects_alone(s2, n, r);
            class_mirror_grown(s2, n);
            assert(t.vm.registry == s2.vm.registry) by {
                reveal(grown);
            }
            named_write_read(t, r, class, c, "componentType"@, Slot::Reference(m), "primitive"@);
        },
        None => {},
    }
    assert(s3.class(class) == Some(c));
    let s4 = if primitive_keyword(name) {
        mirror_field_written(s3, r, "primitive"@, Slot::Int(1))
    } else {
        s3
    };
    named_write_read(s3, r, class, c, "primitive"@, Slot::Int(1), "componentType"@);
    let (s5, module) = module_for(s4, name);
    module_for_keeps(s4, name, r);
    assert(s5.object(r) == s4.object(r));
    let s6 = mirror_field_written(s5, r, "module"@, Slot::Reference(module));
    named_write_read(s5, r, class, c, "module"@, Slot::Reference(module), "componentType"@);
    named_write_read(s5, r, class, c, "module"@, Slot::Reference(module), "primitive"@);
    let mods = Slot::Int(mirror_modifiers(s6, name));
    named_write_read(s6, r, class, c, "modifiers"@, mods, "componentType"@);
    named_write_read(s6, r, class, c, "modifiers"@, mods, "primitive"@);
    let t = class_mirror(s, name).0;
    assert(t == mirror_field_written(s6, r, "modifiers"@, mods));
}

} // verus!
