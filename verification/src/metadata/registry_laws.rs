//! What the registry of loaded classes and its classes answer.

use vstd::prelude::*;

use super::class_file::{ConstantPool, ConstantPoolEntry};
use super::class_registry::{
    class_names, default_slot, field_names, is_selected, is_typed_first, ClassRegistry, LoadedClass,
};
use super::descriptor::{descriptor, Type};
use crate::runtime::slot::{Reference, Slot};
use crate::runtime::text::{first_index_is, first_index_none, is_first};

verus! {

/// The class that is found under a name has that name and is the first that has it; none is found exactly if no class
/// has the name.
pub proof fn law_found_classes(reg: ClassRegistry, name: Seq<char>)
    ensures
        match reg.find(name) {
            Some(c) => c.name@ == name && reg.index_of(name) is Some && 0 <= reg.index_of(name)->0
                < reg.classes().len() && c == reg.classes()[reg.index_of(name)->0] && forall|j: int|
                0 <= j < reg.index_of(name)->0 ==> (#[trigger] reg.classes()[j]).name@ != name,
            None => reg.index_of(name) is None && forall|j: int|
                0 <= j < reg.classes().len() ==> (#[trigger] reg.classes()[j]).name@ != name,
        },
{
    let names = class_names(reg.classes());
    first_place(names, name);
    match reg.index_of(name) {
        Some(i) => {
            assert(names[i] == reg.classes()[i].name@);
            assert forall|j: int| 0 <= j < i implies (#[trigger] reg.classes()[j]).name@ != name by {
                assert(names[j] != name);
            }
        },
        None => {
            assert forall|j: int| 0 <= j < reg.classes().len() implies (#[trigger] reg.classes()[j]).name@ != name by {
                assert(names[j] != name);
            }
        },
    }
}

proof fn first_place(names: Seq<Seq<char>>, name: Seq<char>)
    ensures
        match crate::runtime::text::first_index(names, name) {
            Some(i) => is_first(names, name, i),
            None => forall|j: int| 0 <= j < names.len() ==> #[trigger] names[j] != name,
        },
{
    if exists|i: int| is_first(names, name, i) {
        let i = choose|i: int| is_first(names, name, i);
        assert(is_first(names, name, i));
    } else {
        assert forall|j: int| 0 <= j < names.len() implies #[trigger] names[j] != name by {
            if names[j] == name {
                least(names, name, j);
            }
        }
    }
}

/// A name that occurs has a first place.
proof fn least(names: Seq<Seq<char>>, name: Seq<char>, j: int)
    requires
        0 <= j < names.len(),
        names[j] == name,
    ensures
        exists|i: int| is_first(names, name, i),
    decreases j,
{
    if exists|k: int| 0 <= k < j && names[k] == name {
        let k = choose|k: int| 0 <= k < j && names[k] == name;
        least(names, name, k);
    } else {
        assert(is_first(names, name, j));
    }
}

/// The position of a field is that of the first field with its name; the position of a field with a name and a
/// descriptor is that of the first field with both; none is given exactly if there is no such field.
pub proof fn law_field_positions(c: LoadedClass, name: Seq<char>, desc: Seq<char>)
    ensures
        match c.ord_of(name) {
            Some(i) => 0 <= i < c.instance_fields@.len() && c.instance_fields@[i].name@ == name && forall|j: int|
                0 <= j < i ==> (#[trigger] c.instance_fields@[j]).name@ != name,
            None => forall|j: int| 0 <= j < c.instance_fields@.len() ==> (#[trigger] c.instance_fields@[j]).name@ != name,
        },
        match c.typed_ord_of(name, desc) {
            Some(i) => 0 <= i < c.instance_fields@.len() && c.instance_fields@[i].name@ == name
                && c.instance_fields@[i].descriptor@ == desc && forall|j: int|
                0 <= j < i ==> !((#[trigger] c.instance_fields@[j]).name@ == name && c.instance_fields@[j].descriptor@
                    == desc),
            None => forall|j: int|
                0 <= j < c.instance_fields@.len() ==> !((#[trigger] c.instance_fields@[j]).name@ == name
                    && c.instance_fields@[j].descriptor@ == desc),
        },
        match c.static_ord_of(name) {
            Some(i) => 0 <= i < c.static_fields@.len() && c.static_fields@[i]@ == name && forall|j: int|
                0 <= j < i ==> (#[trigger] c.static_fields@[j])@ != name,
            None => forall|j: int| 0 <= j < c.static_fields@.len() ==> (#[trigger] c.static_fields@[j])@ != name,
        },
{
    let fs = c.instance_fields@;
    let names = field_names(fs);
    first_place(names, name);
    match c.ord_of(name) {
        Some(i) => {
            assert(names[i] == fs[i].name@);
            assert forall|j: int| 0 <= j < i implies (#[trigger] fs[j]).name@ != name by {
                assert(names[j] != name);
            }
        },
        None => {
            assert forall|j: int| 0 <= j < fs.len() implies (#[trigger] fs[j]).name@ != name by {
                assert(names[j] != name);
            }
        },
    }
    if exists|i: int| is_typed_first(fs, name, desc, i) {
        let i = choose|i: int| is_typed_first(fs, name, desc, i);
        assert(is_typed_first(fs, name, desc, i));
    } else {
        assert forall|j: int| 0 <= j < fs.len() implies !((#[trigger] fs[j]).name@ == name && fs[j].descriptor@ == desc) by {
            if fs[j].name@ == name && fs[j].descriptor@ == desc {
                least_typed(c, name, desc, j);
            }
        }
    }
    let statics = c.static_fields@.map_values(|s: String| s@);
    first_place(statics, name);
    match c.static_ord_of(name) {
        Some(i) => {
            assert(statics[i] == c.static_fields@[i]@);
            assert forall|j: int| 0 <= j < i implies (#[trigger] c.static_fields@[j])@ != name by {
                assert(statics[j] != name);
            }
        },
        None => {
            assert forall|j: int| 0 <= j < c.static_fields@.len() implies (#[trigger] c.static_fields@[j])@ != name by {
                assert(statics[j] != name);
            }
        },
    }
}

proof fn least_typed(c: LoadedClass, name: Seq<char>, desc: Seq<char>, j: int)
    requires
        0 <= j < c.instance_fields@.len(),
        c.instance_fields@[j].name@ == name && c.instance_fields@[j].descriptor@ == desc,
    ensures
        exists|i: int| is_typed_first(c.instance_fields@, name, desc, i),
    decreases j,
{
    let fs = c.instance_fields@;
    if exists|k: int| 0 <= k < j && fs[k].name@ == name && fs[k].descriptor@ == desc {
        let k = choose|k: int| 0 <= k < j && fs[k].name@ == name && fs[k].descriptor@ == desc;
        least_typed(c, name, desc, k);
    } else {
        assert(is_typed_first(fs, name, desc, j));
    }
}

/// A new instance has one field for each field of its class, in the same order: numbers are 0, in the kind of number
/// that the type takes, and references are `null`.
pub proof fn law_default_fields(c: LoadedClass, i: int, t: Type)
    requires
        0 <= i < c.instance_fields@.len(),
        c.instance_fields@[i].descriptor@ == descriptor(t),
    ensures
        c.fresh() is Instance,
        c.fresh()->Instance_class == c.name@,
        c.fresh()->fields.len() == c.instance_fields@.len(),
        c.fresh()->fields[i] == match t {
            Type::Long => Slot::Long(0),
            Type::Float => Slot::Float(0),
            Type::Double => Slot::Double(0),
            Type::Class(_) | Type::Array(_) => Slot::Reference(Reference(None)),
            Type::Boolean | Type::Byte | Type::Char | Type::Short | Type::Int => Slot::Int(0),
        },
{
    reveal_with_fuel(descriptor, 2);
    let d = descriptor(t);
    assert(d.len() > 0);
    assert(c.fresh()->fields[i] == default_slot(d));
    match t {
        Type::Class(n) => {
            assert(d[0] == 'L');
        },
        Type::Array(n) => {
            assert(d[0] == '[');
        },
        _ => {},
    }
}

/// The method that a class runs for a name and descriptor is what its first entry for both says, provided that it
/// exists.
pub proof fn law_dispatch(reg: ClassRegistry, class: Seq<char>, name: Seq<char>, desc: Seq<char>, i: int)
    requires
        reg.find(class) is Some,
        0 <= i < reg.find(class)->0.dispatch@.len(),
        reg.find(class)->0.dispatch@[i].name@ == name,
        reg.find(class)->0.dispatch@[i].descriptor@ == desc,
        forall|j: int|
            0 <= j < i ==> !((#[trigger] reg.find(class)->0.dispatch@[j]).name@ == name
                && reg.find(class)->0.dispatch@[j].descriptor@ == desc),
    ensures
        ({
            let e = reg.find(class)->0.dispatch@[i];
            reg.dispatch_of(class, name, desc) == if e.class < reg.classes().len() && e.index
                < reg.classes()[e.class as int].cf.methods@.len() {
                Some((e.class, e.index))
            } else {
                None
            }
        }),
{
    let es = reg.find(class)->0.dispatch@;
    assert(is_selected(es, name, desc, i));
    let k = choose|k: int| is_selected(es, name, desc, k);
    assert(is_selected(es, name, desc, k));
    if k < i {
        assert(!(es[k].name@ == name && es[k].descriptor@ == desc));
    } else if i < k {
        assert(!crate::metadata::class_registry::dispatches(es[i], name, desc));
    }
}

/// A class that has no entry for a name and descriptor runs nothing, and neither does a class that is not loaded.
pub proof fn law_no_dispatch(reg: ClassRegistry, class: Seq<char>, name: Seq<char>, desc: Seq<char>)
    requires
        reg.find(class) matches Some(c) ==> forall|j: int|
            0 <= j < c.dispatch@.len() ==> !((#[trigger] c.dispatch@[j]).name@ == name && c.dispatch@[j].descriptor@
                == desc),
    ensures
        reg.dispatch_of(class, name, desc) is None,
{
    if reg.find(class) is Some {
        let es = reg.find(class)->0.dispatch@;
        if exists|k: int| is_selected(es, name, desc, k) {
            let k = choose|k: int| is_selected(es, name, desc, k);
            assert(is_selected(es, name, desc, k));
            assert(!(es[k].name@ == name && es[k].descriptor@ == desc));
        }
    }
}

/// A subtype is the type itself or a loaded class that lists it; the module of a class is the one that it names.
pub proof fn law_listed_facts(reg: ClassRegistry, sub: Seq<char>, sup: Seq<char>)
    ensures
        reg.subtype(sub, sup) == (sub == sup || (reg.find(sub) matches Some(c) && exists|i: int|
            0 <= i < c.supertypes@.len() && (#[trigger] c.supertypes@[i])@ == sup)),
        reg.find(sub) is None ==> reg.module_of(sub) is None,
        reg.find(sub) matches Some(c) ==> (match c.module {
            Some(m) => reg.module_of(sub) == Some(m@),
            None => reg.module_of(sub) is None,
        }),
        reg.find(sub) matches Some(c) ==> (match c.super_name {
            Some(m) => c.super_view() == Some(m@),
            None => c.super_view() is None,
        }),
{
}

/// A class that is loaded is found from then on, unless one of its name was there before, which stays; no other name
/// is affected.
pub proof fn law_loading(before: ClassRegistry, after: ClassRegistry, c: LoadedClass, name: Seq<char>)
    requires
        after.classes() == before.classes().push(c),
    ensures
        before.find(name) is Some ==> after.find(name) == before.find(name) && after.index_of(name) == before.index_of(
            name,
        ),
        before.find(name) is None && name == c.name@ ==> after.find(name) == Some(c) && after.index_of(name) == Some(
            before.classes().len() as int,
        ),
        before.find(name) is None && name != c.name@ ==> after.find(name) is None,
{
    let old_names = class_names(before.classes());
    let new_names = class_names(after.classes());
    assert(new_names =~= old_names.push(c.name@));
    first_place(old_names, name);
    match before.index_of(name) {
        Some(i) => {
            assert forall|j: int| 0 <= j < i implies #[trigger] new_names[j] != name by {
                assert(old_names[j] != name);
            }
            assert(is_first(new_names, name, i));
            first_index_is(new_names, name, i);
        },
        None => {
            let n = old_names.len() as int;
            assert forall|j: int| 0 <= j < n implies #[trigger] new_names[j] != name by {
                assert(old_names[j] != name);
            }
            if name == c.name@ {
                assert(is_first(new_names, name, n));
                first_index_is(new_names, name, n);
            } else {
                first_index_none(new_names, name);
            }
        },
    }
}

/// Entries are counted from 1: the text at an index is that of a text entry there, the class name that of the text
/// entry that a class entry there points to, and there is none in any other case.
pub proof fn law_constant_pool(cp: ConstantPool, index: u16)
    ensures
        index == 0 || index > cp.entries().len() ==> cp.utf8_at(index) is None && cp.class_name_at(index) is None,
        1 <= index <= cp.entries().len() ==> match cp.entries()[index - 1] {
            ConstantPoolEntry::Utf8(t) => cp.utf8_at(index) == Some(t@) && cp.class_name_at(index) is None,
            ConstantPoolEntry::Class(n) => cp.utf8_at(index) is None && (if 1 <= n <= cp.entries().len()
                && cp.entries()[n - 1] is Utf8 {
                cp.class_name_at(index) == Some(cp.entries()[n - 1]->Utf8_0@)
            } else {
                cp.class_name_at(index) is None
            }),
            _ => cp.utf8_at(index) is None && cp.class_name_at(index) is None,
        },
{
}

} // verus!
