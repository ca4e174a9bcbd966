//! The registry of loaded classes.

use vstd::prelude::*;

use super::class_file::ClassFile;
use crate::runtime::oop::{InstanceOop, Object};
use crate::runtime::slot::{Reference, Slot};
use crate::runtime::text::{begins_with, first_index, first_index_is, first_index_none, starts_with_char, str_eq};

verus! {

/// A field of an instance layout.
#[derive(Debug)]
pub struct FieldLayout {
    pub name: String,
    pub descriptor: String,
}

/// Which method a class runs for a name and descriptor: method `index` of class `class`.
#[derive(Debug)]
pub struct DispatchEntry {
    pub name: String,
    pub descriptor: String,
    pub class: usize,
    pub index: usize,
}

/// A class after loading and linking.
#[derive(Debug)]
pub struct LoadedClass {
    /// Internal name.
    pub name: String,
    /// Internal name of the direct superclass.
    pub super_name: Option<String>,
    /// Every proper supertype: the superclasses and all interfaces they and the class implement.
    pub supertypes: Vec<String>,
    /// The named module that the class belongs to.
    pub module: Option<String>,
    /// The class file.
    pub cf: ClassFile,
    /// Instance fields, those of the superclasses first.
    pub instance_fields: Vec<FieldLayout>,
    /// Names of the static fields that the class declares.
    pub static_fields: Vec<String>,
    /// Methods that instances of the class run.
    pub dispatch: Vec<DispatchEntry>,
}

/// Names of the fields of a layout.
pub open spec fn field_names(fields: Seq<FieldLayout>) -> Seq<Seq<char>> {
    fields.map_values(|f: FieldLayout| f.name@)
}

/// Names of the classes.
pub open spec fn class_names(classes: Seq<LoadedClass>) -> Seq<Seq<char>> {
    classes.map_values(|c: LoadedClass| c.name@)
}

/// The value that a field of this descriptor has before anything is written.
pub open spec fn default_slot(descriptor: Seq<char>) -> Slot {
    if begins_with(descriptor, 'J') {
        Slot::Long(0)
    } else if begins_with(descriptor, 'F') {
        Slot::Float(0)
    } else if begins_with(descriptor, 'D') {
        Slot::Double(0)
    } else if begins_with(descriptor, 'L') || begins_with(descriptor, '[') {
        Slot::Reference(Reference(None))
    } else {
        Slot::Int(0)
    }
}

/// The values that the fields of a new instance have.
pub open spec fn default_fields(fields: Seq<FieldLayout>) -> Seq<Slot> {
    fields.map_values(|f: FieldLayout| default_slot(f.descriptor@))
}

/// Whether the dispatch entry is for this name and descriptor.
pub open spec fn dispatches(e: DispatchEntry, name: Seq<char>, descriptor: Seq<char>) -> bool {
    e.name@ == name && e.descriptor@ == descriptor
}

/// Whether `i` is the first dispatch entry for this name and descriptor.
pub open spec fn is_selected(es: Seq<DispatchEntry>, name: Seq<char>, descriptor: Seq<char>, i: int) -> bool {
    &&& 0 <= i < es.len()
    &&& dispatches(es[i], name, descriptor)
    &&& forall|j: int| 0 <= j < i ==> !dispatches(#[trigger] es[j], name, descriptor)
}

/// Whether the field has this name and descriptor.
pub open spec fn is_field(f: FieldLayout, name: Seq<char>, descriptor: Seq<char>) -> bool {
    f.name@ == name && f.descriptor@ == descriptor
}

/// Whether `i` is the first field with this name and descriptor.
pub open spec fn is_typed_first(fs: Seq<FieldLayout>, name: Seq<char>, descriptor: Seq<char>, i: int) -> bool {
    &&& 0 <= i < fs.len()
    &&& is_field(fs[i], name, descriptor)
    &&& forall|j: int| 0 <= j < i ==> !is_field(#[trigger] fs[j], name, descriptor)
}

fn default_value(descriptor: &str) -> (r: Slot)
    ensures
        r == default_slot(descriptor@),
{
    if starts_with_char(descriptor, 'J') {
        Slot::Long(0)
    } else if starts_with_char(descriptor, 'F') {
        Slot::Float(0)
    } else if starts_with_char(descriptor, 'D') {
        Slot::Double(0)
    } else if starts_with_char(descriptor, 'L') || starts_with_char(descriptor, '[') {
        Slot::Reference(Reference(None))
    } else {
        Slot::Int(0)
    }
}

impl LoadedClass {
    /// Layout position of the instance field `name`.
    pub open spec fn ord_of(&self, name: Seq<char>) -> Option<int> {
        first_index(field_names(self.instance_fields@), name)
    }

    /// Position of the static field `name`.
    pub open spec fn static_ord_of(&self, name: Seq<char>) -> Option<int> {
        first_index(self.static_fields@.map_values(|s: String| s@), name)
    }

    /// Layout position of the first instance field with this name and descriptor.
    pub open spec fn typed_ord_of(&self, name: Seq<char>, descriptor: Seq<char>) -> Option<int> {
        if exists|i: int| is_typed_first(self.instance_fields@, name, descriptor, i) {
            Some(choose|i: int| is_typed_first(self.instance_fields@, name, descriptor, i))
        } else {
            None
        }
    }

    /// A new instance: every field has its default.
    pub open spec fn fresh(&self) -> Object {
        Object::Instance { class: self.name@, fields: default_fields(self.instance_fields@) }
    }

    /// Whether `name` is a proper supertype.
    pub open spec fn has_supertype(&self, name: Seq<char>) -> bool {
        exists|i: int| 0 <= i < self.supertypes@.len() && (#[trigger] self.supertypes@[i])@ == name
    }

    /// The method run for this name and descriptor: class and index.
    pub open spec fn selected(&self, name: Seq<char>, descriptor: Seq<char>) -> Option<(usize, usize)> {
        if exists|i: int| is_selected(self.dispatch@, name, descriptor, i) {
            let i = choose|i: int| is_selected(self.dispatch@, name, descriptor, i);
            Some((self.dispatch@[i].class, self.dispatch@[i].index))
        } else {
            None
        }
    }

    /// Name of the direct superclass.
    pub open spec fn super_view(&self) -> Option<Seq<char>> {
        match self.super_name {
            Some(s) => Some(s@),
            None => None,
        }
    }

    /// Name of the module.
    pub open spec fn module_view(&self) -> Option<Seq<char>> {
        match self.module {
            Some(s) => Some(s@),
            None => None,
        }
    }

    /// Layout position of the instance field `name`.
    pub fn field_index(&self, name: &str) -> (r: Option<usize>)
        ensures
            match r {
                Some(i) => i < self.instance_fields@.len() && self.ord_of(name@) == Some(i as int),
                None => self.ord_of(name@) is None,
            },
    {
        let ghost names = field_names(self.instance_fields@);
        let mut i: usize = 0;
        while i < self.instance_fields.len()
            invariant
                i <= self.instance_fields@.len(),
                names == field_names(self.instance_fields@),
                forall|j: int| 0 <= j < i ==> #[trigger] names[j] != name@,
            decreases self.instance_fields@.len() - i,
        {
            if str_eq(self.instance_fields[i].name.as_str(), name) {
                proof {
                    first_index_is(names, name@, i as int);
                }
                return Some(i);
            }
            i = i + 1;
        }
        proof {
            first_index_none(names, name@);
        }
        None
    }

    /// Position of the static field `name`.
    pub fn static_field_index(&self, name: &str) -> (r: Option<usize>)
        ensures
            match r {
                Some(i) => self.static_ord_of(name@) == Some(i as int),
                None => self.static_ord_of(name@) is None,
            },
    {
        let ghost names = self.static_fields@.map_values(|s: String| s@);
        let mut i: usize = 0;
        while i < self.static_fields.len()
            invariant
                i <= self.static_fields@.len(),
                names == self.static_fields@.map_values(|s: String| s@),
                forall|j: int| 0 <= j < i ==> #[trigger] names[j] != name@,
            decreases self.static_fields@.len() - i,
        {
            if str_eq(self.static_fields[i].as_str(), name) {
                proof {
                    first_index_is(names, name@, i as int);
                }
                return Some(i);
            }
            i = i + 1;
        }
        proof {
            first_index_none(names, name@);
        }
        None
    }

    /// Layout position of the first instance field with this name and descriptor.
    pub fn typed_field_index(&self, name: &str, descriptor: &str) -> (r: Option<usize>)
        ensures
            match r {
                Some(i) => i < self.instance_fields@.len() && self.typed_ord_of(name@, descriptor@) == Some(i as int),
                None => self.typed_ord_of(name@, descriptor@) is None,
            },
    {
        let mut i: usize = 0;
        while i < self.instance_fields.len()
            invariant
                i <= self.instance_fields@.len(),
                forall|j: int| 0 <= j < i ==> !is_field(#[trigger] self.instance_fields@[j], name@, descriptor@),
            decreases self.instance_fields@.len() - i,
        {
            if str_eq(self.instance_fields[i].name.as_str(), name) && str_eq(
                self.instance_fields[i].descriptor.as_str(),
                descriptor,
            ) {
                proof {
                    assert(is_typed_first(self.instance_fields@, name@, descriptor@, i as int));
                    let k = choose|k: int| is_typed_first(self.instance_fields@, name@, descriptor@, k);
                    assert(is_typed_first(self.instance_fields@, name@, descriptor@, k));
                    if k < i {
                        assert(!is_field(self.instance_fields@[k], name@, descriptor@));
                    } else if i < k {
                        assert(!is_field(self.instance_fields@[i as int], name@, descriptor@));
                    }
                }
                return Some(i);
            }
            i = i + 1;
        }
        None
    }

    /// A new instance: every field has its default.
    pub fn new_instance(&self) -> (r: InstanceOop)
        ensures
            r@ == self.fresh(),
    {
        let mut fields: Vec<Slot> = Vec::new();
        let mut i: usize = 0;
        while i < self.instance_fields.len()
            invariant
                i <= self.instance_fields@.len(),
                fields@ == default_fields(self.instance_fields@.take(i as int)),
            decreases self.instance_fields@.len() - i,
        {
            fields.push(default_value(self.instance_fields[i].descriptor.as_str()));
            i = i + 1;
            assert(fields@ =~= default_fields(self.instance_fields@.take(i as int)));
        }
        assert(self.instance_fields@.take(i as int) =~= self.instance_fields@);
        InstanceOop::new(self.name.clone(), fields)
    }

    /// Whether `name` is a proper supertype.
    pub fn is_subtype_of(&self, name: &str) -> (r: bool)
        ensures
            r == self.has_supertype(name@),
    {
        let mut i: usize = 0;
        while i < self.supertypes.len()
            invariant
                i <= self.supertypes@.len(),
                forall|j: int| 0 <= j < i ==> (#[trigger] self.supertypes@[j])@ != name@,
            decreases self.supertypes@.len() - i,
        {
            if str_eq(self.supertypes[i].as_str(), name) {
                assert(self.supertypes@[i as int]@ == name@);
                return true;
            }
            i = i + 1;
        }
        false
    }

    /// The method run for this name and descriptor.
    pub fn select(&self, name: &str, descriptor: &str) -> (r: Option<(usize, usize)>)
        ensures
            r == self.selected(name@, descriptor@),
    {
        let mut i: usize = 0;
        while i < self.dispatch.len()
            invariant
                i <= self.dispatch@.len(),
                forall|j: int| 0 <= j < i ==> !dispatches(#[trigger] self.dispatch@[j], name@, descriptor@),
            decreases self.dispatch@.len() - i,
        {
            if str_eq(self.dispatch[i].name.as_str(), name) && str_eq(
                self.dispatch[i].descriptor.as_str(),
                descriptor,
            ) {
                proof {
                    assert(is_selected(self.dispatch@, name@, descriptor@, i as int));
                    let k = choose|k: int| is_selected(self.dispatch@, name@, descriptor@, k);
                    assert(is_selected(self.dispatch@, name@, descriptor@, k));
                    if k < i {
                        assert(!dispatches(self.dispatch@[k], name@, descriptor@));
                    } else if i < k {
                        assert(!dispatches(self.dispatch@[i as int], name@, descriptor@));
                    }
                }
                return Some((self.dispatch[i].class, self.dispatch[i].index));
            }
            i = i + 1;
        }
        None
    }
}

/// The registry of loaded classes.
#[derive(Debug)]
pub struct ClassRegistry {
    classes: Vec<LoadedClass>,
}

impl ClassRegistry {
    /// The classes in the order of loading.
    pub closed spec fn classes(&self) -> Seq<LoadedClass> {
        self.classes@
    }

    /// Place of the class `name`.
    pub open spec fn index_of(&self, name: Seq<char>) -> Option<int> {
        first_index(class_names(self.classes()), name)
    }

    /// The class `name`.
    pub open spec fn find(&self, name: Seq<char>) -> Option<LoadedClass> {
        match self.index_of(name) {
            Some(i) => Some(self.classes()[i]),
            None => None,
        }
    }

    /// Whether `sub` is `sup` or one of its subtypes.
    pub open spec fn subtype(&self, sub: Seq<char>, sup: Seq<char>) -> bool {
        sub == sup || (self.find(sub) matches Some(c) && c.has_supertype(sup))
    }

    /// The named module of a class.
    pub open spec fn module_of(&self, name: Seq<char>) -> Option<Seq<char>> {
        match self.find(name) {
            Some(c) => c.module_view(),
            None => None,
        }
    }

    /// The method that an instance of `class` runs, if that class and method exist.
    pub open spec fn dispatch_of(&self, class: Seq<char>, name: Seq<char>, descriptor: Seq<char>) -> Option<
        (usize, usize),
    > {
        match self.find(class) {
            Some(c) => match c.selected(name, descriptor) {
                Some((k, m)) => if k < self.classes().len() && m < self.classes()[k as int].cf.methods@.len() {
                    Some((k, m))
                } else {
                    None
                },
                None => None,
            },
            None => None,
        }
    }

    /// An empty registry.
    pub fn new() -> (r: Self)
        ensures
            r.classes() == Seq::<LoadedClass>::empty(),
    {
        ClassRegistry { classes: Vec::new() }
    }

    /// Adds a class and returns its place. Of two classes with one name the first stays visible.
    pub fn load(&mut self, class: LoadedClass) -> (r: usize)
        ensures
            final(self).classes() == old(self).classes().push(class),
            r == old(self).classes().len(),
    {
        let n: usize = self.classes.len();
        self.classes.push(class);
        n
    }

    /// Number of classes.
    pub fn len(&self) -> (r: usize)
        ensures
            r == self.classes().len(),
    {
        self.classes.len()
    }

    /// The class at place `i`.
    pub fn class_at(&self, i: usize) -> (r: Option<&LoadedClass>)
        ensures
            match r {
                Some(c) => i < self.classes().len() && *c == self.classes()[i as int],
                None => i >= self.classes().len(),
            },
    {
        if i < self.classes.len() {
            Some(&self.classes[i])
        } else {
            None
        }
    }

    /// Place of the class `name`.
    pub fn position(&self, name: &str) -> (r: Option<usize>)
        ensures
            match r {
                Some(i) => i < self.classes().len() && self.index_of(name@) == Some(i as int),
                None => self.index_of(name@) is None,
            },
    {
        let ghost names = class_names(self.classes());
        let mut i: usize = 0;
        while i < self.classes.len()
            invariant
                i <= self.classes@.len(),
                names == class_names(self.classes@),
                forall|j: int| 0 <= j < i ==> #[trigger] names[j] != name@,
            decreases self.classes@.len() - i,
        {
            if str_eq(self.classes[i].name.as_str(), name) {
                proof {
                    first_index_is(names, name@, i as int);
                }
                return Some(i);
            }
            i = i + 1;
        }
        proof {
            first_index_none(names, name@);
        }
        None
    }

    /// The class `name`.
    pub fn get(&self, name: &str) -> (r: Option<&LoadedClass>)
        ensures
            match r {
                Some(c) => self.find(name@) == Some(*c),
                None => self.find(name@) is None,
            },
    {
        match self.position(name) {
            Some(i) => Some(&self.classes[i]),
            None => None,
        }
    }

    /// Whether `sub` is `sup` or one of its subtypes.
    pub fn is_instance(&self, sub: &str, sup: &str) -> (r: bool)
        ensures
            r == self.subtype(sub@, sup@),
    {
        if str_eq(sub, sup) {
            return true;
        }
        match self.get(sub) {
            Some(c) => c.is_subtype_of(sup),
            None => false,
        }
    }

    /// The named module of a class.
    pub fn class_module(&self, name: &str) -> (r: Option<String>)
        ensures
            match r {
                Some(m) => self.module_of(name@) == Some(m@),
                None => self.module_of(name@) is None,
            },
    {
        match self.get(name) {
            Some(c) => match &c.module {
                Some(m) => Some(m.clone()),
                None => None,
            },
            None => None,
        }
    }

    /// The method that an instance of `class` runs for this name and descriptor.
    pub fn resolve_dispatch(&self, class: &str, name: &str, descriptor: &str) -> (r: Option<(usize, usize)>)
        ensures
            r == self.dispatch_of(class@, name@, descriptor@),
    {
        match self.get(class) {
            Some(c) => match c.select(name, descriptor) {
                Some((k, m)) => if k < self.classes.len() && m < self.classes[k].cf.methods.len() {
                    Some((k, m))
                } else {
                    None
                },
                None => None,
            },
            None => None,
        }
    }
}

/// Every type is a subtype of itself, loaded or not.
pub proof fn law_subtype_is_reflexive(reg: ClassRegistry, name: Seq<char>)
    ensures
        reg.subtype(name, name),
{
}

} // verus!
