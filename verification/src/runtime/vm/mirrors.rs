//! Class and module mirrors, and access to instance fields by name.

use vstd::prelude::*;

use super::class_mirrors::{bound, name_of, one_to_one};
use super::{Shared, State, VmThread};

use crate::runtime::oop::{slot_or_top, Object, Oop};
use crate::runtime::slot::{Reference, Slot};
use crate::runtime::string::{ensure_text_ready, held_up, intern, interned, text_pending};
use crate::runtime::text::{begins_with, slice, starts_with_char, str_eq};
use crate::runtime::value::VmError;

verus! {

broadcast use crate::runtime::oop::oop_variant;

/// Whether a name is the keyword of a primitive type or `void`.
pub open spec fn primitive_keyword(s: Seq<char>) -> bool {
    s == "boolean"@ || s == "byte"@ || s == "char"@ || s == "short"@ || s == "int"@ || s == "long"@ || s
        == "float"@ || s == "double"@ || s == "void"@
}

/// Whether a name is the keyword of a primitive type or `void`.
pub fn is_primitive_keyword(s: &str) -> (r: bool)
    ensures
        r == primitive_keyword(s@),
{
    str_eq(s, "boolean") || str_eq(s, "byte") || str_eq(s, "char") || str_eq(s, "short") || str_eq(s, "int")
        || str_eq(s, "long") || str_eq(s, "float") || str_eq(s, "double") || str_eq(s, "void")
}

/// Internal name of the component type of an array: a keyword for primitive types, the internal name of
/// a class, the descriptor of an array. `None` for anything but an array name.
pub open spec fn component_name(name: Seq<char>) -> Option<Seq<char>> {
    if name.len() < 2 || name[0] != '[' {
        None
    } else if name[1] == 'B' {
        Some("byte"@)
    } else if name[1] == 'C' {
        Some("char"@)
    } else if name[1] == 'D' {
        Some("double"@)
    } else if name[1] == 'F' {
        Some("float"@)
    } else if name[1] == 'I' {
        Some("int"@)
    } else if name[1] == 'J' {
        Some("long"@)
    } else if name[1] == 'S' {
        Some("short"@)
    } else if name[1] == 'Z' {
        Some("boolean"@)
    } else if name[1] == 'L' {
        if name.len() >= 3 && name.last() == ';' {
            Some(name.subrange(2, name.len() - 1))
        } else {
            None
        }
    } else if name[1] == '[' {
        Some(name.skip(1))
    } else {
        None
    }
}

/// Internal name of the component type of an array; see [`component_name`].
pub fn component_internal_of(name: &str) -> (r: Option<String>)
    ensures
        match r {
            Some(c) => component_name(name@) == Some(c@),
            None => component_name(name@) is None,
        },
{
    let n: usize = name.unicode_len();
    if n < 2 || name.get_char(0) != '[' {
        return None;
    }
    let c: char = name.get_char(1);
    if c == 'B' {
        Some("byte".to_owned())
    } else if c == 'C' {
        Some("char".to_owned())
    } else if c == 'D' {
        Some("double".to_owned())
    } else if c == 'F' {
        Some("float".to_owned())
    } else if c == 'I' {
        Some("int".to_owned())
    } else if c == 'J' {
        Some("long".to_owned())
    } else if c == 'S' {
        Some("short".to_owned())
    } else if c == 'Z' {
        Some("boolean".to_owned())
    } else if c == 'L' {
        if n >= 3 && name.get_char(n - 1) == ';' {
            Some(slice(name, 2, n - 1))
        } else {
            None
        }
    } else if c == '[' {
        assert(name@.subrange(1, n as int) =~= name@.skip(1));
        Some(slice(name, 1, n))
    } else {
        None
    }
}

/// Length of an array name, 0 for any other: shrinks from an array to its component.
pub open spec fn array_len(name: Seq<char>) -> nat {
    if begins_with(name, '[') {
        name.len()
    } else {
        0
    }
}

/// A component name is smaller than the array name.
pub proof fn component_shrinks(name: Seq<char>)
    requires
        component_name(name) is Some,
    ensures
        array_len(component_name(name)->0) < array_len(name),
{
    reveal_strlit("byte");
    reveal_strlit("char");
    reveal_strlit("double");
    reveal_strlit("float");
    reveal_strlit("int");
    reveal_strlit("long");
    reveal_strlit("short");
    reveal_strlit("boolean");
    assert("byte"@[0] == 'b');
    assert("char"@[0] == 'c');
    assert("double"@[0] == 'd');
    assert("float"@[0] == 'f');
    assert("int"@[0] == 'i');
    assert("long"@[0] == 'l');
    assert("short"@[0] == 's');
    assert("boolean"@[0] == 'b');
}

/// State after field `field` of `obj`, by its position in `class`, was written; unchanged if the class is
/// not loaded or has no such field.
pub open spec fn named_field_written(
    s: State,
    obj: Reference,
    class: Seq<char>,
    field: Seq<char>,
    slot: Slot,
) -> State {
    match s.field_ord(class, field) {
        Some(ord) => s.write_field(obj, ord, slot),
        None => s,
    }
}

/// The slot of field `field` of `obj`, by its position in `class`.
pub open spec fn named_field(s: State, obj: Reference, class: Seq<char>, field: Seq<char>) -> Option<Slot> {
    match s.field_ord(class, field) {
        Some(ord) => match s.object(obj) {
            Some(Object::Instance { fields, .. }) => Some(slot_or_top(fields, ord)),
            _ => None,
        },
        None => None,
    }
}

/// The reference in field `field` of `obj`.
pub open spec fn reference_field(s: State, obj: Reference, class: Seq<char>, field: Seq<char>) -> Option<Reference> {
    match named_field(s, obj, class, field) {
        Some(Slot::Reference(r)) => Some(r),
        _ => None,
    }
}

/// The `int` in field `field` of `obj`.
pub open spec fn int_field(s: State, obj: Reference, class: Seq<char>, field: Seq<char>) -> Option<i32> {
    match named_field(s, obj, class, field) {
        Some(Slot::Int(v)) => Some(v),
        _ => None,
    }
}

/// The mirror of a named module: the state after it and the reference.
pub open spec fn module_mirror(s: State, name: Seq<char>) -> (State, Reference) {
    if s.vm.module_mirrors.contains_key(name) {
        (s, s.vm.module_mirrors[name])
    } else {
        let (s1, r) = s.alloc_fresh("java/lang/Module"@);
        if r.0 is None {
            (s1, r)
        } else {
            let s2 = State {
                vm: Shared { module_mirrors: s1.vm.module_mirrors.insert(name, r), ..s1.vm },
                ..s1
            };
            match interned(s2, name) {
                (s3, Ok(text)) => (
                    named_field_written(s3, r, "java/lang/Module"@, "name"@, Slot::Reference(text)),
                    r,
                ),
                (s3, Err(_)) => (s3, r),
            }
        }
    }
}

/// Whether the static initializer of the string class has to run before the mirror of a named module can be made,
/// and if so the place of the class.
pub open spec fn module_pending(s: State, name: Seq<char>) -> Option<int> {
    if s.vm.module_mirrors.contains_key(name) || s.class("java/lang/Module"@) is None {
        None
    } else {
        text_pending(s, name)
    }
}

/// The mirror of a named module, unless an initializer has to run first.
pub open spec fn module_asked(s: State, name: Seq<char>) -> (State, Result<Reference, VmError>) {
    match module_pending(s, name) {
        Some(i) => held_up(s, i),
        None => (module_mirror(s, name).0, Ok(module_mirror(s, name).1)),
    }
}

/// The mirror of the unnamed module: the state after it and the reference.
pub open spec fn unnamed_module_mirror(s: State) -> (State, Reference) {
    match s.vm.unnamed_module {
        Some(r) => (s, r),
        None => {
            let (s1, r) = s.alloc_fresh("java/lang/Module"@);
            if r.0 is None {
                (s1, r)
            } else {
                (State { vm: Shared { unnamed_module: Some(r), ..s1.vm }, ..s1 }, r)
            }
        },
    }
}

/// The named module of a class; an array belongs to the module of its component.
pub open spec fn module_name_for(s: State, internal: Seq<char>) -> Option<Seq<char>>
    decreases array_len(internal),
{
    let own = match s.vm.registry {
        Some(reg) => reg.module_of(internal),
        None => None,
    };
    if own is Some {
        own
    } else {
        match component_name(internal) {
            Some(c) => {
                proof {
                    component_shrinks(internal);
                }
                module_name_for(s, c)
            },
            None => None,
        }
    }
}

/// The mirror of the module of a class: the state after it and the reference.
pub open spec fn module_for(s: State, internal: Seq<char>) -> (State, Reference) {
    match module_name_for(s, internal) {
        Some(m) => module_mirror(s, m),
        None => unnamed_module_mirror(s),
    }
}

/// The modifiers of a class mirror: the access flags of a loaded class; public, final and abstract for
/// arrays and primitive types.
pub open spec fn mirror_modifiers(s: State, internal: Seq<char>) -> i32 {
    if begins_with(internal, '[') || primitive_keyword(internal) {
        0x0411
    } else {
        match s.class(internal) {
            Some(c) => c.cf.access_flags as i32,
            None => 0,
        }
    }
}

/// State after a field of a class mirror was written.
pub open spec fn mirror_field_written(s: State, mirror: Reference, field: Seq<char>, slot: Slot) -> State {
    named_field_written(s, mirror, "java/lang/Class"@, field, slot)
}

/// The fields of a mirror that do not depend on other mirrors.
pub open spec fn mirror_finished(s: State, mirror: Reference, internal: Seq<char>) -> State {
    let s1 = if primitive_keyword(internal) {
        mirror_field_written(s, mirror, "primitive"@, Slot::Int(1))
    } else {
        s
    };
    let (s2, module) = module_for(s1, internal);
    let s3 = mirror_field_written(s2, mirror, "module"@, Slot::Reference(module));
    mirror_field_written(s3, mirror, "modifiers"@, Slot::Int(mirror_modifiers(s3, internal)))
}

/// State after `name` was bound to the mirror `r`.
pub open spec fn mirror_bound(s: State, name: Seq<char>, r: Reference) -> State {
    State { vm: Shared { class_mirrors: bound(s.vm.class_mirrors, name, r), ..s.vm }, ..s }
}

/// The mirror of a class: the state after it and the reference. A class has one mirror; the first request
/// allocates it, binds it and fills in its fields, the mirror of an array component first.
pub open spec fn class_mirror(s: State, name: Seq<char>) -> (State, Reference)
    decreases array_len(name),
{
    if s.vm.class_mirrors.contains_key(name) {
        (s, s.vm.class_mirrors[name])
    } else {
        let (s1, r) = s.alloc_fresh("java/lang/Class"@);
        let s2 = mirror_bound(s1, name, r);
        let s3 = match component_name(name) {
            Some(c) => {
                proof {
                    component_shrinks(name);
                }
                let (t, m) = class_mirror(s2, c);
                mirror_field_written(t, r, "componentType"@, Slot::Reference(m))
            },
            None => s2,
        };
        (mirror_finished(s3, r, name), r)
    }
}

/// Whether the static initializer of the string class has to run before the mirror of a class can be made, for the
/// name of its module or of that of a component, and if so the place of the class.
pub open spec fn mirror_pending(s: State, name: Seq<char>) -> Option<int>
    decreases array_len(name),
{
    if s.vm.class_mirrors.contains_key(name) {
        None
    } else {
        let own = match module_name_for(s, name) {
            Some(m) => module_pending(s, m),
            None => None,
        };
        if own is Some {
            own
        } else {
            match component_name(name) {
                Some(c) => {
                    proof {
                        component_shrinks(name);
                    }
                    mirror_pending(s, c)
                },
                None => None,
            }
        }
    }
}

/// The mirror of a class, unless an initializer has to run first.
pub open spec fn mirror_asked(s: State, name: Seq<char>) -> (State, Result<Reference, VmError>) {
    match mirror_pending(s, name) {
        Some(i) => held_up(s, i),
        None => (class_mirror(s, name).0, Ok(class_mirror(s, name).1)),
    }
}

impl VmThread {
    /// The mirror of a class: the same reference whenever the name is the same. An error, and no change, while the
    /// string class of the name of its module has to be initialized first.
    pub fn intern_class_mirror(&mut self, name: &str) -> (r: Result<Reference, VmError>)
        ensures
            (final(self)@, r) == mirror_asked(old(self)@, name@),
    {
        match self.ensure_mirror_ready(name) {
            Ok(_) => Ok(self.make_class_mirror(name)),
            Err(e) => Err(e),
        }
    }

    fn ensure_module_ready(&self, name: &str) -> (r: Result<(), VmError>)
        ensures
            match module_pending(self@, name@) {
                Some(i) => r == Err::<(), VmError>(VmError::InitializerPending(i as usize)),
                None => r == Ok::<(), VmError>(()),
            },
    {
        match self.runtime.module_mirrors.get(&name.to_owned()) {
            Some(_) => {
                return Ok(());
            },
            None => {},
        }
        if self.class("java/lang/Module").is_none() {
            return Ok(());
        }
        ensure_text_ready(self, name)
    }

    fn ensure_mirror_ready(&self, name: &str) -> (r: Result<(), VmError>)
        ensures
            match mirror_pending(self@, name@) {
                Some(i) => r == Err::<(), VmError>(VmError::InitializerPending(i as usize)),
                None => r == Ok::<(), VmError>(()),
            },
        decreases array_len(name@),
    {
        match self.runtime.class_mirrors.get(name) {
            Some(_) => {
                return Ok(());
            },
            None => {},
        }
        match self.module_name_of(name) {
            Some(m) => match self.ensure_module_ready(m.as_str()) {
                Ok(_) => {},
                Err(e) => {
                    return Err(e);
                },
            },
            None => {},
        }
        match component_internal_of(name) {
            Some(c) => {
                proof {
                    component_shrinks(name@);
                }
                self.ensure_mirror_ready(c.as_str())
            },
            None => Ok(()),
        }
    }

    /// The mirror of a class where no initializer has to run first.
    pub(crate) fn make_class_mirror(&mut self, name: &str) -> (r: Reference)
        ensures
            (final(self)@, r) == class_mirror(old(self)@, name@),
        decreases array_len(name@),
    {
        match self.runtime.class_mirrors.get(name) {
            Some(r) => {
                return r;
            },
            None => {},
        }
        let r: Reference = self.alloc_class_mirror_instance();
        self.runtime.class_mirrors.insert(name.to_owned(), r);
        match component_internal_of(name) {
            Some(c) => {
                proof {
                    component_shrinks(name@);
                }
                let m: Reference = self.make_class_mirror(c.as_str());
                self.set_class_instance_field(r, "componentType", Slot::Reference(m));
            },
            None => {},
        }
        self.populate_class_mirror_fields(r, name);
        r
    }

    /// The internal name that a class mirror stands for; `None` if `r` is no class mirror.
    pub fn mirror_internal_name(&self, r: Reference) -> (name: Option<String>)
        ensures
            match name {
                Some(n) => name_of(self@.vm.class_mirrors, r) == Some(n@),
                None => name_of(self@.vm.class_mirrors, r) is None,
            },
            one_to_one(self@.vm.class_mirrors),
    {
        self.runtime.class_mirrors.name_of(r)
    }

    fn alloc_class_mirror_instance(&mut self) -> (r: Reference)
        ensures
            (final(self)@, r) == old(self)@.alloc_fresh("java/lang/Class"@),
    {
        self.alloc_fresh("java/lang/Class")
    }

    /// Fills in the fields of a new mirror that do not depend on other class mirrors.
    fn populate_class_mirror_fields(&mut self, mirror: Reference, internal: &str)
        ensures
            final(self)@ == mirror_finished(old(self)@, mirror, internal@),
    {
        if is_primitive_keyword(internal) {
            self.set_class_instance_field(mirror, "primitive", Slot::Int(1));
        }
        let module: Reference = self.module_for_class(internal);
        self.set_class_instance_field(mirror, "module", Slot::Reference(module));
        let modifiers: i32 = if starts_with_char(internal, '[') || is_primitive_keyword(internal) {
            0x0411
        } else {
            match self.class(internal) {
                Some(c) => c.cf.access_flags as i32,
                None => 0,
            }
        };
        self.set_class_instance_field(mirror, "modifiers", Slot::Int(modifiers));
    }

    /// Writes a field of a class mirror by name.
    pub fn set_class_instance_field(&mut self, mirror: Reference, field_name: &str, slot: Slot)
        ensures
            final(self)@ == mirror_field_written(old(self)@, mirror, field_name@, slot),
    {
        self.set_instance_field_by_name(mirror, "java/lang/Class", field_name, slot);
    }

    /// Writes field `field_name` of `obj`, by its position in `declaring_class`. Nothing happens if the
    /// class is not loaded or has no such field.
    pub fn set_instance_field_by_name(
        &mut self,
        obj: Reference,
        declaring_class: &str,
        field_name: &str,
        slot: Slot,
    )
        ensures
            final(self)@ == named_field_written(old(self)@, obj, declaring_class@, field_name@, slot),
    {
        match self.field_ord(declaring_class, field_name) {
            Some(ord) => self.write_field(obj, ord, slot),
            None => {},
        }
    }

    fn instance_field(&self, obj: Reference, declaring_class: &str, field_name: &str) -> (r: Option<Slot>)
        ensures
            r == named_field(self@, obj, declaring_class@, field_name@),
    {
        match self.field_ord(declaring_class, field_name) {
            Some(ord) => match self.heap().get(obj) {
                Some(Oop::Instance(i)) => Some(i.field(ord)),
                _ => None,
            },
            None => None,
        }
    }

    /// The reference in field `field_name` of `obj`, by its position in `declaring_class`.
    pub fn instance_reference_field(
        &self,
        obj: Reference,
        declaring_class: &str,
        field_name: &str,
    ) -> (r: Option<Reference>)
        ensures
            r == reference_field(self@, obj, declaring_class@, field_name@),
    {
        match self.instance_field(obj, declaring_class, field_name) {
            Some(Slot::Reference(r)) => Some(r),
            _ => None,
        }
    }

    /// The `int` in field `field_name` of `obj`, by its position in `declaring_class`.
    pub fn instance_int_field(&self, obj: Reference, declaring_class: &str, field_name: &str) -> (r: Option<i32>)
        ensures
            r == int_field(self@, obj, declaring_class@, field_name@),
    {
        match self.instance_field(obj, declaring_class, field_name) {
            Some(Slot::Int(v)) => Some(v),
            _ => None,
        }
    }

    fn intern_named_module(&mut self, name: &str) -> (r: Reference)
        ensures
            (final(self)@, r) == module_mirror(old(self)@, name@),
    {
        match self.runtime.module_mirrors.get(&name.to_owned()) {
            Some(r) => {
                return *r;
            },
            None => {},
        }
        let r: Reference = self.alloc_fresh("java/lang/Module");
        if r.is_null() {
            return r;
        }
        self.runtime.module_mirrors.insert(name.to_owned(), r);
        match intern(self, name) {
            Ok(text) => self.set_instance_field_by_name(r, "java/lang/Module", "name", Slot::Reference(text)),
            Err(_) => {},
        }
        r
    }

    fn unnamed_module(&mut self) -> (r: Reference)
        ensures
            (final(self)@, r) == unnamed_module_mirror(old(self)@),
    {
        match self.runtime.unnamed_module {
            Some(r) => {
                return r;
            },
            None => {},
        }
        let r: Reference = self.alloc_fresh("java/lang/Module");
        if !r.is_null() {
            self.runtime.unnamed_module = Some(r);
        }
        r
    }

    /// The mirror of a named module: the same reference whenever the name is the same. An error, and no change,
    /// while the string class of its name has to be initialized first.
    pub fn named_module_mirror(&mut self, name: &str) -> (r: Result<Reference, VmError>)
        ensures
            (final(self)@, r) == module_asked(old(self)@, name@),
    {
        match self.ensure_module_ready(name) {
            Ok(_) => Ok(self.intern_named_module(name)),
            Err(e) => Err(e),
        }
    }

    fn module_name_of(&self, internal: &str) -> (r: Option<String>)
        ensures
            match r {
                Some(m) => module_name_for(self@, internal@) == Some(m@),
                None => module_name_for(self@, internal@) is None,
            },
        decreases array_len(internal@),
    {
        let own: Option<String> = match self.registry() {
            Some(reg) => reg.class_module(internal),
            None => None,
        };
        if own.is_some() {
            return own;
        }
        match component_internal_of(internal) {
            Some(c) => {
                proof {
                    component_shrinks(internal@);
                }
                self.module_name_of(c.as_str())
            },
            None => None,
        }
    }

    /// The mirror of the module of a class.
    fn module_for_class(&mut self, internal: &str) -> (r: Reference)
        ensures
            (final(self)@, r) == module_for(old(self)@, internal@),
    {
        match self.module_name_of(internal) {
            Some(m) => self.intern_named_module(m.as_str()),
            None => self.unnamed_module(),
        }
    }
}

} // verus!
