//! Heap objects.

use vstd::prelude::*;

use super::slot::Slot;

verus! {

/// What a heap object is: the model of [`Oop`].
#[verifier::ext_equal]
pub enum Object {
    Instance { class: Seq<char>, fields: Seq<Slot> },
    Array { class: Seq<char>, elements: Seq<Slot> },
    Lambda { sam_type: Seq<char> },
}

/// The slot at `i`; past the end there is only [`Slot::Top`].
pub open spec fn slot_or_top(s: Seq<Slot>, i: int) -> Slot {
    if 0 <= i < s.len() {
        s[i]
    } else {
        Slot::Top
    }
}

/// `s` with `slot` at `i`; unchanged where there is no such place.
pub open spec fn with_slot(s: Seq<Slot>, i: int, slot: Slot) -> Seq<Slot> {
    if 0 <= i < s.len() {
        s.update(i, slot)
    } else {
        s
    }
}

fn read_at(v: &Vec<Slot>, i: usize) -> (r: Slot)
    ensures
        r == slot_or_top(v@, i as int),
{
    if i < v.len() {
        v[i]
    } else {
        Slot::Top
    }
}

fn write_at(v: &mut Vec<Slot>, i: usize, slot: Slot)
    ensures
        final(v)@ == with_slot(old(v)@, i as int, slot),
{
    if i < v.len() {
        v.set(i, slot);
    }
}

/// An instance of a class: its fields in the order of the class layout.
#[derive(Debug)]
pub struct InstanceOop {
    class_name: String,
    fields: Vec<Slot>,
}

impl View for InstanceOop {
    type V = Object;

    closed spec fn view(&self) -> Object {
        Object::Instance { class: self.class_name@, fields: self.fields@ }
    }
}

impl InstanceOop {
    /// An instance of `class_name` with the given field values.
    pub fn new(class_name: String, fields: Vec<Slot>) -> (r: Self)
        ensures
            r@ == (Object::Instance { class: class_name@, fields: fields@ }),
    {
        InstanceOop { class_name, fields }
    }

    /// Internal name of the class.
    pub fn class_name(&self) -> (r: &str)
        ensures
            self@ is Instance,
            r@ == self@->Instance_class,
    {
        self.class_name.as_str()
    }

    /// The field at layout position `ord`; [`Slot::Top`] past the end.
    pub fn field(&self, ord: usize) -> (r: Slot)
        ensures
            self@ is Instance,
            r == slot_or_top(self@->fields, ord as int),
    {
        read_at(&self.fields, ord)
    }

    /// Number of fields.
    pub fn field_count(&self) -> (r: usize)
        ensures
            self@ is Instance,
            r == self@->fields.len(),
    {
        self.fields.len()
    }

    /// Writes the field at layout position `ord`; nothing happens past the end.
    pub fn set_field(&mut self, ord: usize, slot: Slot)
        ensures
            old(self)@ is Instance,
            final(self)@ == (Object::Instance {
                class: old(self)@->Instance_class,
                fields: with_slot(old(self)@->fields, ord as int, slot),
            }),
    {
        write_at(&mut self.fields, ord, slot);
    }
}

/// An array; `class_name` is its descriptor (`[I`, `[Ljava/lang/String;`).
#[derive(Debug)]
pub struct ArrayOop {
    class_name: String,
    elements: Vec<Slot>,
}

impl View for ArrayOop {
    type V = Object;

    closed spec fn view(&self) -> Object {
        Object::Array { class: self.class_name@, elements: self.elements@ }
    }
}

impl ArrayOop {
    /// An array of descriptor `class_name`.
    pub fn new(class_name: String, elements: Vec<Slot>) -> (r: Self)
        ensures
            r@ == (Object::Array { class: class_name@, elements: elements@ }),
    {
        ArrayOop { class_name, elements }
    }

    /// Descriptor of the array.
    pub fn class_name(&self) -> (r: &str)
        ensures
            self@ is Array,
            r@ == self@->Array_class,
    {
        self.class_name.as_str()
    }

    /// Number of elements.
    pub fn length(&self) -> (r: usize)
        ensures
            self@ is Array,
            r == self@->elements.len(),
    {
        self.elements.len()
    }

    /// The element at `index`; [`Slot::Top`] past the end.
    pub fn element(&self, index: usize) -> (r: Slot)
        ensures
            self@ is Array,
            r == slot_or_top(self@->elements, index as int),
    {
        read_at(&self.elements, index)
    }

    /// Writes the element at `index`; nothing happens past the end.
    pub fn set_element(&mut self, index: usize, slot: Slot)
        ensures
            old(self)@ is Array,
            final(self)@ == (Object::Array {
                class: old(self)@->Array_class,
                elements: with_slot(old(self)@->elements, index as int, slot),
            }),
    {
        write_at(&mut self.elements, index, slot);
    }
}

/// A closure object, known by its functional interface.
#[derive(Debug)]
pub struct LambdaOop {
    sam_type: String,
}

impl View for LambdaOop {
    type V = Object;

    closed spec fn view(&self) -> Object {
        Object::Lambda { sam_type: self.sam_type@ }
    }
}

impl LambdaOop {
    /// A closure that implements `sam_type`.
    pub fn new(sam_type: String) -> (r: Self)
        ensures
            r@ == (Object::Lambda { sam_type: sam_type@ }),
    {
        LambdaOop { sam_type }
    }

    /// Internal name of the functional interface.
    pub fn sam_type(&self) -> (r: &str)
        ensures
            self@ is Lambda,
            r@ == self@->sam_type,
    {
        self.sam_type.as_str()
    }
}

/// A heap object.
#[derive(Debug)]
pub enum Oop {
    Instance(InstanceOop),
    Array(ArrayOop),
    Lambda(LambdaOop),
}

impl View for Oop {
    type V = Object;

    open spec fn view(&self) -> Object {
        match self {
            Oop::Instance(i) => i@,
            Oop::Array(a) => a@,
            Oop::Lambda(l) => l@,
        }
    }
}

/// The variant of a heap object is that of its model.
pub broadcast proof fn oop_variant(o: Oop)
    ensures
        (#[trigger] o@) is Instance <==> o is Instance,
        o@ is Array <==> o is Array,
        o@ is Lambda <==> o is Lambda,
{
}

} // verus!
