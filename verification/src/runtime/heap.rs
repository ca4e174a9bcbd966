//! The object heap. Handles are slot numbers: they grow and are never used twice.

use vstd::prelude::*;

use super::oop::{slot_or_top, with_slot, Object, Oop};
use super::slot::{Reference, Slot};

verus! {

broadcast use super::oop::oop_variant;

/// The object heap.
#[derive(Debug)]
pub struct Heap {
    objects: Vec<Oop>,
}

impl View for Heap {
    type V = Seq<Object>;

    closed spec fn view(&self) -> Seq<Object> {
        self.objects@.map_values(|o: Oop| o@)
    }
}

/// How many handles there are.
pub open spec fn handle_space() -> int {
    0x1_0000_0000
}

/// The heap and the reference after an allocation; `null` once the handles are used up.
pub open spec fn allocated(heap: Seq<Object>, o: Object) -> (Seq<Object>, Reference) {
    if heap.len() < handle_space() {
        (heap.push(o), Reference(Some(heap.len() as u32)))
    } else {
        (heap, Reference(None))
    }
}

/// The object behind a reference; `None` for `null` and for a handle that was never given out.
pub open spec fn lookup(heap: Seq<Object>, r: Reference) -> Option<Object> {
    match r.0 {
        Some(id) => if id < heap.len() {
            Some(heap[id as int])
        } else {
            None
        },
        None => None,
    }
}

/// The heap after a field write; unchanged where `r` is no instance or has no such field.
pub open spec fn field_written(heap: Seq<Object>, r: Reference, ord: int, slot: Slot) -> Seq<Object> {
    match lookup(heap, r) {
        Some(Object::Instance { class, fields }) => heap.update(
            r.0->0 as int,
            Object::Instance { class, fields: with_slot(fields, ord, slot) },
        ),
        _ => heap,
    }
}

/// The heap after an element write; unchanged where `r` is no array or has no such element.
pub open spec fn element_written(heap: Seq<Object>, r: Reference, index: int, slot: Slot) -> Seq<Object> {
    match lookup(heap, r) {
        Some(Object::Array { class, elements }) => heap.update(
            r.0->0 as int,
            Object::Array { class, elements: with_slot(elements, index, slot) },
        ),
        _ => heap,
    }
}

impl Heap {
    /// An empty heap.
    pub fn new() -> (r: Self)
        ensures
            r@ == Seq::<Object>::empty(),
    {
        let h = Heap { objects: Vec::new() };
        assert(h@ =~= Seq::<Object>::empty());
        h
    }

    /// Puts `o` on the heap.
    pub fn allocate(&mut self, o: Oop) -> (r: Reference)
        ensures
            (final(self)@, r) == allocated(old(self)@, o@),
    {
        let n: usize = self.objects.len();
        if n as u64 >= 0x1_0000_0000u64 {
            return Reference(None);
        }
        self.objects.push(o);
        assert(self@ =~= old(self)@.push(o@));
        Reference(Some(n as u32))
    }

    /// The object behind `r`.
    pub fn get(&self, r: Reference) -> (o: Option<&Oop>)
        ensures
            match o {
                Some(p) => lookup(self@, r) == Some(p@),
                None => lookup(self@, r) is None,
            },
    {
        match r.0 {
            Some(id) => {
                if id as u64 >= self.objects.len() as u64 {
                    return None;
                }
                let i: usize = id as usize;
                Some(&self.objects[i])
            },
            None => None,
        }
    }

    /// Writes field `ord` of the instance behind `r`.
    pub fn set_field(&mut self, r: Reference, ord: usize, slot: Slot)
        ensures
            final(self)@ == field_written(old(self)@, r, ord as int, slot),
    {
        match r.0 {
            Some(id) => {
                if id as u64 >= self.objects.len() as u64 {
                    return;
                }
                let i: usize = id as usize;
                match &mut self.objects[i] {
                    Oop::Instance(inst) => {
                        inst.set_field(ord, slot);
                    },
                    _ => {},
                }
                assert(self@ =~= field_written(old(self)@, r, ord as int, slot));
            },
            None => {},
        }
    }

    /// Writes element `index` of the array behind `r`.
    pub fn set_element(&mut self, r: Reference, index: usize, slot: Slot)
        ensures
            final(self)@ == element_written(old(self)@, r, index as int, slot),
    {
        match r.0 {
            Some(id) => {
                if id as u64 >= self.objects.len() as u64 {
                    return;
                }
                let i: usize = id as usize;
                match &mut self.objects[i] {
                    Oop::Array(a) => {
                        a.set_element(index, slot);
                    },
                    _ => {},
                }
                assert(self@ =~= element_written(old(self)@, r, index as int, slot));
            },
            None => {},
        }
    }
}

impl Default for Heap {
    fn default() -> (r: Self)
        ensures
            r@ == Seq::<Object>::empty(),
    {
        Heap::new()
    }
}

/// An allocation that gives a handle puts the object behind it and moves no other object.
pub proof fn law_alloc_lookup(heap: Seq<Object>, o: Object, other: Reference)
    requires
        heap.len() < handle_space(),
    ensures
        lookup(allocated(heap, o).0, allocated(heap, o).1) == Some(o),
        lookup(heap, other) is Some ==> lookup(allocated(heap, o).0, other) == lookup(heap, other),
        lookup(heap, other) is Some ==> other != allocated(heap, o).1,
{
}

/// A field that was written reads back; other fields and other objects stay.
pub proof fn law_field_write_read(heap: Seq<Object>, r: Reference, ord: int, slot: Slot, other: Reference)
    requires
        lookup(heap, r) is Some,
        lookup(heap, r)->0 is Instance,
        0 <= ord < lookup(heap, r)->0->fields.len(),
    ensures
        ({
            let after = lookup(field_written(heap, r, ord, slot), r);
            &&& after is Some && after->0 is Instance
            &&& slot_or_top(after->0->fields, ord) == slot
            &&& forall|j: int|
                j != ord ==> #[trigger] slot_or_top(after->0->fields, j) == slot_or_top(
                    lookup(heap, r)->0->fields,
                    j,
                )
        }),
        other != r ==> lookup(field_written(heap, r, ord, slot), other) == lookup(heap, other),
{
}

} // verus!
