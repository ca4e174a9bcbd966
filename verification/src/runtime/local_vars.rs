//! Local variable table (JVMS §2.6.1). `long` and `double` take two consecutive indices.

use vstd::prelude::*;

use super::frame::FrameError;
use super::slot::{Reference, Slot};

verus! {

/// Fixed-size local variable table, indexed by slot.
#[derive(Debug, Clone)]
pub struct LocalVars {
    slots: Vec<Slot>,
}

impl View for LocalVars {
    type V = Seq<Slot>;

    closed spec fn view(&self) -> Seq<Slot> {
        self.slots@
    }
}

/// The slot at `index`, or the error for an index outside the table.
pub open spec fn slot_at(locals: Seq<Slot>, index: u16) -> Result<Slot, FrameError> {
    if index < locals.len() {
        Ok(locals[index as int])
    } else {
        Err(FrameError::BadLocalIndex(index))
    }
}

/// Storing a one-slot value: the new table and the outcome.
pub open spec fn stored(locals: Seq<Slot>, index: u16, value: Slot) -> (Seq<Slot>, Result<(), FrameError>) {
    if index < locals.len() {
        (locals.update(index as int, value), Ok(()))
    } else {
        (locals, Err(FrameError::BadLocalIndex(index)))
    }
}

/// Storing a two-slot value: the value goes to `index`, the placeholder to `index + 1`.
pub open spec fn stored_wide(locals: Seq<Slot>, index: u16, value: Slot) -> (Seq<Slot>, Result<(), FrameError>) {
    if index == u16::MAX {
        (locals, Err(FrameError::BadLocalIndex(u16::MAX)))
    } else if index + 1 < locals.len() {
        (locals.update(index + 1, Slot::Top).update(index as int, value), Ok(()))
    } else {
        (locals, Err(FrameError::BadLocalIndex((index + 1) as u16)))
    }
}

impl LocalVars {
    /// A table of `max_locals` slots, all [`Slot::Top`].
    pub fn new(max_locals: u16) -> (r: Self)
        ensures
            r@ == Seq::new(max_locals as nat, |i: int| Slot::Top),
    {
        let slots: Vec<Slot> = vec![Slot::Top; max_locals as usize];
        assert(slots@ =~= Seq::new(max_locals as nat, |i: int| Slot::Top));
        LocalVars { slots }
    }

    /// Number of slots.
    pub fn len(&self) -> (r: usize)
        ensures
            r == self@.len(),
    {
        self.slots.len()
    }

    /// Whether the table has no slots.
    pub fn is_empty(&self) -> (r: bool)
        ensures
            r == (self@.len() == 0),
    {
        self.slots.len() == 0
    }

    /// The `int` at `index`.
    pub fn get_int(&self, index: u16) -> (r: Result<i32, FrameError>)
        ensures
            match slot_at(self@, index) {
                Ok(Slot::Int(v)) => r == Ok::<i32, FrameError>(v),
                Ok(_) => r == Err::<i32, FrameError>(FrameError::TypeMismatch),
                Err(e) => r == Err::<i32, FrameError>(e),
            },
    {
        match self.slot(index)? {
            Slot::Int(v) => Ok(*v),
            _ => Err(FrameError::TypeMismatch),
        }
    }

    /// Writes an `int` at `index`.
    pub fn set_int(&mut self, index: u16, v: i32) -> (r: Result<(), FrameError>)
        ensures
            (final(self)@, r) == stored(old(self)@, index, Slot::Int(v)),
    {
        self.set1(index, Slot::Int(v))
    }

    /// Bit pattern of the `float` at `index`.
    pub fn get_float(&self, index: u16) -> (r: Result<u32, FrameError>)
        ensures
            match slot_at(self@, index) {
                Ok(Slot::Float(v)) => r == Ok::<u32, FrameError>(v),
                Ok(_) => r == Err::<u32, FrameError>(FrameError::TypeMismatch),
                Err(e) => r == Err::<u32, FrameError>(e),
            },
    {
        match self.slot(index)? {
            Slot::Float(v) => Ok(*v),
            _ => Err(FrameError::TypeMismatch),
        }
    }

    /// Stores the `float` with bit pattern `v`.
    pub fn set_float(&mut self, index: u16, v: u32) -> (r: Result<(), FrameError>)
        ensures
            (final(self)@, r) == stored(old(self)@, index, Slot::Float(v)),
    {
        self.set1(index, Slot::Float(v))
    }

    /// The reference at `index`.
    pub fn get_reference(&self, index: u16) -> (r: Result<Reference, FrameError>)
        ensures
            match slot_at(self@, index) {
                Ok(Slot::Reference(v)) => r == Ok::<Reference, FrameError>(v),
                Ok(_) => r == Err::<Reference, FrameError>(FrameError::TypeMismatch),
                Err(e) => r == Err::<Reference, FrameError>(e),
            },
    {
        match self.slot(index)? {
            Slot::Reference(v) => Ok(*v),
            _ => Err(FrameError::TypeMismatch),
        }
    }

    /// Writes a reference at `index`.
    pub fn set_reference(&mut self, index: u16, v: Reference) -> (r: Result<(), FrameError>)
        ensures
            (final(self)@, r) == stored(old(self)@, index, Slot::Reference(v)),
    {
        self.set1(index, Slot::Reference(v))
    }

    /// The `long` at `index` and the one after it.
    pub fn get_long(&self, index: u16) -> (r: Result<i64, FrameError>)
        ensures
            match slot_at(self@, index) {
                Ok(Slot::Long(v)) => r == Ok::<i64, FrameError>(v),
                Ok(_) => r == Err::<i64, FrameError>(FrameError::TypeMismatch),
                Err(e) => r == Err::<i64, FrameError>(e),
            },
    {
        match self.slot(index)? {
            Slot::Long(v) => Ok(*v),
            _ => Err(FrameError::TypeMismatch),
        }
    }

    /// Stores a `long` at `index` and its placeholder at `index + 1`.
    pub fn set_long(&mut self, index: u16, v: i64) -> (r: Result<(), FrameError>)
        ensures
            (final(self)@, r) == stored_wide(old(self)@, index, Slot::Long(v)),
    {
        self.set2(index, Slot::Long(v))
    }

    /// Bit pattern of the `double` at `index`.
    pub fn get_double(&self, index: u16) -> (r: Result<u64, FrameError>)
        ensures
            match slot_at(self@, index) {
                Ok(Slot::Double(v)) => r == Ok::<u64, FrameError>(v),
                Ok(_) => r == Err::<u64, FrameError>(FrameError::TypeMismatch),
                Err(e) => r == Err::<u64, FrameError>(e),
            },
    {
        match self.slot(index)? {
            Slot::Double(v) => Ok(*v),
            _ => Err(FrameError::TypeMismatch),
        }
    }

    /// Stores the `double` with bit pattern `v` at `index` and its placeholder at `index + 1`.
    pub fn set_double(&mut self, index: u16, v: u64) -> (r: Result<(), FrameError>)
        ensures
            (final(self)@, r) == stored_wide(old(self)@, index, Slot::Double(v)),
    {
        self.set2(index, Slot::Double(v))
    }

    /// The slot at `index`.
    pub fn slot(&self, index: u16) -> (r: Result<&Slot, FrameError>)
        ensures
            match r {
                Ok(s) => slot_at(self@, index) == Ok::<Slot, FrameError>(*s),
                Err(e) => slot_at(self@, index) == Err::<Slot, FrameError>(e),
            },
    {
        let i: usize = index as usize;
        if i < self.slots.len() {
            Ok(&self.slots[i])
        } else {
            Err(FrameError::BadLocalIndex(index))
        }
    }

    fn set2(&mut self, index: u16, value: Slot) -> (r: Result<(), FrameError>)
        ensures
            (final(self)@, r) == stored_wide(old(self)@, index, value),
    {
        if index == u16::MAX {
            return Err(FrameError::BadLocalIndex(u16::MAX));
        }
        let next: u16 = index + 1;
        match self.set1(next, Slot::Top) {
            Ok(_) => self.set1(index, value),
            Err(e) => Err(e),
        }
    }

    fn set1(&mut self, index: u16, slot: Slot) -> (r: Result<(), FrameError>)
        ensures
            (final(self)@, r) == stored(old(self)@, index, slot),
    {
        let i: usize = index as usize;
        if i >= self.slots.len() {
            return Err(FrameError::BadLocalIndex(index));
        }
        self.slots[i] = slot;
        Ok(())
    }
}

/// Storing a one-slot value makes it readable at its index and changes no other local.
pub proof fn law_store_load(locals: Seq<Slot>, index: u16, value: Slot)
    requires
        index < locals.len(),
    ensures
        stored(locals, index, value).1 is Ok,
        slot_at(stored(locals, index, value).0, index) == Ok::<Slot, FrameError>(value),
        forall|j: u16|
            j != index ==> #[trigger] slot_at(stored(locals, index, value).0, j) == slot_at(locals, j),
{
}

/// Storing a two-slot value makes it readable at its index, leaves a placeholder behind it and
/// changes no other local.
pub proof fn law_store_load_wide(locals: Seq<Slot>, index: u16, value: Slot)
    requires
        index + 1 < locals.len(),
        index < u16::MAX,
    ensures
        stored_wide(locals, index, value).1 is Ok,
        slot_at(stored_wide(locals, index, value).0, index) == Ok::<Slot, FrameError>(value),
        slot_at(stored_wide(locals, index, value).0, (index + 1) as u16) == Ok::<Slot, FrameError>(Slot::Top),
        forall|j: u16|
            j != index && j != index + 1 ==> #[trigger] slot_at(stored_wide(locals, index, value).0, j)
                == slot_at(locals, j),
{
}

/// A refused store changes nothing, whatever is stored.
pub proof fn law_refused_store_changes_nothing(locals: Seq<Slot>, index: u16, value: Slot)
    ensures
        stored(locals, index, value).1 is Err ==> stored(locals, index, value).0 == locals,
        stored_wide(locals, index, value).1 is Err ==> stored_wide(locals, index, value).0 == locals,
        stored(locals, index, value).0.len() == locals.len(),
        stored_wide(locals, index, value).0.len() == locals.len(),
{
}

} // verus!
