//! Operand stack (JVMS §2.6.2).

use vstd::prelude::*;

use super::frame::FrameError;
use super::slot::{Reference, Slot};

verus! {

/// Operand stack of fixed capacity, counted in **slots**.
#[derive(Debug, Clone)]
pub struct OperandStack {
    slots: Vec<Slot>,
    max_depth: usize,
}

impl View for OperandStack {
    type V = Seq<Slot>;

    closed spec fn view(&self) -> Seq<Slot> {
        self.slots@
    }
}

/// Stack `base` after the slots of `group` were pushed one by one until the capacity was reached.
pub open spec fn filled(base: Seq<Slot>, group: Seq<Slot>, max: nat) -> Seq<Slot> {
    if base.len() + group.len() <= max {
        base + group
    } else if base.len() <= max {
        base + group.take(max - base.len())
    } else {
        base
    }
}

/// Outcome of pushing `group` onto `base` slot by slot.
pub open spec fn fill_result(base: Seq<Slot>, group: Seq<Slot>, max: nat) -> Result<(), FrameError> {
    if group.len() == 0 || base.len() + group.len() <= max {
        Ok(())
    } else {
        Err(FrameError::Overflow)
    }
}

/// The slots below the top `n`.
pub open spec fn below(s: Seq<Slot>, n: int) -> Seq<Slot> {
    s.take(s.len() - n)
}

/// The top `n` slots, bottom first.
pub open spec fn top(s: Seq<Slot>, n: int) -> Seq<Slot> {
    s.skip(s.len() - n)
}

/// Whether the value on top is of category 2: its upper slot is the placeholder.
pub open spec fn wide_on_top(s: Seq<Slot>) -> bool {
    s.len() > 0 && s.last() is Top
}

/// Effect of pushing a one-slot value.
pub open spec fn after_push(s: Seq<Slot>, max: nat, slot: Slot) -> (Seq<Slot>, Result<(), FrameError>) {
    if s.len() + 1 > max {
        (s, Err(FrameError::Overflow))
    } else {
        (s.push(slot), Ok(()))
    }
}

/// Effect of pushing a two-slot value.
pub open spec fn after_push_wide(s: Seq<Slot>, max: nat, slot: Slot) -> (Seq<Slot>, Result<(), FrameError>) {
    if s.len() + 2 > max {
        (s, Err(FrameError::Overflow))
    } else {
        (s.push(slot).push(Slot::Top), Ok(()))
    }
}

/// Effect of popping one slot.
pub open spec fn after_pop(s: Seq<Slot>) -> (Seq<Slot>, Result<Slot, FrameError>) {
    if s.len() == 0 {
        (s, Err(FrameError::Underflow))
    } else {
        (s.drop_last(), Ok(s.last()))
    }
}

/// Effect of popping a two-slot value: the placeholder goes first, then the value.
pub open spec fn after_pop_wide(s: Seq<Slot>) -> (Seq<Slot>, Result<Slot, FrameError>) {
    if s.len() == 0 {
        (s, Err(FrameError::Underflow))
    } else if s.len() == 1 {
        (Seq::empty(), Err(FrameError::Underflow))
    } else {
        (s.take(s.len() - 2), Ok(s[s.len() - 2]))
    }
}

/// Effect of `dup_x1`: `..., v2, v1` becomes `..., v1, v2, v1`.
pub open spec fn after_dup_x1(s: Seq<Slot>, max: nat) -> (Seq<Slot>, Result<(), FrameError>) {
    if s.len() < 2 {
        (Seq::empty(), Err(FrameError::Underflow))
    } else {
        let g = seq![s.last()] + top(s, 2);
        (filled(below(s, 2), g, max), fill_result(below(s, 2), g, max))
    }
}

/// Effect of `dup_x2`: the top value (one slot) is copied below the two slots under it.
pub open spec fn after_dup_x2(s: Seq<Slot>, max: nat) -> (Seq<Slot>, Result<(), FrameError>) {
    if s.len() == 0 {
        (s, Err(FrameError::Underflow))
    } else if s.len() < 3 {
        // A placeholder with nothing under it is left where it is.
        (if s.len() == 2 && s[0] is Top { seq![s[0]] } else { Seq::empty() }, Err(FrameError::Underflow))
    } else {
        let g = seq![s.last()] + top(s, 3);
        (filled(below(s, 3), g, max), fill_result(below(s, 3), g, max))
    }
}

/// Effect of `dup2`: the top two slots are pushed once more.
pub open spec fn after_dup2(s: Seq<Slot>, max: nat) -> (Seq<Slot>, Result<(), FrameError>) {
    if s.len() < 2 {
        (if wide_on_top(s) { s } else { Seq::empty() }, Err(FrameError::Underflow))
    } else {
        let g = top(s, 2) + top(s, 2);
        (filled(below(s, 2), g, max), fill_result(below(s, 2), g, max))
    }
}

/// Effect of `dup2_x1`: the top two slots are copied below the slot under them.
pub open spec fn after_dup2_x1(s: Seq<Slot>, max: nat) -> (Seq<Slot>, Result<(), FrameError>) {
    if s.len() < 2 {
        (s, Err(FrameError::Underflow))
    } else if s.len() == 2 {
        (Seq::empty(), Err(FrameError::Underflow))
    } else {
        let g = top(s, 2) + top(s, 3);
        (filled(below(s, 3), g, max), fill_result(below(s, 3), g, max))
    }
}

/// Effect of `dup2_x2`: the top two slots are copied below the two slots under them.
pub open spec fn after_dup2_x2(s: Seq<Slot>, max: nat) -> (Seq<Slot>, Result<(), FrameError>) {
    if s.len() < 2 {
        (s, Err(FrameError::Underflow))
    } else if s.len() < 4 {
        (if s.len() == 3 && s[0] is Top { seq![s[0]] } else { Seq::empty() }, Err(FrameError::Underflow))
    } else {
        let g = top(s, 2) + top(s, 4);
        (filled(below(s, 4), g, max), fill_result(below(s, 4), g, max))
    }
}

/// Effect of `pop2`: the top two slots go.
pub open spec fn after_pop2(s: Seq<Slot>) -> (Seq<Slot>, Result<(), FrameError>) {
    if s.len() < 2 {
        (s, Err(FrameError::Underflow))
    } else {
        (below(s, 2), Ok(()))
    }
}

/// Effect of `swap`: `..., v2, v1` becomes `..., v1, v2`.
pub open spec fn after_swap(s: Seq<Slot>, max: nat) -> (Seq<Slot>, Result<(), FrameError>) {
    if s.len() < 2 {
        (s, Err(FrameError::Underflow))
    } else {
        let g = seq![s[s.len() - 1], s[s.len() - 2]];
        (filled(below(s, 2), g, max), fill_result(below(s, 2), g, max))
    }
}

impl OperandStack {
    /// Capacity in slots.
    pub closed spec fn max_depth(&self) -> nat {
        self.max_depth as nat
    }

    /// The stack holds no more slots than its capacity.
    pub open spec fn wf(&self) -> bool {
        self@.len() <= self.max_depth()
    }

    /// An empty stack with room for `max_stack` slots.
    pub fn new(max_stack: u16) -> (r: Self)
        ensures
            r@ == Seq::<Slot>::empty(),
            r.max_depth() == max_stack,
            r.wf(),
    {
        OperandStack { slots: Vec::with_capacity(max_stack as usize), max_depth: max_stack as usize }
    }

    /// Current depth in slots.
    pub fn depth(&self) -> (r: usize)
        ensures
            r == self@.len(),
    {
        self.slots.len()
    }

    /// Whether the stack holds nothing.
    pub fn is_empty(&self) -> (r: bool)
        ensures
            r == (self@.len() == 0),
    {
        self.slots.len() == 0
    }

    /// Drops every slot; the capacity stays.
    pub fn clear(&mut self)
        ensures
            final(self)@ == Seq::<Slot>::empty(),
            final(self).max_depth() == old(self).max_depth(),
            final(self).wf(),
    {
        self.slots.clear();
    }

    /// Pushes an `int`.
    pub fn push_int(&mut self, v: i32) -> (r: Result<(), FrameError>)
        ensures
            (final(self)@, r) == after_push(old(self)@, old(self).max_depth(), Slot::Int(v)),
            final(self).max_depth() == old(self).max_depth(),
            old(self).wf() ==> final(self).wf(),
    {
        self.push1(Slot::Int(v))
    }

    /// Pushes the `float` with bit pattern `v`.
    pub fn push_float(&mut self, v: u32) -> (r: Result<(), FrameError>)
        ensures
            (final(self)@, r) == after_push(old(self)@, old(self).max_depth(), Slot::Float(v)),
            final(self).max_depth() == old(self).max_depth(),
            old(self).wf() ==> final(self).wf(),
    {
        self.push1(Slot::Float(v))
    }

    /// Pushes a reference.
    pub fn push_reference(&mut self, v: Reference) -> (r: Result<(), FrameError>)
        ensures
            (final(self)@, r) == after_push(old(self)@, old(self).max_depth(), Slot::Reference(v)),
            final(self).max_depth() == old(self).max_depth(),
            old(self).wf() ==> final(self).wf(),
    {
        self.push1(Slot::Reference(v))
    }

    /// Pops an `int`; a slot of another type is popped too, and refused.
    pub fn pop_int(&mut self) -> (r: Result<i32, FrameError>)
        ensures
            final(self)@ == after_pop(old(self)@).0,
            final(self).max_depth() == old(self).max_depth(),
            old(self).wf() ==> final(self).wf(),
            match after_pop(old(self)@).1 {
                Ok(Slot::Int(v)) => r == Ok::<i32, FrameError>(v),
                Ok(_) => r == Err::<i32, FrameError>(FrameError::TypeMismatch),
                Err(e) => r == Err::<i32, FrameError>(e),
            },
    {
        match self.pop1()? {
            Slot::Int(v) => Ok(v),
            _ => Err(FrameError::TypeMismatch),
        }
    }

    /// Pops a `float` and returns its bit pattern.
    pub fn pop_float(&mut self) -> (r: Result<u32, FrameError>)
        ensures
            final(self)@ == after_pop(old(self)@).0,
            final(self).max_depth() == old(self).max_depth(),
            old(self).wf() ==> final(self).wf(),
            match after_pop(old(self)@).1 {
                Ok(Slot::Float(v)) => r == Ok::<u32, FrameError>(v),
                Ok(_) => r == Err::<u32, FrameError>(FrameError::TypeMismatch),
                Err(e) => r == Err::<u32, FrameError>(e),
            },
    {
        match self.pop1()? {
            Slot::Float(v) => Ok(v),
            _ => Err(FrameError::TypeMismatch),
        }
    }

    /// Pops a reference; a slot of another type is popped too, and refused.
    pub fn pop_reference(&mut self) -> (r: Result<Reference, FrameError>)
        ensures
            final(self)@ == after_pop(old(self)@).0,
            final(self).max_depth() == old(self).max_depth(),
            old(self).wf() ==> final(self).wf(),
            match after_pop(old(self)@).1 {
                Ok(Slot::Reference(v)) => r == Ok::<Reference, FrameError>(v),
                Ok(_) => r == Err::<Reference, FrameError>(FrameError::TypeMismatch),
                Err(e) => r == Err::<Reference, FrameError>(e),
            },
    {
        match self.pop1()? {
            Slot::Reference(v) => Ok(v),
            _ => Err(FrameError::TypeMismatch),
        }
    }

    /// Pushes a `long`, which takes two slots.
    pub fn push_long(&mut self, v: i64) -> (r: Result<(), FrameError>)
        ensures
            (final(self)@, r) == after_push_wide(old(self)@, old(self).max_depth(), Slot::Long(v)),
            final(self).max_depth() == old(self).max_depth(),
            old(self).wf() ==> final(self).wf(),
    {
        self.push2(Slot::Long(v))
    }

    /// Pushes the `double` with bit pattern `v`.
    pub fn push_double(&mut self, v: u64) -> (r: Result<(), FrameError>)
        ensures
            (final(self)@, r) == after_push_wide(old(self)@, old(self).max_depth(), Slot::Double(v)),
            final(self).max_depth() == old(self).max_depth(),
            old(self).wf() ==> final(self).wf(),
    {
        self.push2(Slot::Double(v))
    }

    /// Pops a `long`, which takes two slots.
    pub fn pop_long(&mut self) -> (r: Result<i64, FrameError>)
        ensures
            final(self)@ == after_pop_wide(old(self)@).0,
            final(self).max_depth() == old(self).max_depth(),
            old(self).wf() ==> final(self).wf(),
            match after_pop_wide(old(self)@).1 {
                Ok(Slot::Long(v)) => r == Ok::<i64, FrameError>(v),
                Ok(_) => r == Err::<i64, FrameError>(FrameError::TypeMismatch),
                Err(e) => r == Err::<i64, FrameError>(e),
            },
    {
        match self.pop_cat2()? {
            Slot::Long(v) => Ok(v),
            _ => Err(FrameError::TypeMismatch),
        }
    }

    /// Pops a `double` and returns its bit pattern.
    pub fn pop_double(&mut self) -> (r: Result<u64, FrameError>)
        ensures
            final(self)@ == after_pop_wide(old(self)@).0,
            final(self).max_depth() == old(self).max_depth(),
            old(self).wf() ==> final(self).wf(),
            match after_pop_wide(old(self)@).1 {
                Ok(Slot::Double(v)) => r == Ok::<u64, FrameError>(v),
                Ok(_) => r == Err::<u64, FrameError>(FrameError::TypeMismatch),
                Err(e) => r == Err::<u64, FrameError>(e),
            },
    {
        match self.pop_cat2()? {
            Slot::Double(v) => Ok(v),
            _ => Err(FrameError::TypeMismatch),
        }
    }

    /// Pushes one raw slot.
    pub fn push_slot(&mut self, slot: Slot) -> (r: Result<(), FrameError>)
        ensures
            (final(self)@, r) == after_push(old(self)@, old(self).max_depth(), slot),
            final(self).max_depth() == old(self).max_depth(),
            old(self).wf() ==> final(self).wf(),
    {
        self.push1(slot)
    }

    /// Pops one raw slot.
    pub fn pop_slot(&mut self) -> (r: Result<Slot, FrameError>)
        ensures
            (final(self)@, r) == after_pop(old(self)@),
            final(self).max_depth() == old(self).max_depth(),
            old(self).wf() ==> final(self).wf(),
    {
        self.pop1()
    }

    /// `dup_x1`: `..., v2, v1` becomes `..., v1, v2, v1`.
    pub fn dup_x1(&mut self) -> (r: Result<(), FrameError>)
        ensures
            (final(self)@, r) == after_dup_x1(old(self)@, old(self).max_depth()),
            final(self).max_depth() == old(self).max_depth(),
            old(self).wf() ==> final(self).wf(),
    {
        let v1: Vec<Slot> = self.pop_n(1)?;
        let v2: Vec<Slot> = self.pop_n(1)?;
        self.push_n(&v1)?;
        self.push_n(&v2)?;
        self.push_n(&v1)
    }

    /// `dup_x2`: copies the top value (category 1) below the two slots under it, which hold either
    /// two category-1 values or one category-2 value.
    pub fn dup_x2(&mut self) -> (r: Result<(), FrameError>)
        ensures
            (final(self)@, r) == after_dup_x2(old(self)@, old(self).max_depth()),
            final(self).max_depth() == old(self).max_depth(),
            old(self).wf() ==> final(self).wf(),
    {
        let v1: Vec<Slot> = self.pop_n(1)?;
        if self.top_is_category2() {
            let v2: Vec<Slot> = self.pop_n(2)?;
            self.push_n(&v1)?;
            self.push_n(&v2)?;
            self.push_n(&v1)
        } else {
            let v2: Vec<Slot> = self.pop_n(1)?;
            let v3: Vec<Slot> = self.pop_n(1)?;
            self.push_n(&v1)?;
            self.push_n(&v3)?;
            self.push_n(&v2)?;
            self.push_n(&v1)
        }
    }

    /// `dup2`: pushes the top two slots (one category-2 or two category-1 values) once more.
    pub fn dup2(&mut self) -> (r: Result<(), FrameError>)
        ensures
            (final(self)@, r) == after_dup2(old(self)@, old(self).max_depth()),
            final(self).max_depth() == old(self).max_depth(),
            old(self).wf() ==> final(self).wf(),
    {
        if self.top_is_category2() {
            let v1: Vec<Slot> = self.pop_n(2)?;
            self.push_n(&v1)?;
            self.push_n(&v1)
        } else {
            let v1: Vec<Slot> = self.pop_n(1)?;
            let v2: Vec<Slot> = self.pop_n(1)?;
            self.push_n(&v2)?;
            self.push_n(&v1)?;
            self.push_n(&v2)?;
            self.push_n(&v1)
        }
    }

    /// `dup2_x1`: copies the top two slots below the slot under them.
    pub fn dup2_x1(&mut self) -> (r: Result<(), FrameError>)
        ensures
            (final(self)@, r) == after_dup2_x1(old(self)@, old(self).max_depth()),
            final(self).max_depth() == old(self).max_depth(),
            old(self).wf() ==> final(self).wf(),
    {
        let g: Vec<Slot> = self.pop_n(2)?;
        let w: Vec<Slot> = self.pop_n(1)?;
        self.push_n(&g)?;
        self.push_n(&w)?;
        self.push_n(&g)
    }

    /// `dup2_x2`: copies the top two slots below the two slots under them.
    pub fn dup2_x2(&mut self) -> (r: Result<(), FrameError>)
        ensures
            (final(self)@, r) == after_dup2_x2(old(self)@, old(self).max_depth()),
            final(self).max_depth() == old(self).max_depth(),
            old(self).wf() ==> final(self).wf(),
    {
        let g: Vec<Slot> = self.pop_n(2)?;
        if self.top_is_category2() {
            let w: Vec<Slot> = self.pop_n(2)?;
            self.push_n(&g)?;
            self.push_n(&w)?;
            self.push_n(&g)
        } else {
            let w1: Vec<Slot> = self.pop_n(1)?;
            let w2: Vec<Slot> = self.pop_n(1)?;
            self.push_n(&g)?;
            self.push_n(&w2)?;
            self.push_n(&w1)?;
            self.push_n(&g)
        }
    }

    /// `pop2`: drops the top two slots (one category-2 or two category-1 values).
    pub fn pop2(&mut self) -> (r: Result<(), FrameError>)
        ensures
            (final(self)@, r) == after_pop2(old(self)@),
            final(self).max_depth() == old(self).max_depth(),
            old(self).wf() ==> final(self).wf(),
    {
        self.pop_n(2)?;
        Ok(())
    }

    /// `swap`: exchanges the top two category-1 values.
    pub fn swap(&mut self) -> (r: Result<(), FrameError>)
        ensures
            (final(self)@, r) == after_swap(old(self)@, old(self).max_depth()),
            final(self).max_depth() == old(self).max_depth(),
            old(self).wf() ==> final(self).wf(),
    {
        let pair: Vec<Slot> = self.pop_n(2)?;
        let swapped: Vec<Slot> = vec![pair[1], pair[0]];
        assert(swapped@ =~= seq![old(self)@[old(self)@.len() - 1], old(self)@[old(self)@.len() - 2]]);
        self.push_n(&swapped)
    }

    fn top_is_category2(&self) -> (r: bool)
        ensures
            r == wide_on_top(self@),
    {
        let n: usize = self.slots.len();
        n > 0 && matches!(self.slots[n - 1], Slot::Top)
    }

    /// Pops the top `n` slots and returns them bottom first.
    fn pop_n(&mut self, n: usize) -> (r: Result<Vec<Slot>, FrameError>)
        ensures
            final(self).max_depth() == old(self).max_depth(),
            match r {
                Ok(v) => n <= old(self)@.len() && v@ == top(old(self)@, n as int) && final(self)@ == below(
                    old(self)@,
                    n as int,
                ),
                Err(e) => n > old(self)@.len() && e == FrameError::Underflow && final(self)@ == old(self)@,
            },
    {
        if n > self.slots.len() {
            return Err(FrameError::Underflow);
        }
        let split: usize = self.slots.len() - n;
        let v: Vec<Slot> = self.slots.split_off(split);
        assert(v@ =~= top(old(self)@, n as int));
        assert(self.slots@ =~= below(old(self)@, n as int));
        Ok(v)
    }

    /// Pushes slots bottom first, each with its own capacity test.
    fn push_n(&mut self, slots: &Vec<Slot>) -> (r: Result<(), FrameError>)
        ensures
            final(self)@ == filled(old(self)@, slots@, old(self).max_depth()),
            r == fill_result(old(self)@, slots@, old(self).max_depth()),
            final(self).max_depth() == old(self).max_depth(),
    {
        let mut i: usize = 0;
        assert(self@ =~= self@ + slots@.take(0));
        while i < slots.len()
            invariant
                i <= slots.len(),
                self.max_depth() == old(self).max_depth(),
                self@ == old(self)@ + slots@.take(i as int),
                i > 0 ==> self@.len() <= self.max_depth(),
            decreases slots.len() - i,
        {
            match self.push1(slots[i]) {
                Ok(_) => {
                    assert(self@ =~= old(self)@ + slots@.take(i + 1));
                },
                Err(e) => {
                    assert(self@ =~= filled(old(self)@, slots@, self.max_depth()));
                    return Err(e);
                },
            }
            i = i + 1;
        }
        assert(slots@.take(i as int) =~= slots@);
        assert(slots@.len() == 0 ==> self@ =~= filled(old(self)@, slots@, self.max_depth()));
        Ok(())
    }

    fn push1(&mut self, slot: Slot) -> (r: Result<(), FrameError>)
        ensures
            (final(self)@, r) == after_push(old(self)@, old(self).max_depth(), slot),
            final(self).max_depth() == old(self).max_depth(),
    {
        if self.slots.len() >= self.max_depth {
            return Err(FrameError::Overflow);
        }
        self.slots.push(slot);
        Ok(())
    }

    fn push2(&mut self, value: Slot) -> (r: Result<(), FrameError>)
        ensures
            (final(self)@, r) == after_push_wide(old(self)@, old(self).max_depth(), value),
            final(self).max_depth() == old(self).max_depth(),
    {
        if self.slots.len() >= self.max_depth || self.max_depth - self.slots.len() < 2 {
            return Err(FrameError::Overflow);
        }
        self.slots.push(value);
        self.slots.push(Slot::Top);
        Ok(())
    }

    fn pop1(&mut self) -> (r: Result<Slot, FrameError>)
        ensures
            (final(self)@, r) == after_pop(old(self)@),
            final(self).max_depth() == old(self).max_depth(),
    {
        match self.slots.pop() {
            Some(s) => Ok(s),
            None => Err(FrameError::Underflow),
        }
    }

    /// Pops both slots of a category-2 value and returns the one that holds the value.
    fn pop_cat2(&mut self) -> (r: Result<Slot, FrameError>)
        ensures
            (final(self)@, r) == after_pop_wide(old(self)@),
            final(self).max_depth() == old(self).max_depth(),
    {
        match self.slots.pop() {
            Some(_) => {},
            None => {
                return Err(FrameError::Underflow);
            },
        }
        match self.slots.pop() {
            Some(s) => {
                assert(self.slots@ =~= old(self)@.take(old(self)@.len() - 2));
                Ok(s)
            },
            None => {
                assert(self.slots@ =~= Seq::<Slot>::empty());
                Err(FrameError::Underflow)
            },
        }
    }
}

/// A pop undoes a push that succeeded and gives back the slot.
pub proof fn law_push_pop(s: Seq<Slot>, max: nat, slot: Slot)
    requires
        s.len() + 1 <= max,
    ensures
        after_push(s, max, slot).1 is Ok,
        after_pop(after_push(s, max, slot).0) == (s, Ok::<Slot, FrameError>(slot)),
{
    assert(s.push(slot).drop_last() =~= s);
}

/// A two-slot pop undoes a two-slot push that succeeded and gives back the value; so does `pop2`.
pub proof fn law_push_pop_wide(s: Seq<Slot>, max: nat, slot: Slot)
    requires
        s.len() + 2 <= max,
    ensures
        after_push_wide(s, max, slot).1 is Ok,
        after_push_wide(s, max, slot).0.len() == s.len() + 2,
        after_pop_wide(after_push_wide(s, max, slot).0) == (s, Ok::<Slot, FrameError>(slot)),
        after_pop2(after_push_wide(s, max, slot).0) == (s, Ok::<(), FrameError>(())),
{
    let t = s.push(slot).push(Slot::Top);
    assert(t.take(t.len() - 2) =~= s);
}

/// `swap` twice gives the stack back.
pub proof fn law_swap_is_an_involution(s: Seq<Slot>, max: nat)
    requires
        2 <= s.len() <= max,
    ensures
        after_swap(s, max).1 is Ok,
        after_swap(after_swap(s, max).0, max) == (s, Ok::<(), FrameError>(())),
{
    let t = after_swap(s, max).0;
    assert(t.len() == s.len());
    assert(below(t, 2) =~= below(s, 2));
    assert(after_swap(t, max).0 =~= s);
}

/// `dup2` followed by `pop2` gives the stack back.
pub proof fn law_dup2_pop2(s: Seq<Slot>, max: nat)
    requires
        2 <= s.len(),
        s.len() + 2 <= max,
    ensures
        after_dup2(s, max).1 is Ok,
        after_pop2(after_dup2(s, max).0) == (s, Ok::<(), FrameError>(())),
{
    assert(below(after_dup2(s, max).0, 2) =~= s);
}

/// Whatever form the values have, the copying instructions leave the old top of the stack on top and
/// put the copy directly below what they reached over.
pub proof fn law_dup_forms(s: Seq<Slot>, max: nat)
    requires
        4 <= s.len(),
        s.len() + 2 <= max,
    ensures
        after_dup_x1(s, max).0 == below(s, 2) + top(s, 1) + top(s, 2),
        after_dup_x2(s, max).0 == below(s, 3) + top(s, 1) + top(s, 3),
        after_dup2(s, max).0 == s + top(s, 2),
        after_dup2_x1(s, max).0 == below(s, 3) + top(s, 2) + top(s, 3),
        after_dup2_x2(s, max).0 == below(s, 4) + top(s, 2) + top(s, 4),
{
    assert(top(s, 1) =~= seq![s.last()]);
    assert(after_dup_x1(s, max).0 =~= below(s, 2) + top(s, 1) + top(s, 2));
    assert(after_dup_x2(s, max).0 =~= below(s, 3) + top(s, 1) + top(s, 3));
    assert(after_dup2(s, max).0 =~= s + top(s, 2));
    assert(after_dup2_x1(s, max).0 =~= below(s, 3) + top(s, 2) + top(s, 3));
    assert(after_dup2_x2(s, max).0 =~= below(s, 4) + top(s, 2) + top(s, 4));
}

} // verus!
