//! Stack frames.

use vstd::prelude::*;

use super::local_vars::LocalVars;
use super::operand_stack::OperandStack;
use super::slot::Slot;

verus! {

/// What can go wrong inside a frame.
#[derive(Debug, Clone, Copy, PartialEq, Eq, Structural)]
pub enum FrameError {
    /// The operand stack is full.
    Overflow,
    /// The operand stack holds too few slots.
    Underflow,
    /// The slot holds a value of another type.
    TypeMismatch,
    /// No local variable has this index.
    BadLocalIndex(u16),
}

/// A frame: local variables and operand stack.
#[derive(Debug, Clone)]
pub struct Frame {
    pub locals: LocalVars,
    pub operands: OperandStack,
}

impl Frame {
    /// A fresh frame with `max_locals` local variables and room for `max_stack` operands.
    pub fn new(max_locals: u16, max_stack: u16) -> (r: Self)
        ensures
            r.locals@ == Seq::new(max_locals as nat, |i: int| Slot::Top),
            r.operands@ == Seq::<Slot>::empty(),
            r.operands.max_depth() == max_stack,
    {
        Frame { locals: LocalVars::new(max_locals), operands: OperandStack::new(max_stack) }
    }
}

} // verus!
