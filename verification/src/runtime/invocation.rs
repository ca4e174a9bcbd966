//! A method call that is ready to run.

use vstd::prelude::*;

use super::frame::Frame;
use super::slot::Slot;

verus! {

/// A method call that is ready to run: method `method` of the class at place `class` of the registry, in a
/// frame that holds the arguments.
#[derive(Debug)]
pub struct Invocation {
    pub class: usize,
    pub method: usize,
    pub frame: Frame,
}

/// The model of [`Invocation`].
#[verifier::ext_equal]
pub struct Call {
    pub class: usize,
    pub method: usize,
    pub locals: Seq<Slot>,
    pub operands: Seq<Slot>,
    pub max_stack: nat,
}

impl View for Invocation {
    type V = Call;

    open spec fn view(&self) -> Call {
        Call {
            class: self.class,
            method: self.method,
            locals: self.frame.locals@,
            operands: self.frame.operands@,
            max_stack: self.frame.operands.max_depth(),
        }
    }
}

/// The locals of a frame before anything is stored.
pub open spec fn empty_locals(max_locals: u16) -> Seq<Slot> {
    Seq::new(max_locals as nat, |i: int| Slot::Top)
}

} // verus!
