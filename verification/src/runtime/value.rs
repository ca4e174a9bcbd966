//! Values and errors of execution.

use vstd::prelude::*;

use super::frame::FrameError;
use super::slot::Reference;

verus! {

/// A value that a method takes or returns. Floating-point values are held by their bit patterns.
#[derive(Debug, Clone, Copy, PartialEq, Eq, Structural)]
pub enum Value {
    Int(i32),
    Long(i64),
    Float(u32),
    Double(u64),
    Reference(Reference),
    Void,
}

/// Why execution stopped.
#[derive(Debug, Clone, Copy, PartialEq, Eq)]
pub enum VmError {
    /// A Java exception is under way.
    ThrownException(Reference),
    /// The class data or the arguments are not what the instruction or native method needs.
    BadConstant(&'static str),
    /// A frame was used wrongly.
    Frame(FrameError),
    /// The static initializer of the class at this place of the registry has to run first.
    InitializerPending(usize),
}

} // verus!
