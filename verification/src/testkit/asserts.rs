//! Taking values apart.

use vstd::prelude::*;

use crate::runtime::value::Value;

verus! {

/// The `int` in a value that is one.
pub fn as_int(v: Value) -> (r: i32)
    requires
        v is Int,
    ensures
        v == Value::Int(r),
{
    match v {
        Value::Int(x) => x,
        _ => 0,
    }
}

} // verus!
