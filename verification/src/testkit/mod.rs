//! Helpers for running single methods: arguments, lookup and prepared calls.

use vstd::prelude::*;

pub mod args;
pub mod asserts;
pub mod compile;
pub mod lookup;
pub mod runner;

pub use args::{set_args, set_value_args, Arg};
pub use asserts::as_int;
pub use lookup::{find_method, utf8};
pub use runner::{prepare_raw, prepare_static_in, static_int};

verus! {

/// Whether this module is there.
pub fn probe() -> (r: bool)
    ensures
        r,
{
    true
}

} // verus!
