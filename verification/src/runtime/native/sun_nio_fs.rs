//! Native methods of `sun.nio.fs`.

use vstd::prelude::*;

use super::registry::{Key, NativeRegistry};
use super::step::{done, value, NativeStep, Step};
use super::Native;
use crate::runtime::value::Value;
use crate::runtime::vm::State;

verus! {

/// The native methods of `sun.nio.fs`.
#[derive(Debug, Clone, Copy, PartialEq, Eq, Structural)]
pub enum SunNioFs {
    InitIds,
}

/// What a native method of `sun.nio.fs` comes to.
pub open spec fn outcome(s: State, native: SunNioFs) -> (State, Step) {
    match native {
        SunNioFs::InitIds => done(value(s, Value::Void)),
    }
}

/// Runs a native method of `sun.nio.fs`. It needs nothing of the machine.
pub fn run(native: SunNioFs) -> (r: NativeStep)
    ensures
        forall|s: State| (s, r@) == #[trigger] outcome(s, native),
{
    match native {
        SunNioFs::InitIds => NativeStep::Done(Ok(Value::Void)),
    }
}

/// The bindings of a registry after the native methods of `sun.nio.fs` were added.
pub open spec fn registered(m: Map<Key, Native>) -> Map<Key, Native> {
    m.insert(
        ("sun/nio/fs/WindowsNativeDispatcher"@, "initIDs"@, "()V"@),
        Native::SunNioFs(SunNioFs::InitIds),
    )
}

/// Binds the native methods of `sun.nio.fs`.
pub fn register(reg: &mut NativeRegistry<Native>)
    ensures
        final(reg)@ == registered(old(reg)@),
{
    reg.register(
        "sun/nio/fs/WindowsNativeDispatcher",
        "initIDs",
        "()V",
        Native::SunNioFs(SunNioFs::InitIds),
    );
}

} // verus!
