//! What a native method comes to: a result, or something that only the outside can do.

use vstd::prelude::*;

use crate::metadata::descriptor::{ReturnDescriptor, Type};
use crate::runtime::invocation::{Call, Invocation};
use crate::runtime::slot::Reference;
use crate::runtime::string::{read_text, text_at};
use crate::runtime::value::{Value, VmError};
use crate::runtime::vm::class_mirrors::name_of;
use crate::runtime::vm::exceptions::thrown;
use crate::runtime::vm::monitors::{WaitTicket, Wakeup};
use crate::runtime::vm::{State, VmThread};

verus! {

/// A library to load: by path, or the process itself.
#[derive(Debug)]
pub struct LibraryRequest {
    /// The `NativeLibraryImpl` that gets the handle.
    pub instance: Reference,
    /// Path of the library; `None` for the process itself.
    pub path: Option<String>,
    /// Whether a failure is an exception.
    pub must_succeed: bool,
}

/// What a native method comes to. Only [`NativeStep::Done`] is final; for everything else the outside acts
/// and hands the reply to the function named with the variant, while the frame of the native method is
/// still on the call stack.
#[derive(Debug)]
pub enum NativeStep {
    /// The result.
    Done(Result<Value, VmError>),
    /// Wake threads that wait on the object; the result is `void`.
    Wake(Reference, Wakeup),
    /// Wait on the object of the ticket; see `object_wait_pending`.
    Wait(WaitTicket),
    /// Run the thread; see `run_thread_body`. The result is `void`.
    Start(Reference),
    /// Let other threads run; the result is `void`.
    Yield,
    /// Sleep for some nanoseconds, then `finish_sleep`.
    Sleep(u64),
    /// The result is the wall clock in milliseconds since 1970, a `long`.
    CurrentTimeMillis,
    /// The result is the clock in nanoseconds, a `long`.
    NanoTime,
    /// Count the processors, then `available_processors_value`.
    AvailableProcessors,
    /// Copy array elements: source and position, destination and position, length.
    ArrayCopy(Reference, i32, Reference, i32, i32),
    /// Resolve the path, then `finish_canonicalize`.
    Canonicalize(String),
    /// Look up the file, then `boolean_attributes`.
    FileAttributes(String),
    /// Load the library, then `finish_load`.
    LoadLibrary(LibraryRequest),
    /// Unload the library with this handle; the result is `void`.
    UnloadLibrary(i64),
    /// The result is the address of the symbol in the library with this handle, a `long`.
    FindSymbol(i64, String),
    /// Run the call, then `finish_invoke` with what the method returns.
    Invoke(Invocation, ReturnDescriptor),
    /// Run the constructor on the instance, then `finish_construct`.
    Construct(Invocation, Reference),
}

/// The model of [`NativeStep`].
pub enum Step {
    Done(Result<Value, VmError>),
    Wake(Reference, Wakeup),
    Wait(WaitTicket),
    Start(Reference),
    Yield,
    Sleep(u64),
    CurrentTimeMillis,
    NanoTime,
    AvailableProcessors,
    ArrayCopy(Reference, i32, Reference, i32, i32),
    Canonicalize(Seq<char>),
    FileAttributes(Seq<char>),
    LoadLibrary(Reference, Option<Seq<char>>, bool),
    UnloadLibrary(i64),
    FindSymbol(i64, Seq<char>),
    Invoke(Call, Option<Type>),
    Construct(Call, Reference),
}

impl View for NativeStep {
    type V = Step;

    open spec fn view(&self) -> Step {
        match self {
            NativeStep::Done(r) => Step::Done(*r),
            NativeStep::Wake(o, w) => Step::Wake(*o, *w),
            NativeStep::Wait(t) => Step::Wait(*t),
            NativeStep::Start(r) => Step::Start(*r),
            NativeStep::Yield => Step::Yield,
            NativeStep::Sleep(n) => Step::Sleep(*n),
            NativeStep::CurrentTimeMillis => Step::CurrentTimeMillis,
            NativeStep::NanoTime => Step::NanoTime,
            NativeStep::AvailableProcessors => Step::AvailableProcessors,
            NativeStep::ArrayCopy(a, b, c, d, e) => Step::ArrayCopy(*a, *b, *c, *d, *e),
            NativeStep::Canonicalize(p) => Step::Canonicalize(p@),
            NativeStep::FileAttributes(p) => Step::FileAttributes(p@),
            NativeStep::LoadLibrary(q) => Step::LoadLibrary(
                q.instance,
                match q.path {
                    Some(p) => Some(p@),
                    None => None,
                },
                q.must_succeed,
            ),
            NativeStep::UnloadLibrary(h) => Step::UnloadLibrary(*h),
            NativeStep::FindSymbol(h, n) => Step::FindSymbol(*h, n@),
            NativeStep::Invoke(i, t) => Step::Invoke(i@, t@),
            NativeStep::Construct(i, r) => Step::Construct(i@, *r),
        }
    }
}

/// The argument at `i`, if there is one.
pub open spec fn arg_at(args: Seq<Value>, i: int) -> Option<Value> {
    if 0 <= i < args.len() {
        Some(args[i])
    } else {
        None
    }
}

/// The reference in argument `i`, if it is one.
pub open spec fn reference_arg(args: Seq<Value>, i: int) -> Option<Reference> {
    match arg_at(args, i) {
        Some(Value::Reference(r)) => Some(r),
        _ => None,
    }
}

/// The reference in argument `i` unless it is `null`.
pub open spec fn object_arg(args: Seq<Value>, i: int) -> Option<Reference> {
    match reference_arg(args, i) {
        Some(r) => if r.0 is None {
            None
        } else {
            Some(r)
        },
        None => None,
    }
}

/// The `int` in argument `i`, if it is one.
pub open spec fn int_arg(args: Seq<Value>, i: int) -> Option<i32> {
    match arg_at(args, i) {
        Some(Value::Int(v)) => Some(v),
        _ => None,
    }
}

/// The `long` in argument `i`, if it is one.
pub open spec fn long_arg(args: Seq<Value>, i: int) -> Option<i64> {
    match arg_at(args, i) {
        Some(Value::Long(v)) => Some(v),
        _ => None,
    }
}

/// Whether argument `i` is a true `boolean`.
pub open spec fn flag_arg(args: Seq<Value>, i: int) -> bool {
    int_arg(args, i) matches Some(v) && v != 0
}

/// A value as the outcome, without change of state.
pub open spec fn value(s: State, v: Value) -> (State, Result<Value, VmError>) {
    (s, Ok(v))
}

/// An error as the outcome, without change of state.
pub open spec fn error(s: State, e: VmError) -> (State, Result<Value, VmError>) {
    (s, Err(e))
}

/// A thrown exception as the outcome.
pub open spec fn throws(s: State, class: Seq<char>) -> (State, Result<Value, VmError>) {
    (thrown(s, class).0, Err(VmError::ThrownException(thrown(s, class).1)))
}

/// What stops a native method: the state and the error, here a thrown exception.
pub open spec fn refused<T>(s: State, class: Seq<char>) -> Result<T, (State, VmError)> {
    Err((thrown(s, class).0, VmError::ThrownException(thrown(s, class).1)))
}

/// The outcome of a native method that was stopped.
pub open spec fn stopped(e: (State, VmError)) -> (State, Result<Value, VmError>) {
    (e.0, Err(e.1))
}

/// The text of the string behind `r`; a `NullPointerException` if `r` is no string.
pub open spec fn text_behind(s: State, r: Option<Reference>) -> Result<Seq<char>, (State, VmError)> {
    match r {
        None => refused(s, "java/lang/NullPointerException"@),
        Some(r) => match text_at(s, r) {
            Err(e) => Err((s, e)),
            Ok(None) => refused(s, "java/lang/NullPointerException"@),
            Ok(Some(t)) => Ok(t),
        },
    }
}

/// The internal name that the receiver, a class mirror, stands for: a `NullPointerException` without
/// receiver, an `InternalError` if it is no mirror.
pub open spec fn mirror_behind(s: State, this: Option<Reference>) -> Result<Seq<char>, (State, VmError)> {
    match this {
        None => refused(s, "java/lang/NullPointerException"@),
        Some(r) => match name_of(s.vm.class_mirrors, r) {
            None => refused(s, "java/lang/InternalError"@),
            Some(name) => Ok(name),
        },
    }
}

/// The model of a text that was asked for in state `s`, or of what stopped the native method.
pub open spec fn asked(s: State, r: Result<String, VmError>) -> Result<Seq<char>, (State, VmError)> {
    match r {
        Ok(t) => Ok(t@),
        Err(e) => Err((s, e)),
    }
}

/// A final step.
pub open spec fn done(o: (State, Result<Value, VmError>)) -> (State, Step) {
    (o.0, Step::Done(o.1))
}

/// The argument at `i`, if there is one.
pub fn get_arg(args: &[Value], i: usize) -> (r: Option<Value>)
    ensures
        r == arg_at(args@, i as int),
{
    if i < args.len() {
        Some(args[i])
    } else {
        None
    }
}

/// The reference in argument `i`, if it is one.
pub fn get_reference(args: &[Value], i: usize) -> (r: Option<Reference>)
    ensures
        r == reference_arg(args@, i as int),
{
    match get_arg(args, i) {
        Some(Value::Reference(r)) => Some(r),
        _ => None,
    }
}

/// The reference in argument `i` unless it is `null`.
pub fn get_object(args: &[Value], i: usize) -> (r: Option<Reference>)
    ensures
        r == object_arg(args@, i as int),
{
    match get_reference(args, i) {
        Some(r) => if r.is_null() {
            None
        } else {
            Some(r)
        },
        None => None,
    }
}

/// The `int` in argument `i`, if it is one.
pub fn get_int(args: &[Value], i: usize) -> (r: Option<i32>)
    ensures
        r == int_arg(args@, i as int),
{
    match get_arg(args, i) {
        Some(Value::Int(v)) => Some(v),
        _ => None,
    }
}

/// The `long` in argument `i`, if it is one.
pub fn get_long(args: &[Value], i: usize) -> (r: Option<i64>)
    ensures
        r == long_arg(args@, i as int),
{
    match get_arg(args, i) {
        Some(Value::Long(v)) => Some(v),
        _ => None,
    }
}

/// Whether argument `i` is a true `boolean`.
pub fn get_flag(args: &[Value], i: usize) -> (r: bool)
    ensures
        r == flag_arg(args@, i as int),
{
    match get_int(args, i) {
        Some(v) => v != 0,
        None => false,
    }
}

/// Throws an exception as the outcome.
pub fn throw(vm: &mut VmThread, class: &str) -> (r: Result<Value, VmError>)
    ensures
        (final(vm)@, r) == throws(old(vm)@, class@),
{
    Err(vm.throw_exception(class))
}

/// The text of the string behind `r`; a `NullPointerException` if `r` is no string.
pub fn require_text(vm: &mut VmThread, r: Option<Reference>) -> (t: Result<String, VmError>)
    ensures
        asked(final(vm)@, t) == text_behind(old(vm)@, r),
        t is Ok ==> final(vm)@ == old(vm)@,
{
    match r {
        None => Err(vm.throw_exception("java/lang/NullPointerException")),
        Some(r) => match read_text(vm, r) {
            Err(e) => Err(e),
            Ok(None) => Err(vm.throw_exception("java/lang/NullPointerException")),
            Ok(Some(t)) => Ok(t),
        },
    }
}

/// The internal name that the receiver, a class mirror, stands for; see [`mirror_behind`].
pub fn require_mirror(vm: &mut VmThread, this: Option<Reference>) -> (t: Result<String, VmError>)
    ensures
        asked(final(vm)@, t) == mirror_behind(old(vm)@, this),
        t is Ok ==> final(vm)@ == old(vm)@,
{
    match this {
        None => Err(vm.throw_exception("java/lang/NullPointerException")),
        Some(r) => match vm.mirror_internal_name(r) {
            None => Err(vm.throw_exception("java/lang/InternalError")),
            Some(name) => Ok(name),
        },
    }
}

} // verus!
