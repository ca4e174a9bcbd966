//! Native methods of `java.lang`.

use vstd::prelude::*;

use super::java_lang_members::{
    declared_constructors, declared_fields, declared_methods, get_declared_constructors0, get_declared_fields0,
    get_declared_methods0,
};
use super::java_lang_trace::{init_stack_trace_elements, trace_elements};
use super::registry::{Key, NativeRegistry};
use super::step::{
    done, error, get_arg, get_int, get_long, get_reference, int_arg, long_arg, arg_at, flag_arg, get_flag,
    mirror_behind, reference_arg, require_mirror, require_text, stopped, text_behind, throw, throws, value,
    NativeStep, Step,
};
use super::Native;
use crate::runtime::oop::{slot_or_top, Object, Oop};
use crate::runtime::slot::{Reference, Slot};
use crate::runtime::string::{intern, interned};
use crate::runtime::text::{begins_with, join, replace_char, replaced, starts_with_char};
use crate::runtime::utf16::{utf16, utf16_len};
use crate::runtime::value::{Value, VmError};
use crate::runtime::vm::class_mirrors::name_of;
use crate::runtime::vm::exceptions::backtrace_captured;
use crate::runtime::vm::mirrors::{is_primitive_keyword, mirror_asked, mirror_field_written, primitive_keyword};
use crate::runtime::vm::monitors::{failed, lock_held, notified, wait_begun, WaitTicket, Wakeup};
use crate::runtime::vm::threads::{
    event_lowered, identity, interrupt_cleared, interrupt_probed, interrupted, started,
};
use crate::runtime::vm::{Platform, State, VmThread, NEXT_THREAD_ID_OFFSET};

verus! {

broadcast use crate::runtime::oop::oop_variant;

/// The native methods of `java.lang`.
#[derive(Debug, Clone, Copy, PartialEq, Eq, Structural)]
pub enum JavaLang {
    FillInStackTrace,
    HashCode,
    IdentityHashCode,
    Notify,
    NotifyAll,
    /// `wait` with a time limit in milliseconds.
    WaitMillis,
    /// `wait` without time limit.
    WaitForever,
    GetClass,
    ArrayCopy,
    CurrentTimeMillis,
    NanoTime,
    FloatToRawIntBits,
    IntBitsToFloat,
    DoubleToRawLongBits,
    LongBitsToDouble,
    GetPrimitiveClass,
    ForName,
    GetDeclaredFields,
    GetDeclaredMethods,
    GetDeclaredConstructors,
    DesiredAssertionStatus,
    InitClassName,
    IsInstance,
    IsAssignableFrom,
    GetSuperclass,
    MaxMemory,
    AvailableProcessors,
    InternString,
    InitStackTraceElements,
    RefersTo,
    FindLoadedClass,
    MapLibraryName,
    CurrentThread,
    HoldsLock,
    Yield,
    SleepNanos,
    StartThread,
    Interrupt,
    ClearInterruptEvent,
    NextThreadIdOffset,
}

/// The identity hash of an object: its heap handle; 0 for `null`.
pub open spec fn identity_hash(r: Option<Reference>) -> i32 {
    match r {
        Some(Reference(Some(id))) => id as i32,
        _ => 0,
    }
}

/// The identity hash of an object: its heap handle; 0 for `null`.
pub fn identity_hash_code(r: Option<Reference>) -> (h: i32)
    ensures
        h == identity_hash(r),
{
    match r {
        Some(r) => match r.id() {
            Some(id) => id as i32,
            None => 0,
        },
        None => 0,
    }
}

/// Outcome of `Throwable.fillInStackTrace`.
pub open spec fn trace_filled(s: State, this: Option<Reference>) -> (State, Result<Value, VmError>) {
    match this {
        Some(r) => value(backtrace_captured(s, r), Value::Reference(r)),
        None => throws(s, "java/lang/NullPointerException"@),
    }
}

/// `Object.notify` and `notifyAll`.
pub open spec fn notify_step(s: State, this: Option<Reference>, all: bool) -> (State, Step) {
    match this {
        None => done(throws(s, "java/lang/NullPointerException"@)),
        Some(r) => match notified(s, r, all) {
            (t, Ok(w)) => (t, Step::Wake(r, w)),
            (t, Err(e)) => (t, Step::Done(Err(e))),
        },
    }
}

/// `Object.wait`.
pub open spec fn wait_step(s: State, this: Option<Reference>, millis: i64) -> (State, Step) {
    match this {
        None => done(throws(s, "java/lang/NullPointerException"@)),
        Some(r) => match wait_begun(s, r, millis) {
            (t, Ok(ticket)) => (t, Step::Wait(ticket)),
            (t, Err(e)) => (t, Step::Done(Err(e))),
        },
    }
}

/// The time limit of a wait: the first argument, 0 if it is no `long`.
pub open spec fn wait_limit(args: Seq<Value>) -> i64 {
    match long_arg(args, 0) {
        Some(m) => m,
        None => 0,
    }
}

/// Class name of an instance or array.
pub open spec fn runtime_class(s: State, r: Reference) -> Option<Seq<char>> {
    match s.object(r) {
        Some(Object::Instance { class, .. }) => Some(class),
        Some(Object::Array { class, .. }) => Some(class),
        _ => None,
    }
}

/// Outcome of `Object.getClass`.
pub open spec fn class_got(s: State, this: Option<Reference>) -> (State, Result<Value, VmError>) {
    match this {
        None => throws(s, "java/lang/NullPointerException"@),
        Some(r) => match runtime_class(s, r) {
            None => throws(s, "java/lang/InternalError"@),
            Some(class) => mirror_value(s, class),
        },
    }
}

/// A class mirror as the outcome.
pub open spec fn mirror_value(s: State, name: Seq<char>) -> (State, Result<Value, VmError>) {
    reference_outcome(mirror_asked(s, name))
}

/// `System.arraycopy`.
pub open spec fn copy_step(args: Seq<Value>) -> Step {
    match (reference_arg(args, 0), int_arg(args, 1), reference_arg(args, 2), int_arg(args, 3), int_arg(args, 4)) {
        (Some(src), Some(src_pos), Some(dst), Some(dst_pos), Some(len)) => Step::ArrayCopy(
            src,
            src_pos,
            dst,
            dst_pos,
            len,
        ),
        _ => Step::Done(Err(VmError::BadConstant("arraycopy 实参缺失/类型不符"))),
    }
}

/// Outcome of `Float.floatToRawIntBits`.
pub open spec fn float_bits(args: Seq<Value>) -> Result<Value, VmError> {
    match arg_at(args, 0) {
        Some(Value::Float(bits)) => Ok(Value::Int(bits as i32)),
        _ => Err(VmError::BadConstant("floatToRawIntBits 实参须为 float")),
    }
}

/// Outcome of `Float.intBitsToFloat`.
pub open spec fn float_from_bits(args: Seq<Value>) -> Result<Value, VmError> {
    match arg_at(args, 0) {
        Some(Value::Int(i)) => Ok(Value::Float(i as u32)),
        _ => Err(VmError::BadConstant("intBitsToFloat 实参须为 int")),
    }
}

/// Outcome of `Double.doubleToRawLongBits`.
pub open spec fn double_bits(args: Seq<Value>) -> Result<Value, VmError> {
    match arg_at(args, 0) {
        Some(Value::Double(bits)) => Ok(Value::Long(bits as i64)),
        _ => Err(VmError::BadConstant("doubleToRawLongBits 实参须为 double")),
    }
}

/// Outcome of `Double.longBitsToDouble`.
pub open spec fn double_from_bits(args: Seq<Value>) -> Result<Value, VmError> {
    match arg_at(args, 0) {
        Some(Value::Long(l)) => Ok(Value::Double(l as u64)),
        _ => Err(VmError::BadConstant("longBitsToDouble 实参须为 long")),
    }
}

/// Outcome of `Class.getPrimitiveClass`.
pub open spec fn primitive_class(s: State, args: Seq<Value>) -> (State, Result<Value, VmError>) {
    match text_behind(s, reference_arg(args, 0)) {
        Err(e) => stopped(e),
        Ok(text) => if primitive_keyword(text) {
            mirror_value(s, text)
        } else {
            throws(s, "java/lang/ClassNotFoundException"@)
        },
    }
}

/// Outcome of `Class.forName0`.
pub open spec fn class_for_name(s: State, args: Seq<Value>) -> (State, Result<Value, VmError>) {
    match text_behind(s, reference_arg(args, 0)) {
        Err(e) => stopped(e),
        Ok(text) => {
            let internal = replaced(text, '.', '/');
            if s.class(internal) is None {
                throws(s, "java/lang/ClassNotFoundException"@)
            } else if flag_arg(args, 1) && s.pending_initializer(internal) is Some {
                error(s, VmError::InitializerPending(s.pending_initializer(internal)->0 as usize))
            } else {
                mirror_value(s, internal)
            }
        },
    }
}

/// Outcome of `Class.initClassName`.
pub open spec fn class_named(s: State, this: Option<Reference>) -> (State, Result<Value, VmError>) {
    match mirror_behind(s, this) {
        Err(e) => stopped(e),
        Ok(internal) => match interned(s, replaced(internal, '/', '.')) {
            (t, Err(e)) => (t, Err(e)),
            (t, Ok(text)) => (
                mirror_field_written(t, this->0, "name"@, Slot::Reference(text)),
                Ok(Value::Reference(text)),
            ),
        },
    }
}

/// A truth value as an `int`.
pub open spec fn truth(b: bool) -> Value {
    Value::Int(
        if b {
            1
        } else {
            0
        },
    )
}

/// Whether the class `sub` is the class `sup` or one of its subtypes; false without registry.
pub open spec fn subtype_in(s: State, sub: Seq<char>, sup: Seq<char>) -> bool {
    match s.vm.registry {
        Some(reg) => reg.subtype(sub, sup),
        None => false,
    }
}

/// Outcome of `Class.isInstance`.
pub open spec fn instance_tested(s: State, this: Option<Reference>, args: Seq<Value>) -> (State, Result<Value, VmError>) {
    match mirror_behind(s, this) {
        Err(e) => stopped(e),
        Ok(internal) => value(
            s,
            match reference_arg(args, 0) {
                Some(obj) => match runtime_class(s, obj) {
                    Some(class) => truth(subtype_in(s, class, internal)),
                    None => truth(false),
                },
                None => truth(false),
            },
        ),
    }
}

/// Outcome of `Class.isAssignableFrom`.
pub open spec fn assignable_tested(s: State, this: Option<Reference>, args: Seq<Value>) -> (
    State,
    Result<Value, VmError>,
) {
    match mirror_behind(s, this) {
        Err(e) => stopped(e),
        Ok(internal) => match reference_arg(args, 0) {
            None => throws(s, "java/lang/NullPointerException"@),
            Some(other) => match name_of(s.vm.class_mirrors, other) {
                None => throws(s, "java/lang/NullPointerException"@),
                Some(class) => value(s, truth(subtype_in(s, class, internal))),
            },
        },
    }
}

/// The direct superclass: `Object` for arrays, none for what is not loaded.
pub open spec fn superclass_name(s: State, internal: Seq<char>) -> Option<Seq<char>> {
    if begins_with(internal, '[') {
        Some("java/lang/Object"@)
    } else {
        match s.class(internal) {
            Some(c) => c.super_view(),
            None => None,
        }
    }
}

/// Outcome of `Class.getSuperclass`.
pub open spec fn superclass_got(s: State, this: Option<Reference>) -> (State, Result<Value, VmError>) {
    match mirror_behind(s, this) {
        Err(e) => stopped(e),
        Ok(internal) => match superclass_name(s, internal) {
            Some(name) => mirror_value(s, name),
            None => value(s, Value::Reference(Reference(None))),
        },
    }
}

/// Outcome of `String.intern`.
pub open spec fn string_interned(s: State, this: Option<Reference>) -> (State, Result<Value, VmError>) {
    match text_behind(s, this) {
        Err(e) => stopped(e),
        Ok(text) => reference_outcome(interned(s, text)),
    }
}

/// A reference as the outcome.
pub open spec fn reference_outcome(o: (State, Result<Reference, VmError>)) -> (State, Result<Value, VmError>) {
    (
        o.0,
        match o.1 {
            Ok(r) => Ok(Value::Reference(r)),
            Err(e) => Err(e),
        },
    )
}

/// Outcome of `StackTraceElement.initStackTraceElements`.
pub open spec fn trace_elements_filled(s: State, args: Seq<Value>) -> (State, Result<Value, VmError>) {
    match (reference_arg(args, 0), reference_arg(args, 1), int_arg(args, 2)) {
        (Some(elements), Some(backtrace), Some(depth)) => match trace_elements(s, elements, backtrace, depth) {
            (t, Ok(_)) => (t, Ok(Value::Void)),
            (t, Err(e)) => (t, Err(e)),
        },
        _ => error(s, VmError::BadConstant("initStackTraceElements 实参缺失/类型不符")),
    }
}

/// The reference that a `Reference` refers to.
pub open spec fn referent(s: State, this: Reference) -> Option<Reference> {
    match s.object(this) {
        Some(Object::Instance { class, fields }) => match s.field_ord(class, "referent"@) {
            Some(ord) => match slot_or_top(fields, ord) {
                Slot::Reference(r) => Some(r),
                _ => None,
            },
            None => None,
        },
        _ => None,
    }
}

/// Outcome of `Reference.refersTo0`.
pub open spec fn reference_tested(s: State, this: Option<Reference>, args: Seq<Value>) -> (
    State,
    Result<Value, VmError>,
) {
    match (this, reference_arg(args, 0)) {
        (Some(this), Some(o)) => value(s, truth(referent(s, this) == Some(o))),
        _ => throws(s, "java/lang/NullPointerException"@),
    }
}

/// Outcome of `ClassLoader.findLoadedClass0`.
pub open spec fn loaded_class_found(s: State, args: Seq<Value>) -> (State, Result<Value, VmError>) {
    match text_behind(s, reference_arg(args, 0)) {
        Err(e) => stopped(e),
        Ok(text) => {
            let internal = replaced(text, '.', '/');
            if s.class(internal) is Some {
                mirror_value(s, internal)
            } else {
                value(s, Value::Reference(Reference(None)))
            }
        },
    }
}

/// File name of the library `name` on a platform.
pub open spec fn library_name(platform: Platform, name: Seq<char>) -> Seq<char> {
    match platform {
        Platform::Windows => name + ".dll"@,
        Platform::MacOs => "lib"@ + name + ".dylib"@,
        Platform::Other => "lib"@ + name + ".so"@,
    }
}

/// Outcome of `System.mapLibraryName`.
pub open spec fn library_mapped(s: State, args: Seq<Value>) -> (State, Result<Value, VmError>) {
    match text_behind(s, reference_arg(args, 0)) {
        Err(e) => stopped(e),
        Ok(text) => if utf16(text).len() > 240 {
            throws(s, "java/lang/IllegalArgumentException"@)
        } else {
            reference_outcome(interned(s, library_name(s.vm.platform, text)))
        },
    }
}

/// Outcome of `Thread.currentThread`: the mirror of the thread, an `InternalError` where it has none.
pub open spec fn current_thread(s: State) -> (State, Result<Value, VmError>) {
    match identity(s) {
        (t, Err(e)) => error(t, e),
        (t, Ok(me)) => if me.0 is None {
            throws(t, "java/lang/InternalError"@)
        } else {
            value(t, Value::Reference(me))
        },
    }
}

/// Outcome of `Thread.holdsLock`.
pub open spec fn lock_tested(s: State, args: Seq<Value>) -> (State, Result<Value, VmError>) {
    let obj = match reference_arg(args, 0) {
        Some(r) => r,
        None => Reference(None),
    };
    (
        lock_held(s, obj).0,
        match lock_held(s, obj).1 {
            Ok(b) => Ok(truth(b)),
            Err(e) => Err(e),
        },
    )
}

/// `Thread.sleepNanos0`: no sleep for 0 or less.
pub open spec fn sleep_step(args: Seq<Value>) -> Step {
    match long_arg(args, 0) {
        Some(n) => if n > 0 {
            Step::Sleep(n as u64)
        } else {
            Step::Done(Ok(Value::Void))
        },
        None => Step::Done(Ok(Value::Void)),
    }
}

/// Outcome of a sleep, whether the time is up or not: an interrupt is cleared and thrown.
pub open spec fn slept(s: State) -> (State, Result<Value, VmError>) {
    match identity(s) {
        (s1, Err(e)) => error(s1, e),
        (s1, Ok(me)) => {
            let (s2, interrupted) = interrupt_probed(s1, me);
            if interrupted {
                failed(interrupt_cleared(s2, me), "java/lang/InterruptedException"@)
            } else {
                (s2, Ok(Value::Void))
            }
        },
    }
}

/// The receiver, `null` without one.
pub open spec fn receiver(this: Option<Reference>) -> Reference {
    match this {
        Some(r) => r,
        None => Reference(None),
    }
}

/// `Thread.start0`.
pub open spec fn start_step(s: State, this: Option<Reference>) -> (State, Step) {
    match started(s, receiver(this)) {
        (t, Ok(_)) => (t, Step::Start(receiver(this))),
        (t, Err(e)) => (t, Step::Done(Err(e))),
    }
}

/// `Thread.interrupt0`.
pub open spec fn interrupt_step(s: State, this: Option<Reference>) -> (State, Step) {
    match interrupted(s, receiver(this)) {
        (t, Ok(Some(lock))) => (t, Step::Wake(lock, Wakeup::All)),
        (t, Ok(None)) => (t, Step::Done(Ok(Value::Void))),
        (t, Err(e)) => (t, Step::Done(Err(e))),
    }
}

/// Outcome of `Thread.clearInterruptEvent`.
pub open spec fn event_cleared(s: State) -> (State, Result<Value, VmError>) {
    match event_lowered(s) {
        (t, Ok(_)) => value(t, Value::Void),
        (t, Err(e)) => error(t, e),
    }
}

/// Whether the thread was interrupted, as a sleep asks.
pub open spec fn sleep_probed(s: State) -> (State, Result<bool, VmError>) {
    match identity(s) {
        (t, Err(e)) => (t, Err(e)),
        (t, Ok(me)) => (interrupt_probed(t, me).0, Ok(interrupt_probed(t, me).1)),
    }
}

/// What a native method of `java.lang` comes to.
pub open spec fn outcome(s: State, native: JavaLang, this: Option<Reference>, args: Seq<Value>) -> (State, Step) {
    match native {
        JavaLang::FillInStackTrace => done(trace_filled(s, this)),
        JavaLang::HashCode => done(value(s, Value::Int(identity_hash(this)))),
        JavaLang::IdentityHashCode => done(value(s, Value::Int(identity_hash(reference_arg(args, 0))))),
        JavaLang::Notify => notify_step(s, this, false),
        JavaLang::NotifyAll => notify_step(s, this, true),
        JavaLang::WaitMillis => wait_step(s, this, wait_limit(args)),
        JavaLang::WaitForever => wait_step(s, this, 0),
        JavaLang::GetClass => done(class_got(s, this)),
        JavaLang::ArrayCopy => (s, copy_step(args)),
        JavaLang::CurrentTimeMillis => (s, Step::CurrentTimeMillis),
        JavaLang::NanoTime => (s, Step::NanoTime),
        JavaLang::FloatToRawIntBits => (s, Step::Done(float_bits(args))),
        JavaLang::IntBitsToFloat => (s, Step::Done(float_from_bits(args))),
        JavaLang::DoubleToRawLongBits => (s, Step::Done(double_bits(args))),
        JavaLang::LongBitsToDouble => (s, Step::Done(double_from_bits(args))),
        JavaLang::GetPrimitiveClass => done(primitive_class(s, args)),
        JavaLang::ForName => done(class_for_name(s, args)),
        JavaLang::GetDeclaredFields => done(declared_fields(s, this, args)),
        JavaLang::GetDeclaredMethods => done(declared_methods(s, this, args)),
        JavaLang::GetDeclaredConstructors => done(declared_constructors(s, this, args)),
        JavaLang::DesiredAssertionStatus => done(value(s, Value::Int(0))),
        JavaLang::InitClassName => done(class_named(s, this)),
        JavaLang::IsInstance => done(instance_tested(s, this, args)),
        JavaLang::IsAssignableFrom => done(assignable_tested(s, this, args)),
        JavaLang::GetSuperclass => done(superclass_got(s, this)),
        JavaLang::MaxMemory => done(value(s, Value::Long(i64::MAX))),
        JavaLang::AvailableProcessors => (s, Step::AvailableProcessors),
        JavaLang::InternString => done(string_interned(s, this)),
        JavaLang::InitStackTraceElements => done(trace_elements_filled(s, args)),
        JavaLang::RefersTo => done(reference_tested(s, this, args)),
        JavaLang::FindLoadedClass => done(loaded_class_found(s, args)),
        JavaLang::MapLibraryName => done(library_mapped(s, args)),
        JavaLang::CurrentThread => done(current_thread(s)),
        JavaLang::HoldsLock => done(lock_tested(s, args)),
        JavaLang::Yield => (s, Step::Yield),
        JavaLang::SleepNanos => (s, sleep_step(args)),
        JavaLang::StartThread => start_step(s, this),
        JavaLang::Interrupt => interrupt_step(s, this),
        JavaLang::ClearInterruptEvent => done(event_cleared(s)),
        JavaLang::NextThreadIdOffset => done(value(s, Value::Long(NEXT_THREAD_ID_OFFSET))),
    }
}

fn fill_in_stack_trace(vm: &mut VmThread, this: Option<Reference>) -> (r: Result<Value, VmError>)
    ensures
        (final(vm)@, r) == trace_filled(old(vm)@, this),
{
    match this {
        Some(r) => {
            vm.capture_backtrace(r);
            Ok(Value::Reference(r))
        },
        None => throw(vm, "java/lang/NullPointerException"),
    }
}

fn notify(vm: &mut VmThread, this: Option<Reference>, all: bool) -> (r: NativeStep)
    ensures
        (final(vm)@, r@) == notify_step(old(vm)@, this, all),
{
    match this {
        None => NativeStep::Done(throw(vm, "java/lang/NullPointerException")),
        Some(o) => {
            let woken: Result<Wakeup, VmError> = if all {
                vm.object_notify_all(o)
            } else {
                vm.object_notify(o)
            };
            match woken {
                Ok(w) => NativeStep::Wake(o, w),
                Err(e) => NativeStep::Done(Err(e)),
            }
        },
    }
}

fn wait(vm: &mut VmThread, this: Option<Reference>, millis: i64) -> (r: NativeStep)
    ensures
        (final(vm)@, r@) == wait_step(old(vm)@, this, millis),
{
    match this {
        None => NativeStep::Done(throw(vm, "java/lang/NullPointerException")),
        Some(o) => {
            let begun: Result<WaitTicket, VmError> = vm.object_wait(o, millis);
            match begun {
                Ok(ticket) => NativeStep::Wait(ticket),
                Err(e) => NativeStep::Done(Err(e)),
            }
        },
    }
}

/// Class name of an instance or array.
pub fn runtime_class_of(vm: &VmThread, r: Reference) -> (name: Option<String>)
    ensures
        match name {
            Some(n) => runtime_class(vm@, r) == Some(n@),
            None => runtime_class(vm@, r) is None,
        },
{
    match vm.heap().get(r) {
        Some(Oop::Instance(i)) => Some(i.class_name().to_owned()),
        Some(Oop::Array(a)) => Some(a.class_name().to_owned()),
        _ => None,
    }
}

fn mirror_result(vm: &mut VmThread, name: &str) -> (r: Result<Value, VmError>)
    ensures
        (final(vm)@, r) == mirror_value(old(vm)@, name@),
{
    match vm.intern_class_mirror(name) {
        Ok(r) => Ok(Value::Reference(r)),
        Err(e) => Err(e),
    }
}

fn get_class(vm: &mut VmThread, this: Option<Reference>) -> (r: Result<Value, VmError>)
    ensures
        (final(vm)@, r) == class_got(old(vm)@, this),
{
    match this {
        None => throw(vm, "java/lang/NullPointerException"),
        Some(o) => match runtime_class_of(vm, o) {
            None => throw(vm, "java/lang/InternalError"),
            Some(name) => mirror_result(vm, name.as_str()),
        },
    }
}

fn array_copy(args: &[Value]) -> (r: NativeStep)
    ensures
        r@ == copy_step(args@),
{
    match (
        get_reference(args, 0),
        get_int(args, 1),
        get_reference(args, 2),
        get_int(args, 3),
        get_int(args, 4),
    ) {
        (Some(src), Some(src_pos), Some(dst), Some(dst_pos), Some(len)) => NativeStep::ArrayCopy(
            src,
            src_pos,
            dst,
            dst_pos,
            len,
        ),
        _ => NativeStep::Done(Err(VmError::BadConstant("arraycopy 实参缺失/类型不符"))),
    }
}

fn float_to_raw_int_bits(args: &[Value]) -> (r: Result<Value, VmError>)
    ensures
        r == float_bits(args@),
{
    match get_arg(args, 0) {
        Some(Value::Float(bits)) => Ok(Value::Int(bits as i32)),
        _ => Err(VmError::BadConstant("floatToRawIntBits 实参须为 float")),
    }
}

fn int_bits_to_float(args: &[Value]) -> (r: Result<Value, VmError>)
    ensures
        r == float_from_bits(args@),
{
    match get_arg(args, 0) {
        Some(Value::Int(i)) => Ok(Value::Float(i as u32)),
        _ => Err(VmError::BadConstant("intBitsToFloat 实参须为 int")),
    }
}

fn double_to_raw_long_bits(args: &[Value]) -> (r: Result<Value, VmError>)
    ensures
        r == double_bits(args@),
{
    match get_arg(args, 0) {
        Some(Value::Double(bits)) => Ok(Value::Long(bits as i64)),
        _ => Err(VmError::BadConstant("doubleToRawLongBits 实参须为 double")),
    }
}

fn long_bits_to_double(args: &[Value]) -> (r: Result<Value, VmError>)
    ensures
        r == double_from_bits(args@),
{
    match get_arg(args, 0) {
        Some(Value::Long(l)) => Ok(Value::Double(l as u64)),
        _ => Err(VmError::BadConstant("longBitsToDouble 实参须为 long")),
    }
}

fn get_primitive_class(vm: &mut VmThread, args: &[Value]) -> (r: Result<Value, VmError>)
    ensures
        (final(vm)@, r) == primitive_class(old(vm)@, args@),
{
    match require_text(vm, get_reference(args, 0)) {
        Err(e) => Err(e),
        Ok(text) => if is_primitive_keyword(text.as_str()) {
            mirror_result(vm, text.as_str())
        } else {
            throw(vm, "java/lang/ClassNotFoundException")
        },
    }
}

fn for_name0(vm: &mut VmThread, args: &[Value]) -> (r: Result<Value, VmError>)
    ensures
        (final(vm)@, r) == class_for_name(old(vm)@, args@),
{
    match require_text(vm, get_reference(args, 0)) {
        Err(e) => Err(e),
        Ok(text) => {
            let internal: String = replace_char(text.as_str(), '.', '/');
            if vm.class(internal.as_str()).is_none() {
                return throw(vm, "java/lang/ClassNotFoundException");
            }
            if get_flag(args, 1) {
                match vm.ensure_class_initialized(internal.as_str()) {
                    Ok(_) => {},
                    Err(e) => {
                        return Err(e);
                    },
                }
            }
            mirror_result(vm, internal.as_str())
        },
    }
}

fn init_class_name(vm: &mut VmThread, this: Option<Reference>) -> (r: Result<Value, VmError>)
    ensures
        (final(vm)@, r) == class_named(old(vm)@, this),
{
    match require_mirror(vm, this) {
        Err(e) => Err(e),
        Ok(internal) => {
            let external: String = replace_char(internal.as_str(), '/', '.');
            match intern(vm, external.as_str()) {
                Err(e) => Err(e),
                Ok(text) => {
                    match this {
                        Some(mirror) => vm.set_class_instance_field(mirror, "name", Slot::Reference(text)),
                        None => {},
                    }
                    Ok(Value::Reference(text))
                },
            }
        },
    }
}

fn truth_value(b: bool) -> (r: Value)
    ensures
        r == truth(b),
{
    Value::Int(
        if b {
            1
        } else {
            0
        },
    )
}

fn is_subtype(vm: &VmThread, sub: &str, sup: &str) -> (r: bool)
    ensures
        r == subtype_in(vm@, sub@, sup@),
{
    match vm.registry() {
        Some(reg) => reg.is_instance(sub, sup),
        None => false,
    }
}

fn is_instance(vm: &mut VmThread, this: Option<Reference>, args: &[Value]) -> (r: Result<Value, VmError>)
    ensures
        (final(vm)@, r) == instance_tested(old(vm)@, this, args@),
{
    match require_mirror(vm, this) {
        Err(e) => Err(e),
        Ok(internal) => match get_reference(args, 0) {
            Some(obj) => match runtime_class_of(vm, obj) {
                Some(class) => Ok(truth_value(is_subtype(vm, class.as_str(), internal.as_str()))),
                None => Ok(truth_value(false)),
            },
            None => Ok(truth_value(false)),
        },
    }
}

fn is_assignable_from(vm: &mut VmThread, this: Option<Reference>, args: &[Value]) -> (r: Result<Value, VmError>)
    ensures
        (final(vm)@, r) == assignable_tested(old(vm)@, this, args@),
{
    match require_mirror(vm, this) {
        Err(e) => Err(e),
        Ok(internal) => match get_reference(args, 0) {
            None => throw(vm, "java/lang/NullPointerException"),
            Some(other) => match vm.mirror_internal_name(other) {
                None => throw(vm, "java/lang/NullPointerException"),
                Some(class) => Ok(truth_value(is_subtype(vm, class.as_str(), internal.as_str()))),
            },
        },
    }
}

fn superclass_of(vm: &VmThread, internal: &str) -> (r: Option<String>)
    ensures
        match r {
            Some(n) => superclass_name(vm@, internal@) == Some(n@),
            None => superclass_name(vm@, internal@) is None,
        },
{
    if starts_with_char(internal, '[') {
        return Some("java/lang/Object".to_owned());
    }
    match vm.class(internal) {
        Some(c) => match &c.super_name {
            Some(s) => Some(s.clone()),
            None => None,
        },
        None => None,
    }
}

fn get_superclass(vm: &mut VmThread, this: Option<Reference>) -> (r: Result<Value, VmError>)
    ensures
        (final(vm)@, r) == superclass_got(old(vm)@, this),
{
    match require_mirror(vm, this) {
        Err(e) => Err(e),
        Ok(internal) => match superclass_of(vm, internal.as_str()) {
            Some(name) => mirror_result(vm, name.as_str()),
            None => Ok(Value::Reference(Reference(None))),
        },
    }
}

fn intern_string(vm: &mut VmThread, this: Option<Reference>) -> (r: Result<Value, VmError>)
    ensures
        (final(vm)@, r) == string_interned(old(vm)@, this),
{
    match require_text(vm, this) {
        Err(e) => Err(e),
        Ok(text) => match intern(vm, text.as_str()) {
            Ok(r) => Ok(Value::Reference(r)),
            Err(e) => Err(e),
        },
    }
}

fn fill_trace_elements(vm: &mut VmThread, args: &[Value]) -> (r: Result<Value, VmError>)
    ensures
        (final(vm)@, r) == trace_elements_filled(old(vm)@, args@),
{
    match (get_reference(args, 0), get_reference(args, 1), get_int(args, 2)) {
        (Some(elements), Some(backtrace), Some(depth)) => match init_stack_trace_elements(
            vm,
            elements,
            backtrace,
            depth,
        ) {
            Ok(_) => Ok(Value::Void),
            Err(e) => Err(e),
        },
        _ => Err(VmError::BadConstant("initStackTraceElements 实参缺失/类型不符")),
    }
}

fn referent_of(vm: &VmThread, this: Reference) -> (r: Option<Reference>)
    ensures
        r == referent(vm@, this),
{
    match vm.heap().get(this) {
        Some(Oop::Instance(i)) => match vm.field_ord(i.class_name(), "referent") {
            Some(ord) => match i.field(ord) {
                Slot::Reference(r) => Some(r),
                _ => None,
            },
            None => None,
        },
        _ => None,
    }
}

fn refers_to0(vm: &mut VmThread, this: Option<Reference>, args: &[Value]) -> (r: Result<Value, VmError>)
    ensures
        (final(vm)@, r) == reference_tested(old(vm)@, this, args@),
{
    match (this, get_reference(args, 0)) {
        (Some(this), Some(o)) => Ok(
            match referent_of(vm, this) {
                Some(r) => truth_value(r == o),
                None => truth_value(false),
            },
        ),
        _ => throw(vm, "java/lang/NullPointerException"),
    }
}

/// `ClassLoader.findLoadedClass0`: the mirror of a loaded class, `null` if it is not loaded. Loads and
/// initialises nothing.
pub fn find_loaded_class0(vm: &mut VmThread, args: &[Value]) -> (r: Result<Value, VmError>)
    ensures
        (final(vm)@, r) == loaded_class_found(old(vm)@, args@),
{
    match require_text(vm, get_reference(args, 0)) {
        Err(e) => Err(e),
        Ok(text) => {
            let internal: String = replace_char(text.as_str(), '.', '/');
            if vm.class(internal.as_str()).is_some() {
                mirror_result(vm, internal.as_str())
            } else {
                Ok(Value::Reference(Reference(None)))
            }
        },
    }
}

fn platform_library_name(platform: Platform, name: &str) -> (r: String)
    ensures
        r@ == library_name(platform, name@),
{
    match platform {
        Platform::Windows => join(name, ".dll"),
        Platform::MacOs => join(join("lib", name).as_str(), ".dylib"),
        Platform::Other => join(join("lib", name).as_str(), ".so"),
    }
}

/// `System.mapLibraryName`: the file name of a library on this platform. A name of more than 240 UTF-16
/// units is refused.
pub fn map_library_name(vm: &mut VmThread, args: &[Value]) -> (r: Result<Value, VmError>)
    ensures
        (final(vm)@, r) == library_mapped(old(vm)@, args@),
{
    match require_text(vm, get_reference(args, 0)) {
        Err(e) => Err(e),
        Ok(text) => {
            if utf16_len(text.as_str()) > 240 {
                return throw(vm, "java/lang/IllegalArgumentException");
            }
            let mapped: String = platform_library_name(vm.platform(), text.as_str());
            match intern(vm, mapped.as_str()) {
                Ok(r) => Ok(Value::Reference(r)),
                Err(e) => Err(e),
            }
        },
    }
}

fn get_current_thread(vm: &mut VmThread) -> (r: Result<Value, VmError>)
    ensures
        (final(vm)@, r) == current_thread(old(vm)@),
{
    let me: Reference = match vm.main_thread() {
        Ok(r) => r,
        Err(e) => {
            return Err(e);
        },
    };
    if me.is_null() {
        throw(vm, "java/lang/InternalError")
    } else {
        Ok(Value::Reference(me))
    }
}

fn holds_lock(vm: &mut VmThread, args: &[Value]) -> (r: Result<Value, VmError>)
    ensures
        (final(vm)@, r) == lock_tested(old(vm)@, args@),
{
    let obj: Reference = match get_reference(args, 0) {
        Some(r) => r,
        None => Reference(None),
    };
    match vm.holds_lock(obj) {
        Ok(b) => Ok(truth_value(b)),
        Err(e) => Err(e),
    }
}

fn sleep_nanos0(args: &[Value]) -> (r: NativeStep)
    ensures
        r@ == sleep_step(args@),
{
    match get_long(args, 0) {
        Some(n) => if n > 0 {
            NativeStep::Sleep(n as u64)
        } else {
            NativeStep::Done(Ok(Value::Void))
        },
        None => NativeStep::Done(Ok(Value::Void)),
    }
}

/// `Thread.sleepNanos0`, whether the sleep has to end before its time.
pub fn sleep_interrupted(vm: &mut VmThread) -> (r: Result<bool, VmError>)
    ensures
        (final(vm)@, r) == sleep_probed(old(vm)@),
{
    let me: Reference = match vm.main_thread() {
        Ok(r) => r,
        Err(e) => {
            return Err(e);
        },
    };
    Ok(vm.interrupt_flag(me))
}

/// `Thread.sleepNanos0`, after the sleep: an interrupt is cleared and thrown as `InterruptedException`.
pub fn finish_sleep(vm: &mut VmThread) -> (r: Result<Value, VmError>)
    ensures
        (final(vm)@, r) == slept(old(vm)@),
{
    let me: Reference = match vm.main_thread() {
        Ok(r) => r,
        Err(e) => {
            return Err(e);
        },
    };
    if vm.interrupt_flag(me) {
        vm.clear_interrupt_status(me);
        return throw(vm, "java/lang/InterruptedException");
    }
    Ok(Value::Void)
}

/// A clock reading, `None` if the clock is before its origin, as a `long`.
pub fn clock_value(elapsed: Option<u128>) -> (r: Value)
    ensures
        r == Value::Long(
            match elapsed {
                Some(n) => n as i64,
                None => 0,
            },
        ),
{
    match elapsed {
        Some(n) => Value::Long(n as i64),
        None => Value::Long(0),
    }
}

/// `Runtime.availableProcessors` for the number that was counted: 1 if it is unknown or no `int`.
pub fn available_processors_value(counted: Option<usize>) -> (r: Value)
    ensures
        r == Value::Int(
            match counted {
                Some(n) => if n <= i32::MAX {
                    n as i32
                } else {
                    1
                },
                None => 1,
            },
        ),
{
    match counted {
        Some(n) => if n <= i32::MAX as usize {
            Value::Int(n as i32)
        } else {
            Value::Int(1)
        },
        None => Value::Int(1),
    }
}

fn start0(vm: &mut VmThread, this: Option<Reference>) -> (r: NativeStep)
    ensures
        (final(vm)@, r@) == start_step(old(vm)@, this),
{
    let t: Reference = match this {
        Some(t) => t,
        None => Reference(None),
    };
    match vm.start_thread(t) {
        Ok(_) => NativeStep::Start(t),
        Err(e) => NativeStep::Done(Err(e)),
    }
}

fn interrupt0(vm: &mut VmThread, this: Option<Reference>) -> (r: NativeStep)
    ensures
        (final(vm)@, r@) == interrupt_step(old(vm)@, this),
{
    let t: Reference = match this {
        Some(t) => t,
        None => Reference(None),
    };
    match vm.interrupt_thread(t) {
        Ok(Some(lock)) => NativeStep::Wake(lock, Wakeup::All),
        Ok(None) => NativeStep::Done(Ok(Value::Void)),
        Err(e) => NativeStep::Done(Err(e)),
    }
}

fn millis_limit(args: &[Value]) -> (r: i64)
    ensures
        r == wait_limit(args@),
{
    match get_long(args, 0) {
        Some(m) => m,
        None => 0,
    }
}

/// Runs a native method of `java.lang`.
pub fn run(vm: &mut VmThread, native: JavaLang, this: Option<Reference>, args: &[Value]) -> (r: NativeStep)
    ensures
        (final(vm)@, r@) == outcome(old(vm)@, native, this, args@),
{
    match native {
        JavaLang::FillInStackTrace => NativeStep::Done(fill_in_stack_trace(vm, this)),
        JavaLang::HashCode => NativeStep::Done(Ok(Value::Int(identity_hash_code(this)))),
        JavaLang::IdentityHashCode => NativeStep::Done(
            Ok(Value::Int(identity_hash_code(get_reference(args, 0)))),
        ),
        JavaLang::Notify => notify(vm, this, false),
        JavaLang::NotifyAll => notify(vm, this, true),
        JavaLang::WaitMillis => wait(vm, this, millis_limit(args)),
        JavaLang::WaitForever => wait(vm, this, 0),
        JavaLang::GetClass => NativeStep::Done(get_class(vm, this)),
        JavaLang::ArrayCopy => array_copy(args),
        JavaLang::CurrentTimeMillis => NativeStep::CurrentTimeMillis,
        JavaLang::NanoTime => NativeStep::NanoTime,
        JavaLang::FloatToRawIntBits => NativeStep::Done(float_to_raw_int_bits(args)),
        JavaLang::IntBitsToFloat => NativeStep::Done(int_bits_to_float(args)),
        JavaLang::DoubleToRawLongBits => NativeStep::Done(double_to_raw_long_bits(args)),
        JavaLang::LongBitsToDouble => NativeStep::Done(long_bits_to_double(args)),
        JavaLang::GetPrimitiveClass => NativeStep::Done(get_primitive_class(vm, args)),
        JavaLang::ForName => NativeStep::Done(for_name0(vm, args)),
        JavaLang::GetDeclaredFields => NativeStep::Done(get_declared_fields0(vm, this, args)),
        JavaLang::GetDeclaredMethods => NativeStep::Done(get_declared_methods0(vm, this, args)),
        JavaLang::GetDeclaredConstructors => NativeStep::Done(get_declared_constructors0(vm, this, args)),
        JavaLang::DesiredAssertionStatus => NativeStep::Done(Ok(Value::Int(0))),
        JavaLang::InitClassName => NativeStep::Done(init_class_name(vm, this)),
        JavaLang::IsInstance => NativeStep::Done(is_instance(vm, this, args)),
        JavaLang::IsAssignableFrom => NativeStep::Done(is_assignable_from(vm, this, args)),
        JavaLang::GetSuperclass => NativeStep::Done(get_superclass(vm, this)),
        JavaLang::MaxMemory => NativeStep::Done(Ok(Value::Long(i64::MAX))),
        JavaLang::AvailableProcessors => NativeStep::AvailableProcessors,
        JavaLang::InternString => NativeStep::Done(intern_string(vm, this)),
        JavaLang::InitStackTraceElements => NativeStep::Done(fill_trace_elements(vm, args)),
        JavaLang::RefersTo => NativeStep::Done(refers_to0(vm, this, args)),
        JavaLang::FindLoadedClass => NativeStep::Done(find_loaded_class0(vm, args)),
        JavaLang::MapLibraryName => NativeStep::Done(map_library_name(vm, args)),
        JavaLang::CurrentThread => NativeStep::Done(get_current_thread(vm)),
        JavaLang::HoldsLock => NativeStep::Done(holds_lock(vm, args)),
        JavaLang::Yield => NativeStep::Yield,
        JavaLang::SleepNanos => sleep_nanos0(args),
        JavaLang::StartThread => start0(vm, this),
        JavaLang::Interrupt => interrupt0(vm, this),
        JavaLang::ClearInterruptEvent => {
            NativeStep::Done(
                match vm.clear_interrupt_event() {
                    Ok(_) => Ok(Value::Void),
                    Err(e) => Err(e),
                },
            )
        },
        JavaLang::NextThreadIdOffset => NativeStep::Done(Ok(Value::Long(NEXT_THREAD_ID_OFFSET))),
    }
}

/// The bindings of a registry after the native methods of `java.lang` were added.
pub open spec fn registered(m: Map<Key, Native>) -> Map<Key, Native> {
    m.insert(
        ("java/lang/Throwable"@, "fillInStackTrace"@, "(I)Ljava/lang/Throwable;"@),
        Native::JavaLang(JavaLang::FillInStackTrace),
    ).insert(
        ("java/lang/Object"@, "hashCode"@, "()I"@),
        Native::JavaLang(JavaLang::HashCode),
    ).insert(
        ("java/lang/System"@, "identityHashCode"@, "(Ljava/lang/Object;)I"@),
        Native::JavaLang(JavaLang::IdentityHashCode),
    ).insert(
        ("java/lang/Object"@, "notify"@, "()V"@),
        Native::JavaLang(JavaLang::Notify),
    ).insert(
        ("java/lang/Object"@, "notifyAll"@, "()V"@),
        Native::JavaLang(JavaLang::NotifyAll),
    ).insert(
        ("java/lang/Object"@, "wait0"@, "(J)V"@),
        Native::JavaLang(JavaLang::WaitMillis),
    ).insert(
        ("java/lang/Object"@, "wait"@, "()V"@),
        Native::JavaLang(JavaLang::WaitForever),
    ).insert(
        ("java/lang/Object"@, "wait"@, "(J)V"@),
        Native::JavaLang(JavaLang::WaitMillis),
    ).insert(
        ("java/lang/Object"@, "wait"@, "(JI)V"@),
        Native::JavaLang(JavaLang::WaitMillis),
    ).insert(
        ("java/lang/Object"@, "getClass"@, "()Ljava/lang/Class;"@),
        Native::JavaLang(JavaLang::GetClass),
    ).insert(
        ("java/lang/System"@, "arraycopy"@, "(Ljava/lang/Object;ILjava/lang/Object;II)V"@),
        Native::JavaLang(JavaLang::ArrayCopy),
    ).insert(
        ("java/lang/System"@, "currentTimeMillis"@, "()J"@),
        Native::JavaLang(JavaLang::CurrentTimeMillis),
    ).insert(
        ("java/lang/System"@, "nanoTime"@, "()J"@),
        Native::JavaLang(JavaLang::NanoTime),
    ).insert(
        ("java/lang/Float"@, "floatToRawIntBits"@, "(F)I"@),
        Native::JavaLang(JavaLang::FloatToRawIntBits),
    ).insert(
        ("java/lang/Float"@, "intBitsToFloat"@, "(I)F"@),
        Native::JavaLang(JavaLang::IntBitsToFloat),
    ).insert(
        ("java/lang/Double"@, "doubleToRawLongBits"@, "(D)J"@),
        Native::JavaLang(JavaLang::DoubleToRawLongBits),
    ).insert(
        ("java/lang/Double"@, "longBitsToDouble"@, "(J)D"@),
        Native::JavaLang(JavaLang::LongBitsToDouble),
    ).insert(
        ("java/lang/Class"@, "getPrimitiveClass"@, "(Ljava/lang/String;)Ljava/lang/Class;"@),
        Native::JavaLang(JavaLang::GetPrimitiveClass),
    ).insert(
        ("java/lang/Class"@, "forName0"@, "(Ljava/lang/String;ZLjava/lang/ClassLoader;Ljava/lang/Class;)Ljava/lang/Class;"@),
        Native::JavaLang(JavaLang::ForName),
    ).insert(
        ("java/lang/Class"@, "getDeclaredFields0"@, "(Z)[Ljava/lang/reflect/Field;"@),
        Native::JavaLang(JavaLang::GetDeclaredFields),
    ).insert(
        ("java/lang/Class"@, "getDeclaredMethods0"@, "(Z)[Ljava/lang/reflect/Method;"@),
        Native::JavaLang(JavaLang::GetDeclaredMethods),
    ).insert(
        ("java/lang/Class"@, "getDeclaredConstructors0"@, "(Z)[Ljava/lang/reflect/Constructor;"@),
        Native::JavaLang(JavaLang::GetDeclaredConstructors),
    ).insert(
        ("java/lang/Class"@, "desiredAssertionStatus0"@, "(Ljava/lang/Class;)Z"@),
        Native::JavaLang(JavaLang::DesiredAssertionStatus),
    ).insert(
        ("java/lang/Class"@, "initClassName"@, "()Ljava/lang/String;"@),
        Native::JavaLang(JavaLang::InitClassName),
    ).insert(
        ("java/lang/Class"@, "isInstance"@, "(Ljava/lang/Object;)Z"@),
        Native::JavaLang(JavaLang::IsInstance),
    ).insert(
        ("java/lang/Class"@, "isAssignableFrom"@, "(Ljava/lang/Class;)Z"@),
        Native::JavaLang(JavaLang::IsAssignableFrom),
    ).insert(
        ("java/lang/Class"@, "getSuperclass"@, "()Ljava/lang/Class;"@),
        Native::JavaLang(JavaLang::GetSuperclass),
    ).insert(
        ("java/lang/Runtime"@, "maxMemory"@, "()J"@),
        Native::JavaLang(JavaLang::MaxMemory),
    ).insert(
        ("java/lang/Runtime"@, "availableProcessors"@, "()I"@),
        Native::JavaLang(JavaLang::AvailableProcessors),
    ).insert(
        ("java/lang/String"@, "intern"@, "()Ljava/lang/String;"@),
        Native::JavaLang(JavaLang::InternString),
    ).insert(
        ("java/lang/StackTraceElement"@, "initStackTraceElements"@, "([Ljava/lang/StackTraceElement;Ljava/lang/Object;I)V"@),
        Native::JavaLang(JavaLang::InitStackTraceElements),
    ).insert(
        ("java/lang/ref/Reference"@, "refersTo0"@, "(Ljava/lang/Object;)Z"@),
        Native::JavaLang(JavaLang::RefersTo),
    ).insert(
        ("java/lang/ClassLoader"@, "findLoadedClass0"@, "(Ljava/lang/String;)Ljava/lang/Class;"@),
        Native::JavaLang(JavaLang::FindLoadedClass),
    ).insert(
        ("java/lang/System"@, "mapLibraryName"@, "(Ljava/lang/String;)Ljava/lang/String;"@),
        Native::JavaLang(JavaLang::MapLibraryName),
    ).insert(
        ("java/lang/Thread"@, "currentThread"@, "()Ljava/lang/Thread;"@),
        Native::JavaLang(JavaLang::CurrentThread),
    ).insert(
        ("java/lang/Thread"@, "holdsLock"@, "(Ljava/lang/Object;)Z"@),
        Native::JavaLang(JavaLang::HoldsLock),
    ).insert(
        ("java/lang/Thread"@, "yield0"@, "()V"@),
        Native::JavaLang(JavaLang::Yield),
    ).insert(
        ("java/lang/Thread"@, "sleepNanos0"@, "(J)V"@),
        Native::JavaLang(JavaLang::SleepNanos),
    ).insert(
        ("java/lang/Thread"@, "start0"@, "()V"@),
        Native::JavaLang(JavaLang::StartThread),
    ).insert(
        ("java/lang/Thread"@, "interrupt0"@, "()V"@),
        Native::JavaLang(JavaLang::Interrupt),
    ).insert(
        ("java/lang/Thread"@, "clearInterruptEvent"@, "()V"@),
        Native::JavaLang(JavaLang::ClearInterruptEvent),
    ).insert(
        ("java/lang/Thread"@, "getNextThreadIdOffset"@, "()J"@),
        Native::JavaLang(JavaLang::NextThreadIdOffset),
    )
}

/// Binds the native methods of `java.lang`.
pub fn register(reg: &mut NativeRegistry<Native>)
    ensures
        final(reg)@ == registered(old(reg)@),
{
    reg.register(
        "java/lang/Throwable",
        "fillInStackTrace",
        "(I)Ljava/lang/Throwable;",
        Native::JavaLang(JavaLang::FillInStackTrace),
    );
    reg.register(
        "java/lang/Object",
        "hashCode",
        "()I",
        Native::JavaLang(JavaLang::HashCode),
    );
    reg.register(
        "java/lang/System",
        "identityHashCode",
        "(Ljava/lang/Object;)I",
        Native::JavaLang(JavaLang::IdentityHashCode),
    );
    reg.register(
        "java/lang/Object",
        "notify",
        "()V",
        Native::JavaLang(JavaLang::Notify),
    );
    reg.register(
        "java/lang/Object",
        "notifyAll",
        "()V",
        Native::JavaLang(JavaLang::NotifyAll),
    );
    reg.register(
        "java/lang/Object",
        "wait0",
        "(J)V",
        Native::JavaLang(JavaLang::WaitMillis),
    );
    reg.register(
        "java/lang/Object",
        "wait",
        "()V",
        Native::JavaLang(JavaLang::WaitForever),
    );
    reg.register(
        "java/lang/Object",
        "wait",
        "(J)V",
        Native::JavaLang(JavaLang::WaitMillis),
    );
    reg.register(
        "java/lang/Object",
        "wait",
        "(JI)V",
        Native::JavaLang(JavaLang::WaitMillis),
    );
    reg.register(
        "java/lang/Object",
        "getClass",
        "()Ljava/lang/Class;",
        Native::JavaLang(JavaLang::GetClass),
    );
    reg.register(
        "java/lang/System",
        "arraycopy",
        "(Ljava/lang/Object;ILjava/lang/Object;II)V",
        Native::JavaLang(JavaLang::ArrayCopy),
    );
    reg.register(
        "java/lang/System",
        "currentTimeMillis",
        "()J",
        Native::JavaLang(JavaLang::CurrentTimeMillis),
    );
    reg.register(
        "java/lang/System",
        "nanoTime",
        "()J",
        Native::JavaLang(JavaLang::NanoTime),
    );
    reg.register(
        "java/lang/Float",
        "floatToRawIntBits",
        "(F)I",
        Native::JavaLang(JavaLang::FloatToRawIntBits),
    );
    reg.register(
        "java/lang/Float",
        "intBitsToFloat",
        "(I)F",
        Native::JavaLang(JavaLang::IntBitsToFloat),
    );
    reg.register(
        "java/lang/Double",
        "doubleToRawLongBits",
        "(D)J",
        Native::JavaLang(JavaLang::DoubleToRawLongBits),
    );
    reg.register(
        "java/lang/Double",
        "longBitsToDouble",
        "(J)D",
        Native::JavaLang(JavaLang::LongBitsToDouble),
    );
    reg.register(
        "java/lang/Class",
        "getPrimitiveClass",
        "(Ljava/lang/String;)Ljava/lang/Class;",
        Native::JavaLang(JavaLang::GetPrimitiveClass),
    );
    reg.register(
        "java/lang/Class",
        "forName0",
        "(Ljava/lang/String;ZLjava/lang/ClassLoader;Ljava/lang/Class;)Ljava/lang/Class;",
        Native::JavaLang(JavaLang::ForName),
    );
    reg.register(
        "java/lang/Class",
        "getDeclaredFields0",
        "(Z)[Ljava/lang/reflect/Field;",
        Native::JavaLang(JavaLang::GetDeclaredFields),
    );
    reg.register(
        "java/lang/Class",
        "getDeclaredMethods0",
        "(Z)[Ljava/lang/reflect/Method;",
        Native::JavaLang(JavaLang::GetDeclaredMethods),
    );
    reg.register(
        "java/lang/Class",
        "getDeclaredConstructors0",
        "(Z)[Ljava/lang/reflect/Constructor;",
        Native::JavaLang(JavaLang::GetDeclaredConstructors),
    );
    reg.register(
        "java/lang/Class",
        "desiredAssertionStatus0",
        "(Ljava/lang/Class;)Z",
        Native::JavaLang(JavaLang::DesiredAssertionStatus),
    );
    reg.register(
        "java/lang/Class",
        "initClassName",
        "()Ljava/lang/String;",
        Native::JavaLang(JavaLang::InitClassName),
    );
    reg.register(
        "java/lang/Class",
        "isInstance",
        "(Ljava/lang/Object;)Z",
        Native::JavaLang(JavaLang::IsInstance),
    );
    reg.register(
        "java/lang/Class",
        "isAssignableFrom",
        "(Ljava/lang/Class;)Z",
        Native::JavaLang(JavaLang::IsAssignableFrom),
    );
    reg.register(
        "java/lang/Class",
        "getSuperclass",
        "()Ljava/lang/Class;",
        Native::JavaLang(JavaLang::GetSuperclass),
    );
    reg.register(
        "java/lang/Runtime",
        "maxMemory",
        "()J",
        Native::JavaLang(JavaLang::MaxMemory),
    );
    reg.register(
        "java/lang/Runtime",
        "availableProcessors",
        "()I",
        Native::JavaLang(JavaLang::AvailableProcessors),
    );
    reg.register(
        "java/lang/String",
        "intern",
        "()Ljava/lang/String;",
        Native::JavaLang(JavaLang::InternString),
    );
    reg.register(
        "java/lang/StackTraceElement",
        "initStackTraceElements",
        "([Ljava/lang/StackTraceElement;Ljava/lang/Object;I)V",
        Native::JavaLang(JavaLang::InitStackTraceElements),
    );
    reg.register(
        "java/lang/ref/Reference",
        "refersTo0",
        "(Ljava/lang/Object;)Z",
        Native::JavaLang(JavaLang::RefersTo),
    );
    reg.register(
        "java/lang/ClassLoader",
        "findLoadedClass0",
        "(Ljava/lang/String;)Ljava/lang/Class;",
        Native::JavaLang(JavaLang::FindLoadedClass),
    );
    reg.register(
        "java/lang/System",
        "mapLibraryName",
        "(Ljava/lang/String;)Ljava/lang/String;",
        Native::JavaLang(JavaLang::MapLibraryName),
    );
    reg.register(
        "java/lang/Thread",
        "currentThread",
        "()Ljava/lang/Thread;",
        Native::JavaLang(JavaLang::CurrentThread),
    );
    reg.register(
        "java/lang/Thread",
        "holdsLock",
        "(Ljava/lang/Object;)Z",
        Native::JavaLang(JavaLang::HoldsLock),
    );
    reg.register(
        "java/lang/Thread",
        "yield0",
        "()V",
        Native::JavaLang(JavaLang::Yield),
    );
    reg.register(
        "java/lang/Thread",
        "sleepNanos0",
        "(J)V",
        Native::JavaLang(JavaLang::SleepNanos),
    );
    reg.register(
        "java/lang/Thread",
        "start0",
        "()V",
        Native::JavaLang(JavaLang::StartThread),
    );
    reg.register(
        "java/lang/Thread",
        "interrupt0",
        "()V",
        Native::JavaLang(JavaLang::Interrupt),
    );
    reg.register(
        "java/lang/Thread",
        "clearInterruptEvent",
        "()V",
        Native::JavaLang(JavaLang::ClearInterruptEvent),
    );
    reg.register(
        "java/lang/Thread",
        "getNextThreadIdOffset",
        "()J",
        Native::JavaLang(JavaLang::NextThreadIdOffset),
    );
}

/// The raw-bits conversions undo each other, for every bit pattern.
pub proof fn law_raw_bits_round_trip(bits: u32, i: i32, wide: u64, l: i64)
    ensures
        float_from_bits(seq![float_bits(seq![Value::Float(bits)])->Ok_0]) == Ok::<Value, VmError>(Value::Float(bits)),
        float_bits(seq![float_from_bits(seq![Value::Int(i)])->Ok_0]) == Ok::<Value, VmError>(Value::Int(i)),
        double_from_bits(seq![double_bits(seq![Value::Double(wide)])->Ok_0]) == Ok::<Value, VmError>(
            Value::Double(wide),
        ),
        double_bits(seq![double_from_bits(seq![Value::Long(l)])->Ok_0]) == Ok::<Value, VmError>(Value::Long(l)),
{
    assert((bits as i32) as u32 == bits) by (bit_vector);
    assert((i as u32) as i32 == i) by (bit_vector);
    assert((wide as i64) as u64 == wide) by (bit_vector);
    assert((l as u64) as i64 == l) by (bit_vector);
}

/// The identity hash of an object is its hash code, and two objects never share it.
pub proof fn law_identity_hash(s: State, a: Reference, b: Reference, args: Seq<Value>)
    requires
        a.0 is Some,
        b.0 is Some,
        a != b,
    ensures
        outcome(s, JavaLang::IdentityHashCode, None, seq![Value::Reference(a)]) == outcome(
            s,
            JavaLang::HashCode,
            Some(a),
            args,
        ),
        identity_hash(Some(a)) != identity_hash(Some(b)),
        outcome(s, JavaLang::IdentityHashCode, None, seq![Value::Reference(Reference(None))]) == (
            s,
            Step::Done(Ok(Value::Int(0))),
        ),
{
    let x: u32 = a.0->0;
    let y: u32 = b.0->0;
    assert(x != y ==> x as i32 != y as i32) by (bit_vector);
}

} // verus!
