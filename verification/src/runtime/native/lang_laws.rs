//! What the native methods of `java.lang` answer.

use vstd::prelude::*;

use super::java_lang::{outcome, sleep_probed, slept, JavaLang};
use super::step::Step;
use crate::metadata::registry_laws::law_listed_facts;
use crate::runtime::oop::{slot_or_top, Object};
use crate::runtime::slot::{Reference, Slot};
use crate::runtime::string::{interned, text_at};
use crate::runtime::text::replaced;
use crate::runtime::utf16::utf16;
use crate::runtime::value::{Value, VmError};
use crate::runtime::vm::class_mirrors::name_of;
use crate::runtime::vm::exceptions::{info_of, thrown};
use crate::runtime::vm::mirrors::mirror_asked;
use crate::runtime::vm::monitors::{lock_held, wait_begun};
use crate::runtime::vm::threads::{own_thread, started, thread_pending};
use crate::runtime::vm::{Platform, State};

verus! {

/// Outcome of a native method that is a value, without change.
pub open spec fn plain(s: State, v: Value) -> (State, Step) {
    (s, Step::Done(Ok::<Value, VmError>(v)))
}

/// Outcome of a native method that is an exception of `class`.
pub open spec fn raising(s: State, class: Seq<char>) -> (State, Step) {
    (thrown(s, class).0, Step::Done(Err::<Value, VmError>(VmError::ThrownException(thrown(s, class).1))))
}

/// Outcome of a native method that is a reference or an error.
pub open spec fn giving(o: (State, Result<Reference, VmError>)) -> (State, Step) {
    (
        o.0,
        Step::Done(
            match o.1 {
                Ok(r) => Ok(Value::Reference(r)),
                Err(e) => Err(e),
            },
        ),
    )
}

/// Whether `sub` is `sup` or a loaded class that lists `sup` among its supertypes.
pub open spec fn below(s: State, sub: Seq<char>, sup: Seq<char>) -> bool {
    s.vm.registry is Some && (sub == sup || (s.class(sub) matches Some(c) && exists|i: int|
        0 <= i < c.supertypes@.len() && (#[trigger] c.supertypes@[i])@ == sup))
}

/// `getClass` gives the mirror of the class that an instance or array was made of.
pub proof fn law_class_of_an_object(s: State, r: Reference, class: Seq<char>, args: Seq<Value>)
    ensures
        s.object(r) matches Some(Object::Instance { class: c, .. }) ==> outcome(s, JavaLang::GetClass, Some(r), args)
            == giving(mirror_asked(s, c)),
        s.object(r) matches Some(Object::Array { class: c, .. }) ==> outcome(s, JavaLang::GetClass, Some(r), args)
            == giving(mirror_asked(s, c)),
        outcome(s, JavaLang::GetClass, None, args) == raising(s, "java/lang/NullPointerException"@),
{
}

/// A class is found by its name with dots, if it is loaded: `forName` throws a `ClassNotFoundException` if it is not,
/// `findLoadedClass` gives `null`. `forName` has a static initializer run first exactly if that is asked for and the
/// class has not been initialized.
pub proof fn law_classes_by_name(s: State, name: Reference, text: Seq<char>, class: Seq<char>, wanted: i32)
    requires
        text_at(s, name) == Ok::<Option<Seq<char>>, VmError>(Some(text)),
        class.len() == text.len(),
        forall|i: int|
            0 <= i < text.len() ==> #[trigger] class[i] == if text[i] == '.' {
                '/'
            } else {
                text[i]
            },
    ensures
        ({
            let args = seq![Value::Reference(name), Value::Int(wanted)];
            let named = outcome(s, JavaLang::ForName, None, args);
            let found = outcome(s, JavaLang::FindLoadedClass, None, args);
            &&& s.class(class) is None ==> named == raising(s, "java/lang/ClassNotFoundException"@) && found == plain(
                s,
                Value::Reference(Reference(None)),
            )
            &&& s.class(class) is Some ==> {
                let at = s.vm.registry->0.index_of(class)->0;
                &&& found == giving(mirror_asked(s, class))
                &&& wanted == 0 || s.vm.initialized.contains_key(class) ==> named == giving(mirror_asked(s, class))
                &&& wanted != 0 && !s.vm.initialized.contains_key(class) ==> named == (
                    s,
                    Step::Done(Err::<Value, VmError>(VmError::InitializerPending(at as usize))),
                )
            }
        }),
{
    assert(replaced(text, '.', '/') =~= class);
    if s.class(class) is Some {
        crate::metadata::registry_laws::law_found_classes(s.vm.registry->0, class);
    }
}

/// The primitive types, and `void`, have mirrors under their keywords; for any other name there is a
/// `ClassNotFoundException`.
pub proof fn law_primitive_classes(s: State, name: Reference, text: Seq<char>)
    requires
        text_at(s, name) == Ok::<Option<Seq<char>>, VmError>(Some(text)),
    ensures
        ({
            let found = outcome(s, JavaLang::GetPrimitiveClass, None, seq![Value::Reference(name)]);
            if text == "boolean"@ || text == "byte"@ || text == "char"@ || text == "short"@ || text == "int"@ || text
                == "long"@ || text == "float"@ || text == "double"@ || text == "void"@ {
                found == giving(mirror_asked(s, text))
            } else {
                found == raising(s, "java/lang/ClassNotFoundException"@)
            }
        }),
{
}

/// `isInstance` asks whether the class of the object, `isAssignableFrom` whether the other class, is the class itself or
/// lists it among its supertypes, in this direction. `null` is an instance of nothing.
pub proof fn law_class_tests(s: State, mirror: Reference, class: Seq<char>, obj: Reference, other: Reference, sub: Seq<char>)
    requires
        name_of(s.vm.class_mirrors, mirror) == Some(class),
    ensures
        (match s.object(obj) {
            Some(Object::Instance { class: c, .. }) => c == sub,
            Some(Object::Array { class: c, .. }) => c == sub,
            _ => false,
        }) ==> outcome(s, JavaLang::IsInstance, Some(mirror), seq![Value::Reference(obj)]) == plain(
            s,
            Value::Int(
                if below(s, sub, class) {
                    1
                } else {
                    0
                },
            ),
        ),
        outcome(s, JavaLang::IsInstance, Some(mirror), seq![Value::Reference(Reference(None))]) == plain(
            s,
            Value::Int(0),
        ),
        name_of(s.vm.class_mirrors, other) == Some(sub) ==> outcome(
            s,
            JavaLang::IsAssignableFrom,
            Some(mirror),
            seq![Value::Reference(other)],
        ) == plain(
            s,
            Value::Int(
                if below(s, sub, class) {
                    1
                } else {
                    0
                },
            ),
        ),
        name_of(s.vm.class_mirrors, other) is None ==> outcome(
            s,
            JavaLang::IsAssignableFrom,
            Some(mirror),
            seq![Value::Reference(other)],
        ) == raising(s, "java/lang/NullPointerException"@),
{
    if s.vm.registry is Some {
        law_listed_facts(s.vm.registry->0, sub, class);
    }
}

/// The superclass of an array is `Object`, that of a loaded class the one that it names; a class that names none, or is
/// not loaded, has none.
pub proof fn law_superclasses(s: State, mirror: Reference, class: Seq<char>, args: Seq<Value>)
    requires
        name_of(s.vm.class_mirrors, mirror) == Some(class),
    ensures
        ({
            let found = outcome(s, JavaLang::GetSuperclass, Some(mirror), args);
            if class.len() > 0 && class[0] == '[' {
                found == giving(mirror_asked(s, "java/lang/Object"@))
            } else {
                match s.class(class) {
                    Some(c) => match c.super_name {
                        Some(sup) => found == giving(mirror_asked(s, sup@)),
                        None => found == plain(s, Value::Reference(Reference(None))),
                    },
                    None => found == plain(s, Value::Reference(Reference(None))),
                }
            }
        }),
{
}

/// An array copy has source and position, destination and position, and length in the order of its arguments.
pub proof fn law_array_copy(s: State, src: Reference, from: i32, dst: Reference, to: i32, len: i32)
    ensures
        outcome(
            s,
            JavaLang::ArrayCopy,
            None,
            seq![Value::Reference(src), Value::Int(from), Value::Reference(dst), Value::Int(to), Value::Int(len)],
        ) == (s, Step::ArrayCopy(src, from, dst, to, len)),
{
}

/// The raw bits of a number are its bits: read as a signed integer in two's complement, and the other way round.
pub proof fn law_raw_bits(s: State, bits: u32, wide: u64, i: i32, l: i64)
    ensures
        outcome(s, JavaLang::FloatToRawIntBits, None, seq![Value::Float(bits)]) == plain(
            s,
            Value::Int(
                if bits < 0x8000_0000 {
                    bits as i32
                } else {
                    (bits - 0x1_0000_0000) as i32
                },
            ),
        ),
        outcome(s, JavaLang::IntBitsToFloat, None, seq![Value::Int(i)]) == plain(
            s,
            Value::Float(
                if i >= 0 {
                    i as u32
                } else {
                    (i + 0x1_0000_0000) as u32
                },
            ),
        ),
        outcome(s, JavaLang::DoubleToRawLongBits, None, seq![Value::Double(wide)]) == plain(
            s,
            Value::Long(
                if wide < 0x8000_0000_0000_0000 {
                    wide as i64
                } else {
                    (wide - 0x1_0000_0000_0000_0000) as i64
                },
            ),
        ),
        outcome(s, JavaLang::LongBitsToDouble, None, seq![Value::Long(l)]) == plain(
            s,
            Value::Double(
                if l >= 0 {
                    l as u64
                } else {
                    (l + 0x1_0000_0000_0000_0000) as u64
                },
            ),
        ),
{
    assert(bits >= 0x8000_0000 ==> bits as i32 == bits - 0x1_0000_0000) by (bit_vector);
    assert(i < 0 ==> i as u32 == i + 0x1_0000_0000) by (bit_vector);
    assert(wide >= 0x8000_0000_0000_0000 ==> wide as i64 == wide - 0x1_0000_0000_0000_0000) by (bit_vector);
    assert(l < 0 ==> l as u64 == l + 0x1_0000_0000_0000_0000) by (bit_vector);
}

/// What is the same on every machine: assertions are off, memory has no limit, clocks, processors and other threads are
/// asked for outside, and the counter of thread ids is off the heap, where no field and no element is.
pub proof fn law_fixed_answers(s: State, this: Option<Reference>, args: Seq<Value>)
    ensures
        outcome(s, JavaLang::DesiredAssertionStatus, this, args) == plain(s, Value::Int(0)),
        outcome(s, JavaLang::MaxMemory, this, args) == plain(s, Value::Long(i64::MAX)),
        outcome(s, JavaLang::CurrentTimeMillis, this, args) == (s, Step::CurrentTimeMillis),
        outcome(s, JavaLang::NanoTime, this, args) == (s, Step::NanoTime),
        outcome(s, JavaLang::AvailableProcessors, this, args) == (s, Step::AvailableProcessors),
        outcome(s, JavaLang::Yield, this, args) == (s, Step::Yield),
        ({
            let (t, step) = outcome(s, JavaLang::NextThreadIdOffset, this, args);
            t == s && match step {
                Step::Done(Ok(Value::Long(at))) => at < 0 && super::jdk_internal::outcome(
                    s,
                    super::jdk_internal::JdkInternal::GetLongVolatile,
                    seq![Value::Reference(Reference(None)), Value::Long(at)],
                ) == plain(s, Value::Long(s.vm.next_tid as i64)),
                _ => false,
            }
        }),
{
}

/// `intern` gives the interned string of the text of the receiver; `initClassName` that of the class name with dots,
/// which it also writes to the field `name` of the mirror.
pub proof fn law_interned_names(s: State, this: Reference, text: Seq<char>, class: Seq<char>, args: Seq<Value>)
    ensures
        text_at(s, this) == Ok::<Option<Seq<char>>, VmError>(Some(text)) ==> outcome(
            s,
            JavaLang::InternString,
            Some(this),
            args,
        ) == giving(interned(s, text)),
        name_of(s.vm.class_mirrors, this) == Some(class) ==> {
            let (t, step) = outcome(s, JavaLang::InitClassName, Some(this), args);
            match interned(s, class.map_values(
                |c: char|
                    if c == '/' {
                        '.'
                    } else {
                        c
                    },
            )) {
                (u, Ok(name)) => step == Step::Done(Ok::<Value, VmError>(Value::Reference(name))) && t
                    == match u.field_ord("java/lang/Class"@, "name"@) {
                    Some(at) => u.write_field(this, at, Slot::Reference(name)),
                    None => u,
                },
                (u, Err(e)) => t == u && step == Step::Done(Err::<Value, VmError>(e)),
            }
        },
{
    let f = |c: char|
        if c == '/' {
            '.'
        } else {
            c
        };
    assert(replaced(class, '/', '.') =~= class.map_values(f));
}

/// `refersTo` asks whether the field `referent` of the receiver holds exactly this reference, `null` included.
pub proof fn law_references_refer(s: State, this: Reference, o: Reference, class: Seq<char>, fields: Seq<Slot>, at: int)
    requires
        s.object(this) == Some((Object::Instance { class, fields })),
        s.field_ord(class, "referent"@) == Some(at),
    ensures
        outcome(s, JavaLang::RefersTo, Some(this), seq![Value::Reference(o)]) == plain(
            s,
            Value::Int(
                if slot_or_top(fields, at) == Slot::Reference(o) {
                    1
                } else {
                    0
                },
            ),
        ),
{
}

/// The file name of a library: `name.dll` on Windows, `libname.dylib` on macOS, `libname.so` anywhere else. A name of
/// more than 240 characters is an `IllegalArgumentException`.
pub proof fn law_library_names(s: State, name: Reference, text: Seq<char>)
    requires
        text_at(s, name) == Ok::<Option<Seq<char>>, VmError>(Some(text)),
    ensures
        ({
            let mapped = outcome(s, JavaLang::MapLibraryName, None, seq![Value::Reference(name)]);
            &&& utf16(text).len() > 240 ==> mapped == raising(s, "java/lang/IllegalArgumentException"@)
            &&& utf16(text).len() <= 240 ==> mapped == giving(
                interned(
                    s,
                    match s.vm.platform {
                        Platform::Windows => text + seq!['.', 'd', 'l', 'l'],
                        Platform::MacOs => seq!['l', 'i', 'b'] + text + seq!['.', 'd', 'y', 'l', 'i', 'b'],
                        Platform::Other => seq!['l', 'i', 'b'] + text + seq!['.', 's', 'o'],
                    },
                ),
            )
        }),
{
    reveal_strlit(".dll");
    reveal_strlit("lib");
    reveal_strlit(".dylib");
    reveal_strlit(".so");
    assert(".dll"@ =~= seq!['.', 'd', 'l', 'l']);
    assert("lib"@ =~= seq!['l', 'i', 'b']);
    assert(".dylib"@ =~= seq!['.', 'd', 'y', 'l', 'i', 'b']);
    assert(".so"@ =~= seq!['.', 's', 'o']);
}

/// `currentThread` is the mirror of the thread that asks, `holdsLock` whether that thread holds the monitor.
pub proof fn law_own_thread(s: State, obj: Reference, this: Option<Reference>)
    requires
        thread_pending(s) is None,
    ensures
        own_thread(s).1.0 is Some ==> outcome(s, JavaLang::CurrentThread, this, Seq::empty()) == plain(
            own_thread(s).0,
            Value::Reference(own_thread(s).1),
        ),
        own_thread(s).1.0 is None ==> outcome(s, JavaLang::CurrentThread, this, Seq::empty()) == raising(
            own_thread(s).0,
            "java/lang/InternalError"@,
        ),
        lock_held(s, obj).1 matches Ok(b) ==> outcome(s, JavaLang::HoldsLock, this, seq![Value::Reference(obj)]) == (
            lock_held(s, obj).0,
            Step::Done(
                Ok::<Value, VmError>(
                    Value::Int(
                        if b {
                            1
                        } else {
                            0
                        },
                    ),
                ),
            ),
        ),
{
}

/// A sleep lasts as many nanoseconds as asked for, none for 0 or less; it ends with an `InterruptedException` exactly if
/// the thread was interrupted, which is then over, and with nothing otherwise.
pub proof fn law_sleeping(s: State, nanos: i64, this: Option<Reference>)
    requires
        thread_pending(s) is None,
    ensures
        nanos > 0 ==> outcome(s, JavaLang::SleepNanos, this, seq![Value::Long(nanos)]) == (s, Step::Sleep(nanos as u64)),
        nanos <= 0 ==> outcome(s, JavaLang::SleepNanos, this, seq![Value::Long(nanos)]) == plain(s, Value::Void),
        ({
            let (t, me) = own_thread(s);
            let (u, r) = slept(s);
            &&& t.vm.interrupt_flags.get(me) == Some(true) ==> {
                &&& r is Err && r->Err_0 is ThrownException
                &&& u.vm.interrupt_flags.get(me) == Some(false)
                &&& exists|v: State|
                    v.vm.heap.len() == t.vm.heap.len() && #[trigger] thrown(v, "java/lang/InterruptedException"@) == (
                        u,
                        r->Err_0->ThrownException_0,
                    )
            }
            &&& t.vm.interrupt_flags.get(me) != Some(true) ==> r == Ok::<Value, VmError>(Value::Void) && u.vm.heap
                == t.vm.heap && u.vm.interrupt_flags.get(me) == Some(false)
        }),
{
    let (t, me) = own_thread(s);
    if t.vm.interrupt_flags.get(me) == Some(true) {
        let v = crate::runtime::vm::threads::interrupt_cleared(t, me);
        assert(thrown(v, "java/lang/InterruptedException"@) == (slept(s).0, slept(s).1->Err_0->ThrownException_0));
    }
}

/// `wait` waits on the receiver for as many milliseconds as asked for, without end for none or 0; `start` starts the
/// receiver; `fillInStackTrace` gives the receiver back and remembers the call chain of the moment for it.
pub proof fn law_receivers(s: State, this: Reference, millis: i64, args: Seq<Value>)
    ensures
        (match wait_begun(s, this, millis) {
            (t, Ok(ticket)) => outcome(s, JavaLang::WaitMillis, Some(this), seq![Value::Long(millis)]) == (
                t,
                Step::Wait(ticket),
            ),
            (t, Err(e)) => outcome(s, JavaLang::WaitMillis, Some(this), seq![Value::Long(millis)]) == (
                t,
                Step::Done(Err::<Value, VmError>(e)),
            ),
        }),
        (match wait_begun(s, this, 0) {
            (t, Ok(ticket)) => outcome(s, JavaLang::WaitForever, Some(this), args) == (t, Step::Wait(ticket)),
            (t, Err(e)) => outcome(s, JavaLang::WaitForever, Some(this), args) == (
                t,
                Step::Done(Err::<Value, VmError>(e)),
            ),
        }),
        this.0 is Some ==> outcome(s, JavaLang::StartThread, Some(this), args) == (
            started(s, this).0,
            Step::Start(this),
        ),
        ({
            let (t, step) = outcome(s, JavaLang::FillInStackTrace, Some(this), args);
            &&& step == Step::Done(Ok::<Value, VmError>(Value::Reference(this)))
            &&& info_of(t, this).frames == s.thread.call_stack
            &&& info_of(t, this).cause == info_of(s, this).cause
            &&& info_of(t, this).message == info_of(s, this).message
        }),
{
}

/// The hash of an object is the number of its handle, that of `null` 0.
pub proof fn law_identity_hashes(s: State, id: u32, args: Seq<Value>)
    requires
        id < 0x8000_0000,
    ensures
        outcome(s, JavaLang::HashCode, Some(Reference(Some(id))), args) == plain(s, Value::Int(id as i32)),
        outcome(s, JavaLang::IdentityHashCode, None, seq![Value::Reference(Reference(Some(id)))]) == plain(
            s,
            Value::Int(id as i32),
        ),
        outcome(s, JavaLang::IdentityHashCode, None, seq![Value::Reference(Reference(None))]) == plain(s, Value::Int(0)),
{
}

/// `clearInterruptEvent` lowers the interrupt flag of the thread that calls it, and no other.
pub proof fn law_clearing_the_own_interrupt(s: State, other: Reference)
    requires
        thread_pending(s) is None,
        own_thread(s).1.0 is Some,
        other != own_thread(s).1,
    ensures
        ({
            let (t, me) = own_thread(s);
            let (u, step) = outcome(s, JavaLang::ClearInterruptEvent, None, Seq::empty());
            &&& step == Step::Done(Ok::<Value, VmError>(Value::Void))
            &&& u.vm.interrupt_flags.get(me) != Some(true)
            &&& u.vm.interrupt_flags.get(other) == t.vm.interrupt_flags.get(other)
            &&& u.vm.heap == t.vm.heap
        }),
        sleep_probed(s).1 == Ok::<bool, VmError>(own_thread(s).0.vm.interrupt_flags.get(own_thread(s).1) == Some(true)),
        sleep_probed(s).0.vm.interrupt_flags.get(own_thread(s).1) is Some,
{
}

/// Without a receiver, a method that needs one is a `NullPointerException`; the hash of nothing is 0, and a thread that
/// is not there is started and interrupted like `null`.
pub proof fn law_missing_receivers(s: State, args: Seq<Value>)
    ensures
        outcome(s, JavaLang::Notify, None, args) == raising(s, "java/lang/NullPointerException"@),
        outcome(s, JavaLang::NotifyAll, None, args) == raising(s, "java/lang/NullPointerException"@),
        outcome(s, JavaLang::WaitMillis, None, args) == raising(s, "java/lang/NullPointerException"@),
        outcome(s, JavaLang::WaitForever, None, args) == raising(s, "java/lang/NullPointerException"@),
        outcome(s, JavaLang::GetClass, None, args) == raising(s, "java/lang/NullPointerException"@),
        outcome(s, JavaLang::FillInStackTrace, None, args) == raising(s, "java/lang/NullPointerException"@),
        outcome(s, JavaLang::InitClassName, None, args) == raising(s, "java/lang/NullPointerException"@),
        outcome(s, JavaLang::IsInstance, None, args) == raising(s, "java/lang/NullPointerException"@),
        outcome(s, JavaLang::IsAssignableFrom, None, args) == raising(s, "java/lang/NullPointerException"@),
        outcome(s, JavaLang::GetSuperclass, None, args) == raising(s, "java/lang/NullPointerException"@),
        outcome(s, JavaLang::InternString, None, args) == raising(s, "java/lang/NullPointerException"@),
        outcome(s, JavaLang::RefersTo, None, args) == raising(s, "java/lang/NullPointerException"@),
        outcome(s, JavaLang::HashCode, None, args) == plain(s, Value::Int(0)),
        outcome(s, JavaLang::StartThread, None, args) == outcome(
            s,
            JavaLang::StartThread,
            Some(Reference(None)),
            args,
        ),
        outcome(s, JavaLang::Interrupt, None, args) == outcome(
            s,
            JavaLang::Interrupt,
            Some(Reference(None)),
            args,
        ),
{
}

/// A receiver that is the mirror of no class is an `InternalError` for the methods of `Class`, and so is the class of
/// what is neither an instance nor an array.
pub proof fn law_receivers_of_no_class(s: State, this: Reference, args: Seq<Value>)
    ensures
        name_of(s.vm.class_mirrors, this) is None ==> {
            &&& outcome(s, JavaLang::InitClassName, Some(this), args) == raising(s, "java/lang/InternalError"@)
            &&& outcome(s, JavaLang::IsInstance, Some(this), args) == raising(s, "java/lang/InternalError"@)
            &&& outcome(s, JavaLang::IsAssignableFrom, Some(this), args) == raising(s, "java/lang/InternalError"@)
            &&& outcome(s, JavaLang::GetSuperclass, Some(this), args) == raising(s, "java/lang/InternalError"@)
        },
        (match s.object(this) {
            Some(Object::Instance { .. }) => false,
            Some(Object::Array { .. }) => false,
            _ => true,
        }) ==> outcome(s, JavaLang::GetClass, Some(this), args) == raising(s, "java/lang/InternalError"@),
{
}

/// A method that is asked without its arguments: where a text is needed this is a `NullPointerException`, `wait` waits
/// without end, `sleep` does not sleep, nothing is an instance of any class, and a number or an array that is missing is
/// named.
pub proof fn law_missing_arguments(s: State, this: Reference, class: Seq<char>)
    ensures
        ({
            let none = Seq::<Value>::empty();
            &&& outcome(s, JavaLang::GetPrimitiveClass, Some(this), none) == raising(s, "java/lang/NullPointerException"@)
            &&& outcome(s, JavaLang::ForName, Some(this), none) == raising(s, "java/lang/NullPointerException"@)
            &&& outcome(s, JavaLang::FindLoadedClass, Some(this), none) == raising(s, "java/lang/NullPointerException"@)
            &&& outcome(s, JavaLang::MapLibraryName, Some(this), none) == raising(s, "java/lang/NullPointerException"@)
            &&& outcome(s, JavaLang::RefersTo, Some(this), none) == raising(s, "java/lang/NullPointerException"@)
            &&& outcome(s, JavaLang::WaitMillis, Some(this), none) == outcome(s, JavaLang::WaitForever, Some(this), none)
            &&& outcome(s, JavaLang::SleepNanos, Some(this), none) == plain(s, Value::Void)
            &&& outcome(s, JavaLang::IdentityHashCode, Some(this), none) == plain(s, Value::Int(0))
            &&& outcome(s, JavaLang::HoldsLock, Some(this), none) == outcome(
                s,
                JavaLang::HoldsLock,
                Some(this),
                seq![Value::Reference(Reference(None))],
            )
            &&& name_of(s.vm.class_mirrors, this) == Some(class) ==> {
                &&& outcome(s, JavaLang::IsInstance, Some(this), none) == plain(s, Value::Int(0))
                &&& outcome(s, JavaLang::IsAssignableFrom, Some(this), none) == raising(s, "java/lang/NullPointerException"@)
            }
            &&& outcome(s, JavaLang::ArrayCopy, Some(this), none) == (
                s,
                Step::Done(Err::<Value, VmError>(VmError::BadConstant("arraycopy 实参缺失/类型不符"))),
            )
            &&& outcome(s, JavaLang::FloatToRawIntBits, Some(this), none) == (
                s,
                Step::Done(Err::<Value, VmError>(VmError::BadConstant("floatToRawIntBits 实参须为 float"))),
            )
            &&& outcome(s, JavaLang::IntBitsToFloat, Some(this), none) == (
                s,
                Step::Done(Err::<Value, VmError>(VmError::BadConstant("intBitsToFloat 实参须为 int"))),
            )
            &&& outcome(s, JavaLang::DoubleToRawLongBits, Some(this), none) == (
                s,
                Step::Done(Err::<Value, VmError>(VmError::BadConstant("doubleToRawLongBits 实参须为 double"))),
            )
            &&& outcome(s, JavaLang::LongBitsToDouble, Some(this), none) == (
                s,
                Step::Done(Err::<Value, VmError>(VmError::BadConstant("longBitsToDouble 实参须为 long"))),
            )
            &&& outcome(s, JavaLang::InitStackTraceElements, Some(this), none) == (
                s,
                Step::Done(Err::<Value, VmError>(VmError::BadConstant("initStackTraceElements 实参缺失/类型不符"))),
            )
        }),
{
}

/// Where a method needs a text, an object that holds none is a `NullPointerException`, and a text that cannot be read
/// yet stops it with that error and without change.
pub proof fn law_objects_without_text(s: State, this: Reference, r: Reference, e: VmError)
    ensures
        text_at(s, r) == Ok::<Option<Seq<char>>, VmError>(None) ==> {
            let one = seq![Value::Reference(r)];
            &&& outcome(s, JavaLang::GetPrimitiveClass, Some(this), one) == raising(s, "java/lang/NullPointerException"@)
            &&& outcome(s, JavaLang::ForName, Some(this), one) == raising(s, "java/lang/NullPointerException"@)
            &&& outcome(s, JavaLang::FindLoadedClass, Some(this), one) == raising(s, "java/lang/NullPointerException"@)
            &&& outcome(s, JavaLang::MapLibraryName, Some(this), one) == raising(s, "java/lang/NullPointerException"@)
            &&& outcome(s, JavaLang::InternString, Some(r), one) == raising(s, "java/lang/NullPointerException"@)
        },
        text_at(s, r) == Err::<Option<Seq<char>>, VmError>(e) ==> {
            let one = seq![Value::Reference(r)];
            let stop = (s, Step::Done(Err::<Value, VmError>(e)));
            &&& outcome(s, JavaLang::GetPrimitiveClass, Some(this), one) == stop
            &&& outcome(s, JavaLang::ForName, Some(this), one) == stop
            &&& outcome(s, JavaLang::FindLoadedClass, Some(this), one) == stop
            &&& outcome(s, JavaLang::MapLibraryName, Some(this), one) == stop
            &&& outcome(s, JavaLang::InternString, Some(r), one) == stop
        },
{
}

/// An object of no class is an instance of nothing, and a receiver without the field refers to nothing.
pub proof fn law_objects_of_no_class(s: State, mirror: Reference, class: Seq<char>, obj: Reference, this: Reference)
    requires
        name_of(s.vm.class_mirrors, mirror) == Some(class),
        (match s.object(obj) {
            Some(Object::Instance { .. }) => false,
            Some(Object::Array { .. }) => false,
            _ => true,
        }),
        (match s.object(this) {
            Some(Object::Instance { class: c, .. }) => s.field_ord(c, "referent"@) is None,
            _ => true,
        }),
    ensures
        outcome(s, JavaLang::IsInstance, Some(mirror), seq![Value::Reference(obj)]) == plain(s, Value::Int(0)),
        outcome(s, JavaLang::RefersTo, Some(this), seq![Value::Reference(obj)]) == plain(s, Value::Int(0)),
{
}

} // verus!
