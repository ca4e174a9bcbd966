//! Native methods of `jdk.internal.loader`: dynamic libraries.

use vstd::prelude::*;

use super::registry::{Key, NativeRegistry};
use super::step::{
    done, error, get_int, get_long, get_reference, int_arg, long_arg, reference_arg, require_text, stopped,
    text_behind, throw, throws, value, LibraryRequest, NativeStep, Step,
};
use super::Native;
use crate::runtime::oop::Oop;
use crate::runtime::slot::{Reference, Slot};
use crate::runtime::string::{read_text, text_at};
use crate::runtime::value::{Value, VmError};
use crate::runtime::vm::threads::instance_class;
use crate::runtime::vm::{State, VmThread};

verus! {

broadcast use crate::runtime::oop::oop_variant;

/// The JNI version of a library without `JNI_OnLoad`.
pub const JNI_VERSION_1_1: i32 = 0x0001_0001;

/// The native methods of `jdk.internal.loader`.
#[derive(Debug, Clone, Copy, PartialEq, Eq, Structural)]
pub enum JdkInternalLoader {
    Load,
    Unload,
    FindBuiltinLib,
    FindEntry,
    SetBootLoaderUnnamedModule,
}

/// What `NativeLibraries.load` comes to: the library to load, the process itself for a built-in one.
pub open spec fn load_step(s: State, args: Seq<Value>) -> (State, Step) {
    match (reference_arg(args, 0), reference_arg(args, 1), int_arg(args, 2), int_arg(args, 3)) {
        (Some(instance), Some(name), Some(builtin), Some(must)) => match text_behind(s, Some(name)) {
            Err(e) => done(stopped(e)),
            Ok(path) => (
                s,
                Step::LoadLibrary(
                    instance,
                    if builtin != 0 {
                        None
                    } else {
                        Some(path)
                    },
                    must != 0,
                ),
            ),
        },
        _ => done(throws(s, "java/lang/NullPointerException"@)),
    }
}

/// State after handle and JNI version were written to a `NativeLibraryImpl`.
pub open spec fn library_bound(s: State, instance: Reference, handle: i64) -> Result<State, VmError> {
    match instance_class(s, instance) {
        None => Err(VmError::BadConstant("NativeLibraryImpl:非实例")),
        Some(class) => match s.field_ord(class, "handle"@) {
            None => Err(VmError::BadConstant("NativeLibraryImpl:缺 handle 字段")),
            Some(handle_ord) => match s.field_ord(class, "jniVersion"@) {
                None => Err(VmError::BadConstant("NativeLibraryImpl:缺 jniVersion 字段")),
                Some(jni_ord) => Ok(
                    s.write_field(instance, handle_ord, Slot::Long(handle)).write_field(
                        instance,
                        jni_ord,
                        Slot::Int(JNI_VERSION_1_1),
                    ),
                ),
            },
        },
    }
}

/// Outcome of `NativeLibraries.load` for the handle of the library, 0 if it could not be loaded.
pub open spec fn library_loaded(s: State, instance: Reference, must_succeed: bool, handle: i64) -> (
    State,
    Result<Value, VmError>,
) {
    if handle == 0 {
        if must_succeed {
            throws(s, "java/lang/UnsatisfiedLinkError"@)
        } else {
            value(s, Value::Int(0))
        }
    } else {
        match library_bound(s, instance, handle) {
            Ok(t) => value(t, Value::Int(1)),
            Err(e) => error(s, e),
        }
    }
}

/// What `NativeLibraries.unload` comes to: nothing for a built-in library.
pub open spec fn unload_step(s: State, args: Seq<Value>) -> (State, Step) {
    match (reference_arg(args, 0), int_arg(args, 1), long_arg(args, 2)) {
        (Some(name), Some(builtin), Some(handle)) => match text_at(s, name) {
            Err(e) => done(error(s, e)),
            Ok(_) => if builtin != 0 {
                done(value(s, Value::Void))
            } else {
                (s, Step::UnloadLibrary(handle))
            },
        },
        _ => done(throws(s, "java/lang/NullPointerException"@)),
    }
}

/// What `NativeLibrary.findEntry0` comes to.
pub open spec fn entry_step(s: State, args: Seq<Value>) -> (State, Step) {
    match (long_arg(args, 0), reference_arg(args, 1)) {
        (Some(handle), Some(name)) => match text_behind(s, Some(name)) {
            Err(e) => done(stopped(e)),
            Ok(symbol) => (s, Step::FindSymbol(handle, symbol)),
        },
        _ => done(throws(s, "java/lang/NullPointerException"@)),
    }
}

/// What a native method of `jdk.internal.loader` comes to.
pub open spec fn outcome(s: State, native: JdkInternalLoader, args: Seq<Value>) -> (State, Step) {
    match native {
        JdkInternalLoader::Load => load_step(s, args),
        JdkInternalLoader::Unload => unload_step(s, args),
        JdkInternalLoader::FindBuiltinLib => done(value(s, Value::Reference(Reference(None)))),
        JdkInternalLoader::FindEntry => entry_step(s, args),
        JdkInternalLoader::SetBootLoaderUnnamedModule => done(value(s, Value::Void)),
    }
}

/// Class of an instance; `None` for anything else.
pub fn instance_class_name(vm: &VmThread, r: Reference) -> (name: Option<String>)
    ensures
        match name {
            Some(n) => instance_class(vm@, r) == Some(n@),
            None => instance_class(vm@, r) is None,
        },
{
    match vm.heap().get(r) {
        Some(Oop::Instance(i)) => Some(i.class_name().to_owned()),
        _ => None,
    }
}

/// Layout position of field `field_name` in instances of `class_name`.
pub fn named_field_ord(vm: &VmThread, class_name: &str, field_name: &str) -> (r: Option<usize>)
    ensures
        match r {
            Some(i) => vm@.field_ord(class_name@, field_name@) == Some(i as int),
            None => vm@.field_ord(class_name@, field_name@) is None,
        },
{
    vm.field_ord(class_name, field_name)
}

/// `NativeLibraries.load`, up to the system.
pub fn native_load(vm: &mut VmThread, args: &[Value]) -> (r: NativeStep)
    ensures
        (final(vm)@, r@) == load_step(old(vm)@, args@),
{
    match (get_reference(args, 0), get_reference(args, 1), get_int(args, 2), get_int(args, 3)) {
        (Some(instance), Some(name), Some(builtin), Some(must)) => match require_text(vm, Some(name)) {
            Err(e) => NativeStep::Done(Err(e)),
            Ok(path) => NativeStep::LoadLibrary(
                LibraryRequest {
                    instance,
                    path: if builtin != 0 {
                        None
                    } else {
                        Some(path)
                    },
                    must_succeed: must != 0,
                },
            ),
        },
        _ => NativeStep::Done(throw(vm, "java/lang/NullPointerException")),
    }
}

/// `NativeLibraries.load`, with the handle of the library, 0 if it could not be loaded.
pub fn finish_load(vm: &mut VmThread, instance: Reference, must_succeed: bool, handle: i64) -> (r: Result<
    Value,
    VmError,
>)
    ensures
        (final(vm)@, r) == library_loaded(old(vm)@, instance, must_succeed, handle),
{
    if handle == 0 {
        return if must_succeed {
            throw(vm, "java/lang/UnsatisfiedLinkError")
        } else {
            Ok(Value::Int(0))
        };
    }
    let class: String = match instance_class_name(vm, instance) {
        Some(c) => c,
        None => {
            return Err(VmError::BadConstant("NativeLibraryImpl:非实例"));
        },
    };
    let handle_ord: usize = match named_field_ord(vm, class.as_str(), "handle") {
        Some(i) => i,
        None => {
            return Err(VmError::BadConstant("NativeLibraryImpl:缺 handle 字段"));
        },
    };
    let jni_ord: usize = match named_field_ord(vm, class.as_str(), "jniVersion") {
        Some(i) => i,
        None => {
            return Err(VmError::BadConstant("NativeLibraryImpl:缺 jniVersion 字段"));
        },
    };
    vm.write_field(instance, handle_ord, Slot::Long(handle));
    vm.write_field(instance, jni_ord, Slot::Int(JNI_VERSION_1_1));
    Ok(Value::Int(1))
}

/// `NativeLibraries.unload`, up to the system.
pub fn native_unload(vm: &mut VmThread, args: &[Value]) -> (r: NativeStep)
    ensures
        (final(vm)@, r@) == unload_step(old(vm)@, args@),
{
    match (get_reference(args, 0), get_int(args, 1), get_long(args, 2)) {
        (Some(name), Some(builtin), Some(handle)) => match read_text(vm, name) {
            Err(e) => NativeStep::Done(Err(e)),
            Ok(_) => if builtin != 0 {
                NativeStep::Done(Ok(Value::Void))
            } else {
                NativeStep::UnloadLibrary(handle)
            },
        },
        _ => NativeStep::Done(throw(vm, "java/lang/NullPointerException")),
    }
}

/// `NativeLibrary.findEntry0`, up to the system.
pub fn find_entry0(vm: &mut VmThread, args: &[Value]) -> (r: NativeStep)
    ensures
        (final(vm)@, r@) == entry_step(old(vm)@, args@),
{
    match (get_long(args, 0), get_reference(args, 1)) {
        (Some(handle), Some(name)) => match require_text(vm, Some(name)) {
            Err(e) => NativeStep::Done(Err(e)),
            Ok(symbol) => NativeStep::FindSymbol(handle, symbol),
        },
        _ => NativeStep::Done(throw(vm, "java/lang/NullPointerException")),
    }
}

/// Runs a native method of `jdk.internal.loader`.
pub fn run(vm: &mut VmThread, native: JdkInternalLoader, args: &[Value]) -> (r: NativeStep)
    ensures
        (final(vm)@, r@) == outcome(old(vm)@, native, args@),
{
    match native {
        JdkInternalLoader::Load => native_load(vm, args),
        JdkInternalLoader::Unload => native_unload(vm, args),
        JdkInternalLoader::FindBuiltinLib => NativeStep::Done(Ok(Value::Reference(Reference(None)))),
        JdkInternalLoader::FindEntry => find_entry0(vm, args),
        JdkInternalLoader::SetBootLoaderUnnamedModule => NativeStep::Done(Ok(Value::Void)),
    }
}

/// The bindings of a registry after the native methods of `jdk.internal.loader` were added.
pub open spec fn registered(m: Map<Key, Native>) -> Map<Key, Native> {
    m.insert(
        ("jdk/internal/loader/NativeLibraries"@, "load"@, "(Ljdk/internal/loader/NativeLibraries$NativeLibraryImpl;Ljava/lang/String;ZZ)Z"@),
        Native::JdkInternalLoader(JdkInternalLoader::Load),
    ).insert(
        ("jdk/internal/loader/NativeLibraries"@, "unload"@, "(Ljava/lang/String;ZJ)V"@),
        Native::JdkInternalLoader(JdkInternalLoader::Unload),
    ).insert(
        ("jdk/internal/loader/NativeLibraries"@, "findBuiltinLib"@, "(Ljava/lang/String;)Ljava/lang/String;"@),
        Native::JdkInternalLoader(JdkInternalLoader::FindBuiltinLib),
    ).insert(
        ("jdk/internal/loader/NativeLibrary"@, "findEntry0"@, "(JLjava/lang/String;)J"@),
        Native::JdkInternalLoader(JdkInternalLoader::FindEntry),
    ).insert(
        ("jdk/internal/loader/BootLoader"@, "setBootLoaderUnnamedModule0"@, "(Ljava/lang/Module;)V"@),
        Native::JdkInternalLoader(JdkInternalLoader::SetBootLoaderUnnamedModule),
    )
}

/// Binds the native methods of `jdk.internal.loader`.
pub fn register(reg: &mut NativeRegistry<Native>)
    ensures
        final(reg)@ == registered(old(reg)@),
{
    reg.register(
        "jdk/internal/loader/NativeLibraries",
        "load",
        "(Ljdk/internal/loader/NativeLibraries$NativeLibraryImpl;Ljava/lang/String;ZZ)Z",
        Native::JdkInternalLoader(JdkInternalLoader::Load),
    );
    reg.register(
        "jdk/internal/loader/NativeLibraries",
        "unload",
        "(Ljava/lang/String;ZJ)V",
        Native::JdkInternalLoader(JdkInternalLoader::Unload),
    );
    reg.register(
        "jdk/internal/loader/NativeLibraries",
        "findBuiltinLib",
        "(Ljava/lang/String;)Ljava/lang/String;",
        Native::JdkInternalLoader(JdkInternalLoader::FindBuiltinLib),
    );
    reg.register(
        "jdk/internal/loader/NativeLibrary",
        "findEntry0",
        "(JLjava/lang/String;)J",
        Native::JdkInternalLoader(JdkInternalLoader::FindEntry),
    );
    reg.register(
        "jdk/internal/loader/BootLoader",
        "setBootLoaderUnnamedModule0",
        "(Ljava/lang/Module;)V",
        Native::JdkInternalLoader(JdkInternalLoader::SetBootLoaderUnnamedModule),
    );
}

} // verus!
