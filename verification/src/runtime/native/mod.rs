//! Native methods of `java.base`.
//!
//! Every built-in native method is bound when the machine is made, so `registerNatives` of the Java classes
//! has nothing to do. A native method that is not bound gives an `UnsatisfiedLinkError`.

use vstd::prelude::*;

pub mod binding_laws;
pub mod call_laws;
pub mod executable_laws;
pub mod growth;
pub mod handle_laws;
pub mod java_io;
pub mod java_lang;
pub mod java_lang_invoke;
pub mod java_lang_members;
pub mod java_lang_trace;
pub mod jdk_internal;
pub mod jdk_internal_loader;
pub mod jdk_internal_reflect;
pub mod lang_laws;
pub mod library_laws;
pub mod listing_laws;
pub mod member_laws;
pub mod reflect_laws;
pub mod refusal_laws;
pub mod registry;
pub mod step;
pub mod sun_nio_fs;
pub mod trace_laws;
pub mod unsafe_laws;

use crate::runtime::slot::Reference;
use crate::runtime::text::{join, replace_char, replaced, str_eq};
use crate::runtime::value::{Value, VmError};
use crate::runtime::vm::class_mirrors::name_of;
use crate::runtime::vm::exceptions::message_thrown;
use crate::runtime::vm::mirrors::{is_primitive_keyword, primitive_keyword};
use crate::runtime::vm::{popped, pushed, State, VmThread};
use java_io::JavaIo;
use java_lang::JavaLang;
use java_lang_invoke::JavaLangInvoke;
use jdk_internal::JdkInternal;
use jdk_internal_loader::JdkInternalLoader;
use jdk_internal_reflect::JdkInternalReflect;
use registry::{Key, NativeRegistry};
use step::{done, get_reference, reference_arg, value, NativeStep, Step};
use sun_nio_fs::SunNioFs;

verus! {

/// A built-in native method.
#[derive(Debug, Clone, Copy, PartialEq, Eq, Structural)]
pub enum Native {
    SunNioFs(SunNioFs),
    JdkInternalLoader(JdkInternalLoader),
    JavaIo(JavaIo),
    JavaLangInvoke(JavaLangInvoke),
    JdkInternal(JdkInternal),
    JdkInternalReflect(JdkInternalReflect),
    JavaLang(JavaLang),
}

/// The bindings of a registry after all built-in native methods were added.
pub open spec fn all_registered(m: Map<Key, Native>) -> Map<Key, Native> {
    java_lang::registered(
        jdk_internal_reflect::registered(
            jdk_internal::registered(
                java_lang_invoke::registered(
                    java_io::registered(jdk_internal_loader::registered(sun_nio_fs::registered(m))),
                ),
            ),
        ),
    )
}

/// The bindings of all built-in native methods.
#[verifier::opaque]
pub open spec fn built_in() -> Map<Key, Native> {
    all_registered(Map::empty())
}

/// Binds all built-in native methods.
pub fn register_all(reg: &mut NativeRegistry<Native>)
    ensures
        final(reg)@ == all_registered(old(reg)@),
{
    sun_nio_fs::register(reg);
    jdk_internal_loader::register(reg);
    java_io::register(reg);
    java_lang_invoke::register(reg);
    jdk_internal::register(reg);
    jdk_internal_reflect::register(reg);
    java_lang::register(reg);
}

/// What a built-in native method comes to.
pub open spec fn outcome(s: State, native: Native, this: Option<Reference>, args: Seq<Value>) -> (State, Step) {
    match native {
        Native::SunNioFs(n) => sun_nio_fs::outcome(s, n),
        Native::JdkInternalLoader(n) => jdk_internal_loader::outcome(s, n, args),
        Native::JavaIo(n) => java_io::outcome(s, n, args),
        Native::JavaLangInvoke(n) => java_lang_invoke::outcome(s, n, args),
        Native::JdkInternal(n) => jdk_internal::outcome(s, n, args),
        Native::JdkInternalReflect(n) => jdk_internal_reflect::outcome(s, n, args),
        Native::JavaLang(n) => java_lang::outcome(s, n, this, args),
    }
}

/// Runs a built-in native method.
pub fn run(vm: &mut VmThread, native: Native, this: Option<Reference>, args: &[Value]) -> (r: NativeStep)
    ensures
        (final(vm)@, r@) == outcome(old(vm)@, native, this, args@),
{
    match native {
        Native::SunNioFs(n) => {
            let step: NativeStep = sun_nio_fs::run(n);
            assert((vm@, step@) == sun_nio_fs::outcome(vm@, n));
            step
        },
        Native::JdkInternalLoader(n) => jdk_internal_loader::run(vm, n, args),
        Native::JavaIo(n) => java_io::run(vm, n, args),
        Native::JavaLangInvoke(n) => java_lang_invoke::run(vm, n, args),
        Native::JdkInternal(n) => jdk_internal::run(vm, n, args),
        Native::JdkInternalReflect(n) => jdk_internal_reflect::run(vm, n, args),
        Native::JavaLang(n) => java_lang::run(vm, n, this, args),
    }
}

/// Message of the `UnsatisfiedLinkError` for a native method that is not bound.
pub open spec fn unbound_message(class: Seq<char>, name: Seq<char>, desc: Seq<char>) -> Seq<char> {
    replaced(class, '/', '.') + "."@ + name + " "@ + desc
}

/// The failure of a native method that is not bound.
pub open spec fn unbound(s: State, class: Seq<char>, name: Seq<char>, desc: Seq<char>) -> (
    State,
    Result<Value, VmError>,
) {
    let (t, e) = message_thrown(s, "java/lang/UnsatisfiedLinkError"@, unbound_message(class, name, desc));
    (t, Err(e))
}

/// What a native method comes to once its frame is on the call stack.
pub open spec fn resolved_outcome(
    s: State,
    class: Seq<char>,
    name: Seq<char>,
    desc: Seq<char>,
    this: Option<Reference>,
    args: Seq<Value>,
) -> (State, Step) {
    if name == "registerNatives"@ && desc == "()V"@ {
        done(value(s, Value::Void))
    } else {
        match s.vm.natives.get((class, name, desc)) {
            Some(native) => outcome(s, native, this, args),
            None => done(unbound(s, class, name, desc)),
        }
    }
}

/// What the call of a native method comes to. Its frame is on the call stack while it runs; it is dropped
/// with the result, and stays for as long as the outside has something to do.
pub open spec fn invoked(
    s: State,
    class: Seq<char>,
    name: Seq<char>,
    desc: Seq<char>,
    this: Option<Reference>,
    args: Seq<Value>,
) -> (State, Step) {
    let (t, step) = resolved_outcome(pushed(s, class, name), class, name, desc, this, args);
    if step is Done {
        (popped(t), step)
    } else {
        (t, step)
    }
}

/// Throws the `UnsatisfiedLinkError` for a native method that is not bound.
pub fn throw_unsatisfied_link_error(vm: &mut VmThread, class: &str, name: &str, desc: &str) -> (r: VmError)
    ensures
        (final(vm)@, Err::<Value, VmError>(r)) == unbound(old(vm)@, class@, name@, desc@),
{
    let dotted: String = replace_char(class, '/', '.');
    let message: String = join(
        join(join(join(dotted.as_str(), ".").as_str(), name).as_str(), " ").as_str(),
        desc,
    );
    vm.throw_exception_with_message("java/lang/UnsatisfiedLinkError", message.as_str())
}

fn invoke_inner(
    vm: &mut VmThread,
    class: &str,
    name: &str,
    desc: &str,
    this: Option<Reference>,
    args: &[Value],
) -> (r: NativeStep)
    ensures
        (final(vm)@, r@) == resolved_outcome(old(vm)@, class@, name@, desc@, this, args@),
{
    if str_eq(name, "registerNatives") && str_eq(desc, "()V") {
        return NativeStep::Done(Ok(Value::Void));
    }
    match vm.native_resolve(class, name, desc) {
        Some(native) => run(vm, native, this, args),
        None => NativeStep::Done(Err(throw_unsatisfied_link_error(vm, class, name, desc))),
    }
}

/// Calls the native method `name` with descriptor `desc` of `class`. `this` is the receiver, `args` are the
/// arguments in order. Where the step is not [`NativeStep::Done`], the frame stays on the call stack until the
/// outside has acted and drops it.
pub fn invoke(
    vm: &mut VmThread,
    class: &str,
    name: &str,
    desc: &str,
    this: Option<Reference>,
    args: &[Value],
) -> (r: NativeStep)
    ensures
        (final(vm)@, r@) == invoked(old(vm)@, class@, name@, desc@, this, args@),
{
    vm.push_frame(class, name);
    let step: NativeStep = invoke_inner(vm, class, name, desc, this, args);
    match step {
        NativeStep::Done(r) => {
            vm.pop_frame();
            NativeStep::Done(r)
        },
        other => other,
    }
}

/// Whether a name is the keyword of a primitive type or `void`.
pub fn is_primitive_name(name: &str) -> (r: bool)
    ensures
        r == primitive_keyword(name@),
{
    is_primitive_keyword(name)
}

/// The internal name that argument 0, a class mirror, stands for.
pub open spec fn mirror_arg(s: State, args: Seq<Value>) -> Option<Seq<char>> {
    match reference_arg(args, 0) {
        Some(r) => name_of(s.vm.class_mirrors, r),
        None => None,
    }
}

/// The internal name that argument 0, a class mirror, stands for; `None` if it is no mirror.
pub fn class_arg_name(vm: &VmThread, args: &[Value]) -> (r: Option<String>)
    ensures
        match r {
            Some(n) => mirror_arg(vm@, args@) == Some(n@),
            None => mirror_arg(vm@, args@) is None,
        },
{
    match get_reference(args, 0) {
        Some(r) => vm.mirror_internal_name(r),
        None => None,
    }
}

/// `registerNatives` is a no-op for every class, bound or not.
pub proof fn law_register_natives_is_a_no_op(s: State, class: Seq<char>, this: Option<Reference>, args: Seq<Value>)
    ensures
        invoked(s, class, "registerNatives"@, "()V"@, this, args) == (s, Step::Done(Ok(Value::Void))),
{
    crate::runtime::vm::law_push_pop_frame(s, class, "registerNatives"@);
}

/// A native method that is not bound gives an `UnsatisfiedLinkError` whose message names it.
pub proof fn law_unbound_native_is_named(
    s: State,
    class: Seq<char>,
    name: Seq<char>,
    desc: Seq<char>,
    this: Option<Reference>,
    args: Seq<Value>,
)
    requires
        s.vm.natives.get((class, name, desc)) is None,
        !(name == "registerNatives"@ && desc == "()V"@),
        s.vm.heap.len() + 3 <= crate::runtime::heap::handle_space(),
        crate::runtime::string::text_pending(s, unbound_message(class, name, desc)) is None,
    ensures
        ({
            let (t, step) = invoked(s, class, name, desc, this, args);
            &&& step matches Step::Done(Err(VmError::ThrownException(e))) && crate::runtime::vm::threads::instance_class(
                t,
                e,
            ) == crate::runtime::vm::threads::instance_class(
                crate::runtime::vm::exceptions::thrown(s, "java/lang/UnsatisfiedLinkError"@).0,
                e,
            ) && crate::runtime::vm::exceptions::info_of(t, e).message == Some(unbound_message(class, name, desc))
        }),
{
    let p = pushed(s, class, name);
    let (s1, e) = crate::runtime::vm::exceptions::thrown(p, "java/lang/UnsatisfiedLinkError"@);
    assert(e == crate::runtime::vm::exceptions::thrown(s, "java/lang/UnsatisfiedLinkError"@).1);
}

} // verus!
