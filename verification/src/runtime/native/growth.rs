//! Native methods take nothing back: objects keep their place, class and size, interned strings stay interned,
//! and the call stack is left as it was found.

use vstd::prelude::*;

use super::java_io;
use super::java_lang;
use super::java_lang_invoke;
use super::java_lang_members::{
    class_array, declared_constructors, declared_fields, declared_methods, executable_made, executables_made,
    field_made, fields_made, mirror_name, mirrors_of, result_mirror, ExecutableOrds, FieldOrds, Member,
};
use super::java_lang_trace::{element_at, element_filled, element_ords, elements_filled, trace_elements, ElementOrds};
use super::jdk_internal;
use super::jdk_internal_loader;
use super::jdk_internal_reflect::{
    boxed, call_arguments, call_finished, construction_finished, construction_prepared, reflective_call,
    reflective_construction, target_exception, unboxed, unboxed_from, value_ord, wrapped,
};
use super::jdk_internal_reflect;
use super::step::{mirror_behind, text_behind};

use super::{invoked, outcome, resolved_outcome, unbound_message, Native};
use crate::metadata::descriptor::{class_name_of, method_type, MethodType, Type};
use crate::runtime::oop::Object;
use crate::runtime::slot::{Reference, Slot};
use crate::runtime::string::interned;
use crate::runtime::text::replaced;
use crate::runtime::value::{Value, VmError};
use crate::runtime::vm::exceptions::{info_of, source_of, thrown};
use crate::runtime::vm::growth::{
    alloc_grown, backtrace_grown, class_mirror_grown, cleared_grown, element_grown, field_grown, fresh_grown,
    grown, grown_refl, grown_trans, interned_grown, interrupted_grown, lock_held_grown, named_grown,
    mirrors_stay, notified_grown, own_thread_grown, probed_grown, started_grown, tables_grown, thrown_grown,
    thrown_with_message_grown, wait_begun_grown,
};
use crate::runtime::vm::mirrors::class_mirror;
use crate::runtime::vm::threads::{interrupt_cleared, interrupt_probed, own_thread, thread_pending};
use crate::runtime::vm::{popped, pushed, FrameInfo, State};

verus! {

proof fn text_behind_grown(s: State, r: Option<Reference>)
    ensures
        text_behind(s, r) matches Err(e) ==> grown(s, e.0),
{
    grown_refl(s);
    thrown_grown(s, "java/lang/NullPointerException"@);
}

proof fn mirror_behind_grown(s: State, this: Option<Reference>)
    ensures
        mirror_behind(s, this) matches Err(e) ==> grown(s, e.0),
{
    thrown_grown(s, "java/lang/NullPointerException"@);
    thrown_grown(s, "java/lang/InternalError"@);
}

proof fn mirrors_of_grown(s: State, types: Seq<Type>)
    ensures
        grown(s, mirrors_of(s, types).0),
    decreases types.len(),
{
    grown_refl(s);
    if types.len() > 0 {
        mirrors_of_grown(s, types.drop_last());
        let t = mirrors_of(s, types.drop_last()).0;
        class_mirror_grown(t, class_name_of(types.last()));
        grown_trans(s, t, mirrors_of(s, types).0);
    }
}

pub(crate) proof fn class_array_grown(s: State, types: Seq<Type>)
    ensures
        grown(s, class_array(s, types).0),
{
    let (t, elements) = mirrors_of(s, types);
    mirrors_of_grown(s, types);
    alloc_grown(t, Object::Array { class: "[Ljava/lang/Class;"@, elements });
    grown_trans(s, t, class_array(s, types).0);
}

pub(crate) proof fn field_made_grown(s: State, this: Reference, arr: Reference, i: int, m: Member, ords: FieldOrds)
    ensures
        grown(s, field_made(s, this, arr, i, m, ords).0),
{
    let (s1, f) = s.alloc_fresh("java/lang/reflect/Field"@);
    fresh_grown(s, "java/lang/reflect/Field"@);
    let (s2, mirror) = class_mirror(s1, mirror_name(m.desc));
    class_mirror_grown(s1, mirror_name(m.desc));
    grown_trans(s, s1, s2);
    interned_grown(s2, m.name);
    match interned(s2, m.name) {
        (s3, Err(e)) => {
            grown_trans(s, s2, s3);
        },
        (s3, Ok(name)) => {
            grown_trans(s, s2, s3);
            let s4 = s3.write_field(f, ords.clazz as int, Slot::Reference(this));
            field_grown(s3, f, ords.clazz as int, Slot::Reference(this));
            grown_trans(s, s3, s4);
            let s5 = s4.write_field(f, ords.slot as int, Slot::Int(m.place as i32));
            field_grown(s4, f, ords.slot as int, Slot::Int(m.place as i32));
            grown_trans(s, s4, s5);
            let s6 = s5.write_field(f, ords.name as int, Slot::Reference(name));
            field_grown(s5, f, ords.name as int, Slot::Reference(name));
            grown_trans(s, s5, s6);
            let s7 = s6.write_field(f, ords.type_ as int, Slot::Reference(mirror));
            field_grown(s6, f, ords.type_ as int, Slot::Reference(mirror));
            grown_trans(s, s6, s7);
            let s8 = s7.write_field(f, ords.modifiers as int, Slot::Int(m.access as i32));
            field_grown(s7, f, ords.modifiers as int, Slot::Int(m.access as i32));
            grown_trans(s, s7, s8);
            element_grown(s8, arr, i, Slot::Reference(f));
            grown_trans(s, s8, field_made(s, this, arr, i, m, ords).0);
        },
    }
}

pub(crate) proof fn fields_made_grown(s: State, this: Reference, arr: Reference, i: int, ms: Seq<Member>, ords: FieldOrds)
    ensures
        grown(s, fields_made(s, this, arr, i, ms, ords).0),
    decreases ms.len() - i,
{
    grown_refl(s);
    if 0 <= i < ms.len() {
        field_made_grown(s, this, arr, i, ms[i], ords);
        match field_made(s, this, arr, i, ms[i], ords) {
            (t, Ok(_)) => {
                fields_made_grown(t, this, arr, i + 1, ms, ords);
                grown_trans(s, t, fields_made(s, this, arr, i, ms, ords).0);
            },
            (t, Err(e)) => {},
        }
    }
}

proof fn declared_fields_grown(s: State, this: Option<Reference>, args: Seq<Value>)
    ensures
        grown(s, declared_fields(s, this, args).0),
{
    grown_refl(s);
    thrown_grown(s, "java/lang/NullPointerException"@);
    let o = declared_fields(s, this, args);
    assert forall|arr_object: Object, arr: Reference, ms: Seq<Member>, ords: FieldOrds|
        o == fields_made(#[trigger] s.alloc_object(arr_object).0, this->0, arr, 0, ms, ords) implies grown(s, #[trigger] fields_made(s.alloc_object(arr_object).0, this->0, arr, 0, ms, ords).0) by {
        alloc_grown(s, arr_object);
        let s1 = s.alloc_object(arr_object).0;
        fields_made_grown(s1, this->0, arr, 0, ms, ords);
        grown_trans(s, s1, fields_made(s1, this->0, arr, 0, ms, ords).0);
    }
}

pub(crate) proof fn result_mirror_grown(s: State, result: Option<Type>)
    ensures
        grown(s, result_mirror(s, result).0),
{
    match result {
        None => class_mirror_grown(s, "void"@),
        Some(t) => class_mirror_grown(s, class_name_of(t)),
    }
}

proof fn executable_fields_grown(
    s: State,
    x: Reference,
    this: Reference,
    arr: Reference,
    i: int,
    place: usize,
    access: u16,
    ords: ExecutableOrds,
    params: Reference,
    exceptions: Reference,
    named: Option<(Reference, Reference)>,
)
    ensures
        ({
            let t1 = s.write_field(x, ords.clazz as int, Slot::Reference(this));
            let t2 = t1.write_field(x, ords.slot as int, Slot::Int(place as i32));
            let t4 = match named {
                Some((name, result)) => t2.write_field(x, ords.name as int, Slot::Reference(name)).write_field(
                    x,
                    ords.result as int,
                    Slot::Reference(result),
                ),
                None => t2,
            };
            let t5 = t4.write_field(x, ords.parameter_types as int, Slot::Reference(params));
            let t6 = t5.write_field(x, ords.exception_types as int, Slot::Reference(exceptions));
            let t7 = t6.write_field(x, ords.modifiers as int, Slot::Int(access as i32));
            grown(s, t7.write_element(arr, i, Slot::Reference(x)))
        }),
{
    let t1 = s.write_field(x, ords.clazz as int, Slot::Reference(this));
    field_grown(s, x, ords.clazz as int, Slot::Reference(this));
    let t2 = t1.write_field(x, ords.slot as int, Slot::Int(place as i32));
    field_grown(t1, x, ords.slot as int, Slot::Int(place as i32));
    grown_trans(s, t1, t2);
    let t4 = match named {
        Some((name, result)) => {
            let t3 = t2.write_field(x, ords.name as int, Slot::Reference(name));
            field_grown(t2, x, ords.name as int, Slot::Reference(name));
            grown_trans(s, t2, t3);
            let t4 = t3.write_field(x, ords.result as int, Slot::Reference(result));
            field_grown(t3, x, ords.result as int, Slot::Reference(result));
            grown_trans(s, t3, t4);
            t4
        },
        None => t2,
    };
    let t5 = t4.write_field(x, ords.parameter_types as int, Slot::Reference(params));
    field_grown(t4, x, ords.parameter_types as int, Slot::Reference(params));
    grown_trans(s, t4, t5);
    let t6 = t5.write_field(x, ords.exception_types as int, Slot::Reference(exceptions));
    field_grown(t5, x, ords.exception_types as int, Slot::Reference(exceptions));
    grown_trans(s, t5, t6);
    let t7 = t6.write_field(x, ords.modifiers as int, Slot::Int(access as i32));
    field_grown(t6, x, ords.modifiers as int, Slot::Int(access as i32));
    grown_trans(s, t6, t7);
    element_grown(t7, arr, i, Slot::Reference(x));
    grown_trans(s, t7, t7.write_element(arr, i, Slot::Reference(x)));
}

pub(crate) proof fn executable_made_grown(
    s: State,
    this: Reference,
    arr: Reference,
    i: int,
    m: Member,
    ords: ExecutableOrds,
    method: bool,
)
    ensures
        grown(s, executable_made(s, this, arr, i, m, ords, method).0),
{
    grown_refl(s);
    match method_type(m.desc) {
        None => {},
        Some(t) => {
            let (s1, params) = class_array(s, t.parameters);
            class_array_grown(s, t.parameters);
            if method {
                let (s2, result) = result_mirror(s1, t.result);
                result_mirror_grown(s1, t.result);
                grown_trans(s, s1, s2);
                let (s3, exceptions) = class_array(s2, Seq::empty());
                class_array_grown(s2, Seq::empty());
                grown_trans(s, s2, s3);
                interned_grown(s3, m.name);
                match interned(s3, m.name) {
                    (s4, Err(e)) => {
                        grown_trans(s, s3, s4);
                    },
                    (s4, Ok(name)) => {
                        grown_trans(s, s3, s4);
                        let (s5, x) = s4.alloc_fresh("java/lang/reflect/Method"@);
                        fresh_grown(s4, "java/lang/reflect/Method"@);
                        grown_trans(s, s4, s5);
                        executable_fields_grown(
                            s5,
                            x,
                            this,
                            arr,
                            i,
                            m.place,
                            m.access,
                            ords,
                            params,
                            exceptions,
                            Some((name, result)),
                        );
                        grown_trans(s, s5, executable_made(s, this, arr, i, m, ords, method).0);
                    },
                }
            } else {
                let (s3, exceptions) = class_array(s1, Seq::empty());
                class_array_grown(s1, Seq::empty());
                grown_trans(s, s1, s3);
                let (s5, x) = s3.alloc_fresh("java/lang/reflect/Constructor"@);
                fresh_grown(s3, "java/lang/reflect/Constructor"@);
                grown_trans(s, s3, s5);
                executable_fields_grown(s5, x, this, arr, i, m.place, m.access, ords, params, exceptions, None);
                grown_trans(s, s5, executable_made(s, this, arr, i, m, ords, method).0);
            }
        },
    }
}

pub(crate) proof fn executables_made_grown(
    s: State,
    this: Reference,
    arr: Reference,
    i: int,
    ms: Seq<Member>,
    ords: ExecutableOrds,
    method: bool,
)
    ensures
        grown(s, executables_made(s, this, arr, i, ms, ords, method).0),
    decreases ms.len() - i,
{
    grown_refl(s);
    if 0 <= i < ms.len() {
        executable_made_grown(s, this, arr, i, ms[i], ords, method);
        match executable_made(s, this, arr, i, ms[i], ords, method) {
            (t, Ok(_)) => {
                executables_made_grown(t, this, arr, i + 1, ms, ords, method);
                grown_trans(s, t, executables_made(s, this, arr, i, ms, ords, method).0);
            },
            (t, Err(e)) => {},
        }
    }
}

proof fn array_then_executables_grown(
    s: State,
    o: Object,
    this: Reference,
    arr: Reference,
    ms: Seq<Member>,
    ords: ExecutableOrds,
    method: bool,
)
    ensures
        grown(s, executables_made(s.alloc_object(o).0, this, arr, 0, ms, ords, method).0),
{
    let s1 = s.alloc_object(o).0;
    alloc_grown(s, o);
    executables_made_grown(s1, this, arr, 0, ms, ords, method);
    grown_trans(s, s1, executables_made(s1, this, arr, 0, ms, ords, method).0);
}

pub(crate) proof fn declared_methods_grown(s: State, this: Option<Reference>, args: Seq<Value>)
    ensures
        grown(s, declared_methods(s, this, args).0),
{
    grown_refl(s);
    thrown_grown(s, "java/lang/NullPointerException"@);
    assert forall|o: Object, arr: Reference, ms: Seq<Member>, ords: ExecutableOrds| grown(
        s,
        #[trigger] executables_made(s.alloc_object(o).0, this->0, arr, 0, ms, ords, true).0,
    ) by {
        array_then_executables_grown(s, o, this->0, arr, ms, ords, true);
    }
}

pub(crate) proof fn declared_constructors_grown(s: State, this: Option<Reference>, args: Seq<Value>)
    ensures
        grown(s, declared_constructors(s, this, args).0),
{
    grown_refl(s);
    thrown_grown(s, "java/lang/NullPointerException"@);
    assert forall|o: Object, arr: Reference, ms: Seq<Member>, ords: ExecutableOrds| grown(
        s,
        #[trigger] executables_made(s.alloc_object(o).0, this->0, arr, 0, ms, ords, false).0,
    ) by {
        array_then_executables_grown(s, o, this->0, arr, ms, ords, false);
    }
}

proof fn element_filled_grown(s: State, element: Reference, f: FrameInfo, ords: ElementOrds)
    ensures
        grown(s, element_filled(s, element, f, ords).0),
{
    let class = replaced(f.class, '/', '.');
    interned_grown(s, class);
    match interned(s, class) {
        (s1, Err(e)) => {},
        (s1, Ok(dc)) => {
            interned_grown(s1, f.method);
            match interned(s1, f.method) {
                (s2, Err(e)) => {
                    grown_trans(s, s1, s2);
                },
                (s2, Ok(mn)) => {
                    grown_trans(s, s1, s2);
                    match source_of(s, f) {
                        Some((file, line)) => {
                            interned_grown(s2, file);
                            match interned(s2, file) {
                                (s3, Err(e)) => {
                                    grown_trans(s, s2, s3);
                                },
                                (s3, Ok(text)) => {
                                    grown_trans(s, s2, s3);
                                    element_fields_grown(s3, element, f, ords, dc, mn, Some(text), line as i32);
                                    grown_trans(s, s3, element_filled(s, element, f, ords).0);
                                },
                            }
                        },
                        None => {
                            element_fields_grown(s2, element, f, ords, dc, mn, None, 0);
                            grown_trans(s, s2, element_filled(s, element, f, ords).0);
                        },
                    }
                },
            }
        },
    }
}

proof fn element_fields_grown(
    s: State,
    element: Reference,
    f: FrameInfo,
    ords: ElementOrds,
    dc: Reference,
    mn: Reference,
    file: Option<Reference>,
    line: i32,
)
    ensures
        ({
            let (s4, mirror) = class_mirror(s, f.class);
            let t1 = s4.write_field(element, ords.declaring_class as int, Slot::Reference(dc));
            let t2 = t1.write_field(element, ords.method_name as int, Slot::Reference(mn));
            let t3 = match file {
                Some(text) => t2.write_field(element, ords.file_name as int, Slot::Reference(text)),
                None => t2,
            };
            let t4 = t3.write_field(element, ords.line_number as int, Slot::Int(line));
            grown(s, t4.write_field(element, ords.declaring_class_object as int, Slot::Reference(mirror)))
        }),
{
    let (s4, mirror) = class_mirror(s, f.class);
    class_mirror_grown(s, f.class);
    let t1 = s4.write_field(element, ords.declaring_class as int, Slot::Reference(dc));
    field_grown(s4, element, ords.declaring_class as int, Slot::Reference(dc));
    grown_trans(s, s4, t1);
    let t2 = t1.write_field(element, ords.method_name as int, Slot::Reference(mn));
    field_grown(t1, element, ords.method_name as int, Slot::Reference(mn));
    grown_trans(s, t1, t2);
    let t3 = match file {
        Some(text) => {
            let t3 = t2.write_field(element, ords.file_name as int, Slot::Reference(text));
            field_grown(t2, element, ords.file_name as int, Slot::Reference(text));
            grown_trans(s, t2, t3);
            t3
        },
        None => t2,
    };
    let t4 = t3.write_field(element, ords.line_number as int, Slot::Int(line));
    field_grown(t3, element, ords.line_number as int, Slot::Int(line));
    grown_trans(s, t3, t4);
    let t5 = t4.write_field(element, ords.declaring_class_object as int, Slot::Reference(mirror));
    field_grown(t4, element, ords.declaring_class_object as int, Slot::Reference(mirror));
    grown_trans(s, t4, t5);
}

proof fn elements_filled_grown(
    s: State,
    elements: Reference,
    frames: Seq<FrameInfo>,
    ords: ElementOrds,
    i: int,
    n: int,
)
    ensures
        grown(s, elements_filled(s, elements, frames, ords, i, n).0),
    decreases n - i,
{
    grown_refl(s);
    if i < n {
        match element_at(s, elements, i) {
            None => elements_filled_grown(s, elements, frames, ords, i + 1, n),
            Some(e) => {
                let f = frames[frames.len() - 1 - i];
                element_filled_grown(s, e, f, ords);
                match element_filled(s, e, f, ords) {
                    (t, Ok(_)) => {
                        elements_filled_grown(t, elements, frames, ords, i + 1, n);
                        grown_trans(s, t, elements_filled(s, elements, frames, ords, i, n).0);
                    },
                    (t, Err(err)) => {},
                }
            },
        }
    }
}

proof fn trace_elements_grown(s: State, elements: Reference, backtrace: Reference, depth: i32)
    ensures
        grown(s, trace_elements(s, elements, backtrace, depth).0),
{
    grown_refl(s);
    let frames = info_of(s, backtrace).frames;
    match element_ords(s) {
        Ok(ords) => {
            let n = if depth < frames.len() {
                depth as int
            } else {
                frames.len() as int
            };
            elements_filled_grown(s, elements, frames, ords, 0, n);
        },
        Err(e) => {},
    }
}

#[verifier::rlimit(40)]
#[verifier::spinoff_prover]
proof fn java_lang_text_grown(s: State, this: Option<Reference>, args: Seq<Value>)
    ensures
        grown(s, java_lang::primitive_class(s, args).0),
        grown(s, java_lang::class_for_name(s, args).0),
        grown(s, java_lang::loaded_class_found(s, args).0),
        grown(s, java_lang::library_mapped(s, args).0),
        grown(s, java_lang::string_interned(s, this).0),
{
    grown_refl(s);
    text_behind_grown(s, super::step::reference_arg(args, 0));
    text_behind_grown(s, this);
    thrown_grown(s, "java/lang/ClassNotFoundException"@);
    thrown_grown(s, "java/lang/IllegalArgumentException"@);
    match text_behind(s, super::step::reference_arg(args, 0)) {
        Ok(text) => {
            class_mirror_grown(s, text);
            class_mirror_grown(s, replaced(text, '.', '/'));
            interned_grown(s, java_lang::library_name(s.vm.platform, text));
        },
        Err(e) => {},
    }
    match text_behind(s, this) {
        Ok(text) => interned_grown(s, text),
        Err(e) => {},
    }
}

#[verifier::rlimit(40)]
#[verifier::spinoff_prover]
proof fn java_lang_class_grown(s: State, this: Option<Reference>, args: Seq<Value>)
    ensures
        grown(s, java_lang::class_got(s, this).0),
        grown(s, java_lang::class_named(s, this).0),
        grown(s, java_lang::instance_tested(s, this, args).0),
        grown(s, java_lang::assignable_tested(s, this, args).0),
        grown(s, java_lang::superclass_got(s, this).0),
        grown(s, java_lang::reference_tested(s, this, args).0),
{
    grown_refl(s);
    mirror_behind_grown(s, this);
    thrown_grown(s, "java/lang/NullPointerException"@);
    thrown_grown(s, "java/lang/InternalError"@);
    match this {
        Some(r) => match java_lang::runtime_class(s, r) {
            Some(class) => class_mirror_grown(s, class),
            None => {},
        },
        None => {},
    }
    match mirror_behind(s, this) {
        Ok(internal) => {
            let external = replaced(internal, '/', '.');
            interned_grown(s, external);
            match interned(s, external) {
                (t, Ok(text)) => {
                    named_grown(t, this->0, "java/lang/Class"@, "name"@, Slot::Reference(text));
                    grown_trans(s, t, java_lang::class_named(s, this).0);
                },
                (t, Err(e)) => {},
            }
            match java_lang::superclass_name(s, internal) {
                Some(name) => class_mirror_grown(s, name),
                None => {},
            }
        },
        Err(e) => {},
    }
}

proof fn slept_grown(s: State)
    ensures
        grown(s, java_lang::slept(s).0),
{
    grown_refl(s);
    if thread_pending(s) is None {
        let (s1, me) = own_thread(s);
        own_thread_grown(s);
        let (s2, interrupt) = interrupt_probed(s1, me);
        probed_grown(s1, me);
        grown_trans(s, s1, s2);
        if interrupt {
            let s3 = interrupt_cleared(s2, me);
            cleared_grown(s2, me);
            grown_trans(s, s2, s3);
            thrown_grown(s3, "java/lang/InterruptedException"@);
            grown_trans(s, s3, java_lang::slept(s).0);
        }
    }
}

#[verifier::rlimit(40)]
#[verifier::spinoff_prover]
proof fn java_lang_thread_grown(s: State, this: Option<Reference>, args: Seq<Value>)
    ensures
        grown(s, java_lang::notify_step(s, this, false).0),
        grown(s, java_lang::notify_step(s, this, true).0),
        grown(s, java_lang::wait_step(s, this, java_lang::wait_limit(args)).0),
        grown(s, java_lang::wait_step(s, this, 0).0),
        grown(s, java_lang::current_thread(s).0),
        grown(s, java_lang::lock_tested(s, args).0),
        grown(s, java_lang::start_step(s, this).0),
        grown(s, java_lang::interrupt_step(s, this).0),
        grown(s, java_lang::event_cleared(s).0),
{
    grown_refl(s);
    thrown_grown(s, "java/lang/NullPointerException"@);
    match this {
        Some(r) => {
            notified_grown(s, r, false);
            notified_grown(s, r, true);
            wait_begun_grown(s, r, java_lang::wait_limit(args));
            wait_begun_grown(s, r, 0);
        },
        None => {},
    }
    own_thread_grown(s);
    thrown_grown(own_thread(s).0, "java/lang/InternalError"@);
    if thread_pending(s) is None && own_thread(s).1.0 is None {
        grown_trans(s, own_thread(s).0, java_lang::current_thread(s).0);
    }
    match super::step::reference_arg(args, 0) {
        Some(r) => lock_held_grown(s, r),
        None => lock_held_grown(s, Reference(None)),
    }
    started_grown(s, java_lang::receiver(this));
    interrupted_grown(s, java_lang::receiver(this));
    if thread_pending(s) is None {
        let t = own_thread(s).0;
        tables_grown(t, java_lang::event_cleared(s).0);
        grown_trans(s, t, java_lang::event_cleared(s).0);
    }
}

#[verifier::rlimit(40)]
#[verifier::spinoff_prover]
proof fn java_lang_grown(s: State, native: java_lang::JavaLang, this: Option<Reference>, args: Seq<Value>)
    ensures
        grown(s, java_lang::outcome(s, native, this, args).0),
{
    grown_refl(s);
    match native {
        java_lang::JavaLang::FillInStackTrace => {
            thrown_grown(s, "java/lang/NullPointerException"@);
            match this {
                Some(r) => backtrace_grown(s, r),
                None => {},
            }
        },
        java_lang::JavaLang::GetDeclaredFields => declared_fields_grown(s, this, args),
        java_lang::JavaLang::GetDeclaredMethods => declared_methods_grown(s, this, args),
        java_lang::JavaLang::GetDeclaredConstructors => declared_constructors_grown(s, this, args),
        java_lang::JavaLang::InitStackTraceElements => {
            match (
                super::step::reference_arg(args, 0),
                super::step::reference_arg(args, 1),
                super::step::int_arg(args, 2),
            ) {
                (Some(elements), Some(backtrace), Some(depth)) => trace_elements_grown(s, elements, backtrace, depth),
                _ => {},
            }
        },
        _ => {
            java_lang_text_grown(s, this, args);
            java_lang_class_grown(s, this, args);
            java_lang_thread_grown(s, this, args);
            thrown_grown(s, "java/lang/NullPointerException"@);
        },
    }
}

proof fn slot_stored_grown(s: State, o: Reference, offset: i64, slot: Slot)
    ensures
        grown(s, jdk_internal::slot_stored(s, o, offset, slot).0),
{
    thrown_grown(s, "java/lang/ArrayIndexOutOfBoundsException"@);
    thrown_grown(s, "java/lang/InternalError"@);
    field_grown(s, o, offset as int, slot);
    match s.object(o) {
        Some(Object::Array { class, elements }) => element_grown(
            s,
            o,
            jdk_internal::element_index(class, offset),
            slot,
        ),
        _ => {},
    }
}

#[verifier::rlimit(40)]
#[verifier::spinoff_prover]
proof fn jdk_internal_grown(s: State, native: jdk_internal::JdkInternal, args: Seq<Value>)
    ensures
        grown(s, jdk_internal::outcome(s, native, args).0),
{
    grown_refl(s);
    thrown_grown(s, "java/lang/NullPointerException"@);
    thrown_grown(s, "java/lang/ArrayIndexOutOfBoundsException"@);
    thrown_grown(s, "java/lang/InternalError"@);
    text_behind_grown(s, super::step::reference_arg(args, 1));
    assert forall|o: Reference, offset: i64, slot: Slot| grown(
        s,
        #[trigger] jdk_internal::slot_stored(s, o, offset, slot).0,
    ) by {
        slot_stored_grown(s, o, offset, slot);
    }
    assert forall|arr: Reference, i: int, b: i32| grown(s, #[trigger] s.write_element(arr, i, Slot::Int(b))) by {
        element_grown(s, arr, i, Slot::Int(b));
    }
    match super::step::long_arg(args, 3) {
        Some(x) => {
            let t = State { vm: crate::runtime::vm::Shared { next_tid: x as u64, ..s.vm }, ..s };
            tables_grown(s, t);
        },
        None => {},
    }
}

proof fn java_io_grown(s: State, native: java_io::JavaIo, args: Seq<Value>)
    ensures
        grown(s, java_io::outcome(s, native, args).0),
{
    grown_refl(s);
    text_behind_grown(s, super::step::object_arg(args, 0));
}

proof fn java_lang_invoke_grown(s: State, native: java_lang_invoke::JavaLangInvoke, args: Seq<Value>)
    ensures
        grown(s, java_lang_invoke::outcome(s, native, args).0),
{
    grown_refl(s);
    thrown_grown(s, "java/lang/NullPointerException"@);
    let class = "java/lang/invoke/MemberName"@;
    assert forall|m: Reference, field: Seq<char>, slot: Slot| grown(
        s,
        #[trigger] crate::runtime::vm::mirrors::named_field_written(s, m, class, field, slot),
    ) by {
        named_grown(s, m, class, field, slot);
    }
    assert forall|m: Reference, clazz: Reference, modifiers: i32| grown(
        s,
        #[trigger] java_lang_invoke::member_filled(s, m, clazz, modifiers),
    ) by {
        let t = crate::runtime::vm::mirrors::named_field_written(s, m, class, "clazz"@, Slot::Reference(clazz));
        let flags = Slot::Int(java_lang_invoke::field_flags(modifiers));
        named_grown(t, m, class, "flags"@, flags);
        grown_trans(s, t, java_lang_invoke::member_filled(s, m, clazz, modifiers));
    }
}

proof fn loader_grown(s: State, native: jdk_internal_loader::JdkInternalLoader, args: Seq<Value>)
    ensures
        grown(s, jdk_internal_loader::outcome(s, native, args).0),
{
    grown_refl(s);
    thrown_grown(s, "java/lang/NullPointerException"@);
    text_behind_grown(s, super::step::reference_arg(args, 1));
}

proof fn unboxed_from_grown(s: State, args: Seq<Reference>, types: Seq<Type>, i: int, before: Seq<Slot>)
    ensures
        unboxed_from(s, args, types, i, before) matches Err(e) ==> grown(s, e.0),
    decreases args.len() - i,
{
    grown_refl(s);
    thrown_grown(s, "java/lang/NullPointerException"@);
    if 0 <= i < args.len() {
        match unboxed(s, args[i], types[i]) {
            Ok(slot) => unboxed_from_grown(s, args, types, i + 1, before.push(slot)),
            Err(e) => {},
        }
    }
}

proof fn call_arguments_grown(s: State, arr: Reference, m: MethodType)
    ensures
        call_arguments(s, arr, m) matches Err(e) ==> grown(s, e.0),
{
    grown_refl(s);
    thrown_grown(s, "java/lang/IllegalArgumentException"@);
    match jdk_internal_reflect::object_elements(s, arr) {
        Ok(args) => unboxed_from_grown(s, args, m.parameters, 0, Seq::empty()),
        Err(e) => {},
    }
}

proof fn reflective_call_grown(s: State, args: Seq<Value>)
    ensures
        grown(s, reflective_call(s, args).0),
{
    grown_refl(s);
    thrown_grown(s, "java/lang/NullPointerException"@);
    thrown_grown(s, "java/lang/AbstractMethodError"@);
    assert forall|arr: Reference, m: MethodType| (#[trigger] call_arguments(s, arr, m)) is Err implies grown(
        s,
        call_arguments(s, arr, m)->Err_0.0,
    ) by {
        call_arguments_grown(s, arr, m);
    }
}

proof fn reflective_construction_grown(s: State, args: Seq<Value>)
    ensures
        grown(s, reflective_construction(s, args).0),
{
    grown_refl(s);
    thrown_grown(s, "java/lang/NullPointerException"@);
    thrown_grown(s, "java/lang/InstantiationException"@);
    assert forall|arr: Reference, m: MethodType| (#[trigger] call_arguments(s, arr, m)) is Err implies grown(
        s,
        call_arguments(s, arr, m)->Err_0.0,
    ) by {
        call_arguments_grown(s, arr, m);
    }
    assert forall|internal: Seq<char>, slot: i32, slots: Seq<Slot>| grown(
        s,
        #[trigger] construction_prepared(s, internal, slot, slots).0,
    ) by {
        let t = s.alloc_fresh(internal).0;
        fresh_grown(s, internal);
        thrown_grown(t, "java/lang/InstantiationError"@);
        grown_trans(s, t, thrown(t, "java/lang/InstantiationError"@).0);
    }
}

proof fn reflect_grown(s: State, native: jdk_internal_reflect::JdkInternalReflect, args: Seq<Value>)
    ensures
        grown(s, jdk_internal_reflect::outcome(s, native, args).0),
{
    grown_refl(s);
    thrown_grown(s, "java/lang/NullPointerException"@);
    match crate::runtime::vm::class_from_top(s.thread.call_stack, 2) {
        Some(class) => class_mirror_grown(s, class),
        None => {},
    }
    reflective_call_grown(s, args);
    reflective_construction_grown(s, args);
}

/// A built-in native method takes nothing back.
pub proof fn law_native_methods_take_nothing_back(s: State, native: Native, this: Option<Reference>, args: Seq<Value>)
    ensures
        grown(s, outcome(s, native, this, args).0),
{
    match native {
        Native::SunNioFs(n) => grown_refl(s),
        Native::JdkInternalLoader(n) => loader_grown(s, n, args),
        Native::JavaIo(n) => java_io_grown(s, n, args),
        Native::JavaLangInvoke(n) => java_lang_invoke_grown(s, n, args),
        Native::JdkInternal(n) => jdk_internal_grown(s, n, args),
        Native::JdkInternalReflect(n) => reflect_grown(s, n, args),
        Native::JavaLang(n) => java_lang_grown(s, n, this, args),
    }
}

/// Whatever a native method comes to, nothing is taken back. Once it has a result, its frame is gone and the
/// call stack is that of the caller; until then its frame is the only one more.
pub proof fn law_invoke_balances_the_call_stack(
    s: State,
    class: Seq<char>,
    name: Seq<char>,
    desc: Seq<char>,
    this: Option<Reference>,
    args: Seq<Value>,
)
    ensures
        ({
            let (t, step) = invoked(s, class, name, desc, this, args);
            if step is Done {
                grown(s, t)
            } else {
                grown(pushed(s, class, name), t) && grown(s, popped(t))
            }
        }),
{
    let p = pushed(s, class, name);
    grown_refl(p);
    let (u, step) = resolved_outcome(p, class, name, desc, this, args);
    match p.vm.natives.get((class, name, desc)) {
        Some(native) => law_native_methods_take_nothing_back(p, native, this, args),
        None => thrown_with_message_grown(
            p,
            "java/lang/UnsatisfiedLinkError"@,
            unbound_message(class, name, desc),
        ),
    }
    assert(grown(p, u));
    assert(grown(s, popped(u))) by {
        reveal(grown);
        reveal(mirrors_stay);
        assert(popped(u).thread.call_stack =~= s.thread.call_stack);
    }
}

proof fn boxed_grown(s: State, result: Option<Type>, v: Value)
    ensures
        grown(s, boxed(s, result, v).0),
{
    grown_refl(s);
    assert forall|wrapper: Seq<char>, slot: Slot| grown(s, #[trigger] wrapped(s, wrapper, slot).0) by {
        fresh_grown(s, wrapper);
        match value_ord(s, wrapper, VmError::BadConstant("装箱需类注册表")) {
            Ok(ord) => {
                let (t, r) = s.alloc_fresh(wrapper);
                field_grown(t, r, ord, slot);
                grown_trans(s, t, t.write_field(r, ord, slot));
            },
            Err(e) => {},
        }
    }
}

/// The second half of a native method, after the outside has acted, takes nothing back either.
pub proof fn law_finishing_takes_nothing_back(
    s: State,
    result_type: Option<Type>,
    result: Result<Value, VmError>,
    instance: Reference,
    resolved: Option<Seq<char>>,
    must_succeed: bool,
    handle: i64,
)
    ensures
        grown(s, call_finished(s, result_type, result).0),
        grown(s, construction_finished(s, instance, result).0),
        grown(s, java_lang::slept(s).0),
        grown(s, java_io::canonicalized(s, resolved).0),
        grown(s, jdk_internal_loader::library_loaded(s, instance, must_succeed, handle).0),
{
    grown_refl(s);
    slept_grown(s);
    match result {
        Ok(v) => boxed_grown(s, result_type, v),
        Err(e) => match e {
            VmError::ThrownException(cause) => {
                let class = "java/lang/reflect/InvocationTargetException"@;
                let (t, r) = thrown(s, class);
                thrown_grown(s, class);
                named_grown(t, r, class, "target"@, Slot::Reference(cause));
                grown_trans(s, t, target_exception(s, cause).0);
            },
            _ => {},
        },
    }
    thrown_grown(s, "java/io/IOException"@);
    match resolved {
        Some(p) => interned_grown(s, java_io::plain_path(p)),
        None => {},
    }
    thrown_grown(s, "java/lang/UnsatisfiedLinkError"@);
    match jdk_internal_loader::library_bound(s, instance, handle) {
        Ok(t) => {
            let class = crate::runtime::vm::threads::instance_class(s, instance)->0;
            let a = s.field_ord(class, "handle"@)->0;
            let b = s.field_ord(class, "jniVersion"@)->0;
            let u = s.write_field(instance, a, Slot::Long(handle));
            field_grown(s, instance, a, Slot::Long(handle));
            field_grown(u, instance, b, Slot::Int(jdk_internal_loader::JNI_VERSION_1_1));
            grown_trans(s, u, t);
        },
        Err(e) => {},
    }
}

} // verus!
