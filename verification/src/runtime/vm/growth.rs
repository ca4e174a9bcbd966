//! What no operation of the machine takes back: objects stay where they are and keep their class and size,
//! interned strings stay interned, class mirrors stay what they are, and the call stack is left as it was found.

use vstd::prelude::*;

use super::class_mirrors::{bound, law_bound_both_ways, one_to_one};
use super::exceptions::{
    backtrace_captured, cause_recorded, message_recorded, message_thrown, thrown, thrown_with_message, trace_recorded,
};
use super::mirrors::{
    array_len, class_mirror, component_name, component_shrinks, mirror_asked, mirror_bound, mirror_field_written,
    mirror_finished, module_asked, module_for, module_mirror, module_name_for, named_field_written, primitive_keyword,
};
use super::monitors::{
    available, entered, exited, lock_held, monitor_of, notified, wait_begun, wait_left, wait_resumed, with_monitor,
    WaitTicket,
};
use super::threads::{
    body_call, eetop_written, event_lowered, flag_lowered, group_asked, holder_attached, holder_filled,
    identity, interrupt_cleared, interrupt_probed, interrupted, own_thread, started, status_written,
    system_group, terminated, text_field_written, thread_allocated, thread_pending, tid_taken,
};
use super::{JavaMonitor, Shared, State, THREAD_STATUS_RUNNABLE, THREAD_STATUS_TERMINATED};
use crate::runtime::heap::handle_space;
use crate::runtime::oop::Object;
use crate::runtime::slot::{Reference, Slot};
use crate::runtime::string::{build_layout, built, byte_slots, interned};
use crate::runtime::utf16::encoded;

verus! {

/// Whether two objects agree in class and size.
pub open spec fn same_shape(a: Object, b: Object) -> bool {
    match (a, b) {
        (Object::Instance { class: c, fields: f }, Object::Instance { class: d, fields: g }) => c == d && f.len()
            == g.len(),
        (Object::Array { class: c, elements: f }, Object::Array { class: d, elements: g }) => c == d && f.len()
            == g.len(),
        (Object::Lambda { sam_type: c }, Object::Lambda { sam_type: d }) => c == d,
        _ => false,
    }
}

/// Whether `t` is what `s` can become: the same classes, native methods and call stack; every object still
/// there with its class and size; every interned string still interned; the identity of the thread kept; the
/// class mirrors as sound as before.
#[verifier::opaque]
pub open spec fn grown(s: State, t: State) -> bool {
    &&& t.thread.call_stack == s.thread.call_stack
    &&& t.thread.frame_depth == s.thread.frame_depth
    &&& t.thread.stack_limit == s.thread.stack_limit
    &&& s.thread.thread_ref is Some ==> t.thread.thread_ref == s.thread.thread_ref
    &&& t.vm.registry == s.vm.registry
    &&& t.vm.natives == s.vm.natives
    &&& t.vm.initialized == s.vm.initialized
    &&& t.vm.platform == s.vm.platform
    &&& t.vm.phase == s.vm.phase
    &&& s.vm.heap.len() <= t.vm.heap.len()
    &&& forall|i: int| 0 <= i < s.vm.heap.len() ==> same_shape(s.vm.heap[i], #[trigger] t.vm.heap[i])
    &&& forall|x: Seq<char>|
        s.vm.strings.contains_key(x) ==> #[trigger] t.vm.strings.contains_key(x) && t.vm.strings[x] == s.vm.strings[x]
    &&& mirrors_stay(s, t)
}

/// Whether every mirror that is not `null` stands on the heap.
pub open spec fn mirrors_allocated(s: State) -> bool {
    forall|n: Seq<char>| #[trigger]
        s.vm.class_mirrors.contains_key(n) ==> (s.vm.class_mirrors[n].0 matches Some(id) ==> id < s.vm.heap.len())
}

/// Whether every class that has a mirror in `s` has the same in `t`.
pub open spec fn mirrors_kept(s: State, t: State) -> bool {
    forall|n: Seq<char>|
        s.vm.class_mirrors.contains_key(n) && s.vm.class_mirrors[n].0 is Some
            ==> #[trigger] t.vm.class_mirrors.contains_key(n) && t.vm.class_mirrors[n] == s.vm.class_mirrors[n]
}

/// Whether the table of mirrors is one to one and every mirror stands on the heap.
pub open spec fn sound(s: State) -> bool {
    mirrors_allocated(s) && one_to_one(s.vm.class_mirrors)
}

/// Whether every string that is interned in `s` is the same in `t`.
pub open spec fn strings_kept(s: State, t: State) -> bool {
    forall|n: Seq<char>| #[trigger]
        s.vm.strings.contains_key(n) ==> t.vm.strings.contains_key(n) && t.vm.strings[n] == s.vm.strings[n]
}

/// Whether `t` has the classes, interned strings and mirrors of `s`.
#[verifier::opaque]
pub open spec fn tables_kept(s: State, t: State) -> bool {
    &&& t.vm.registry == s.vm.registry
    &&& strings_kept(s, t)
    &&& mirrors_kept(s, t)
    &&& sound(t)
}

/// Tables that are kept twice are kept.
pub(crate) proof fn tables_kept_trans(a: State, b: State, c: State)
    requires
        tables_kept(a, b),
        tables_kept(b, c),
    ensures
        tables_kept(a, c),
{
    reveal(tables_kept);
    if !mirrors_kept(a, c) {
        let n = choose|n: Seq<char>|
            a.vm.class_mirrors.contains_key(n) && a.vm.class_mirrors[n].0 is Some && !(
            #[trigger] c.vm.class_mirrors.contains_key(n) && c.vm.class_mirrors[n] == a.vm.class_mirrors[n]);
        assert(b.vm.class_mirrors.contains_key(n));
        assert(c.vm.class_mirrors.contains_key(n));
    }
}

/// Whether no mirror is `null`, as long as there is a class to make mirrors of and there are handles.
pub open spec fn mirrors_there(s: State) -> bool {
    s.class("java/lang/Class"@) is Some && s.vm.heap.len() < handle_space() ==> forall|n: Seq<char>| #[trigger]
        s.vm.class_mirrors.contains_key(n) ==> s.vm.class_mirrors[n].0 is Some
}

/// Whether the class mirrors of `t` are as sound as those of `s`, and every mirror of `s` is one of `t`.
#[verifier::opaque]
pub open spec fn mirrors_stay(s: State, t: State) -> bool {
    &&& mirrors_allocated(s) ==> mirrors_allocated(t) && mirrors_kept(s, t)
    &&& one_to_one(s.vm.class_mirrors) ==> one_to_one(t.vm.class_mirrors)
    &&& mirrors_there(s) ==> mirrors_there(t)
}

/// A state with the same classes and mirrors and no smaller heap.
pub(crate) proof fn same_mirrors_stay(s: State, t: State)
    requires
        t.vm.class_mirrors == s.vm.class_mirrors,
        t.vm.registry == s.vm.registry,
        s.vm.heap.len() <= t.vm.heap.len(),
    ensures
        mirrors_stay(s, t),
{
    reveal(mirrors_stay);
    assert forall|n: Seq<char>| mirrors_allocated(s) && #[trigger] t.vm.class_mirrors.contains_key(n) implies (
    t.vm.class_mirrors[n].0 matches Some(id) ==> id < t.vm.heap.len()) by {
        assert(s.vm.class_mirrors.contains_key(n));
    }
}

/// Binding a fresh mirror.
proof fn bound_mirror_stays(s: State, name: Seq<char>)
    requires
        !s.vm.class_mirrors.contains_key(name),
    ensures
        ({
            let (s1, r) = s.alloc_fresh("java/lang/Class"@);
            mirrors_stay(s, mirror_bound(s1, name, r))
        }),
{
    reveal(mirrors_stay);
    let (s1, r) = s.alloc_fresh("java/lang/Class"@);
    let t = mirror_bound(s1, name, r);
    assert(t.vm.class_mirrors == bound(s.vm.class_mirrors, name, r));
    if one_to_one(s.vm.class_mirrors) {
        law_bound_both_ways(s.vm.class_mirrors, name, r);
    }
    if mirrors_allocated(s) {
        assert forall|n: Seq<char>|
            s.vm.class_mirrors.contains_key(n)
                && s.vm.class_mirrors[n].0 is Some implies #[trigger] t.vm.class_mirrors.contains_key(n)
            && t.vm.class_mirrors[n] == s.vm.class_mirrors[n] by {
            assert(s.vm.class_mirrors[n] != r);
        }
    }
    assert(t.class("java/lang/Class"@) == s.class("java/lang/Class"@));
    if mirrors_there(s) && t.class("java/lang/Class"@) is Some && t.vm.heap.len() < handle_space() {
        assert forall|n: Seq<char>| #[trigger] t.vm.class_mirrors.contains_key(n) implies t.vm.class_mirrors[n].0 is Some by {
            if n != name {
                assert(s.vm.class_mirrors.contains_key(n));
            }
        }
    }
}

/// Every state is what it can become.
pub(crate) proof fn grown_refl(s: State)
    ensures
        grown(s, s),
{
    reveal(grown);
    same_mirrors_stay(s, s);
}

/// What can become something that can become something else can become that.
pub(crate) proof fn grown_trans(a: State, b: State, c: State)
    requires
        grown(a, b),
        grown(b, c),
    ensures
        grown(a, c),
{
    reveal(grown);
    assert(mirrors_stay(a, c)) by {
        reveal(mirrors_stay);
        assert forall|n: Seq<char>|
            mirrors_allocated(a) && a.vm.class_mirrors.contains_key(n)
                && a.vm.class_mirrors[n].0 is Some implies #[trigger] c.vm.class_mirrors.contains_key(n)
            && c.vm.class_mirrors[n] == a.vm.class_mirrors[n] by {
            assert(b.vm.class_mirrors.contains_key(n));
        }
    }
    assert forall|i: int| 0 <= i < a.vm.heap.len() implies same_shape(a.vm.heap[i], #[trigger] c.vm.heap[i]) by {
        assert(same_shape(a.vm.heap[i], b.vm.heap[i]));
    }
    assert forall|x: Seq<char>| a.vm.strings.contains_key(x) implies #[trigger] c.vm.strings.contains_key(x)
        && c.vm.strings[x] == a.vm.strings[x] by {
        assert(b.vm.strings.contains_key(x));
    }
}

/// A state that differs only in bookkeeping tables.
pub(crate) proof fn tables_grown(s: State, t: State)
    requires
        t.thread.call_stack == s.thread.call_stack,
        t.thread.frame_depth == s.thread.frame_depth,
        t.thread.stack_limit == s.thread.stack_limit,
        s.thread.thread_ref is Some ==> t.thread.thread_ref == s.thread.thread_ref,
        t.vm.registry == s.vm.registry,
        t.vm.natives == s.vm.natives,
        t.vm.initialized == s.vm.initialized,
        t.vm.platform == s.vm.platform,
        t.vm.phase == s.vm.phase,
        t.vm.heap == s.vm.heap,
        t.vm.strings == s.vm.strings,
        t.vm.class_mirrors == s.vm.class_mirrors,
    ensures
        grown(s, t),
{
    reveal(grown);
    same_mirrors_stay(s, t);
}

pub(crate) proof fn alloc_grown(s: State, o: Object)
    ensures
        grown(s, s.alloc_object(o).0),
{
    reveal(grown);
    same_mirrors_stay(s, s.alloc_object(o).0);
}

pub(crate) proof fn fresh_grown(s: State, class: Seq<char>)
    ensures
        grown(s, s.alloc_fresh(class).0),
{
    grown_refl(s);
    if s.class(class) is Some {
        alloc_grown(s, s.class(class)->0.fresh());
    }
}

pub(crate) proof fn field_grown(s: State, r: Reference, ord: int, slot: Slot)
    ensures
        grown(s, s.write_field(r, ord, slot)),
{
    reveal(grown);
    same_mirrors_stay(s, s.write_field(r, ord, slot));
}

pub(crate) proof fn element_grown(s: State, r: Reference, index: int, slot: Slot)
    ensures
        grown(s, s.write_element(r, index, slot)),
{
    reveal(grown);
    same_mirrors_stay(s, s.write_element(r, index, slot));
}

pub(crate) proof fn named_grown(s: State, obj: Reference, class: Seq<char>, field: Seq<char>, slot: Slot)
    ensures
        grown(s, named_field_written(s, obj, class, field, slot)),
{
    grown_refl(s);
    match s.field_ord(class, field) {
        Some(ord) => field_grown(s, obj, ord, slot),
        None => {},
    }
}

pub(crate) proof fn built_grown(s: State, text: Seq<char>)
    ensures
        grown(s, built(s, text).0),
{
    grown_refl(s);
    if s.pending_initializer("java/lang/String"@) is None && build_layout(s) is Ok {
        let (c, v, k) = build_layout(s)->Ok_0;
        let o = Object::Array { class: "[B"@, elements: byte_slots(encoded(text).0) };
        let s1 = s.alloc_object(o).0;
        alloc_grown(s, o);
        let t = built(s, text).0;
        let fields = crate::runtime::oop::with_slot(
            crate::runtime::oop::with_slot(
                crate::metadata::class_registry::default_fields(c.instance_fields@),
                v,
                Slot::Reference(s.alloc_object(o).1),
            ),
            k,
            Slot::Int(encoded(text).1 as i32),
        );
        let p = Object::Instance { class: c.name@, fields };
        assert(t == s1.alloc_object(p).0);
        alloc_grown(s1, p);
        grown_trans(s, s1, t);
    }
}

pub(crate) proof fn interned_grown(s: State, text: Seq<char>)
    ensures
        grown(s, interned(s, text).0),
{
    grown_refl(s);
    if !s.vm.strings.contains_key(text) {
        built_grown(s, text);
        let b = built(s, text).0;
        let t = interned(s, text).0;
        assert(grown(b, t)) by {
            reveal(grown);
            built_keeps_strings(s, text);
            same_mirrors_stay(b, t);
        }
        grown_trans(s, b, t);
    }
}

proof fn built_keeps_strings(s: State, text: Seq<char>)
    ensures
        built(s, text).0.vm.strings == s.vm.strings,
{
}

pub(crate) proof fn text_field_grown(s: State, obj: Reference, class: Seq<char>, field: Seq<char>, text: Seq<char>)
    ensures
        grown(s, text_field_written(s, obj, class, field, text)),
{
    interned_grown(s, text);
    match interned(s, text) {
        (t, Ok(r)) => {
            named_grown(t, obj, class, field, Slot::Reference(r));
            grown_trans(s, t, text_field_written(s, obj, class, field, text));
        },
        (t, Err(_)) => {},
    }
}

pub(crate) proof fn thrown_grown(s: State, class: Seq<char>)
    ensures
        grown(s, thrown(s, class).0),
{
    let o = super::exceptions::exception_object(s, class);
    let (t, r) = s.alloc_object(o);
    alloc_grown(s, o);
    tables_grown(t, trace_recorded(t, r));
    grown_trans(s, t, trace_recorded(t, r));
}

pub(crate) proof fn thrown_with_message_grown(s: State, class: Seq<char>, message: Seq<char>)
    ensures
        grown(s, thrown_with_message(s, class, message).0),
{
    let (s1, r) = thrown(s, class);
    thrown_grown(s, class);
    let s2 = message_recorded(s1, r, message);
    tables_grown(s1, s2);
    grown_trans(s, s1, s2);
    interned_grown(s2, message);
    match interned(s2, message) {
        (s3, Ok(text)) => {
            grown_trans(s, s2, s3);
            named_grown(s3, r, class, "detailMessage"@, Slot::Reference(text));
            grown_trans(s, s3, thrown_with_message(s, class, message).0);
        },
        (s3, Err(_)) => {
            grown_trans(s, s2, s3);
        },
    }
}

pub(crate) proof fn backtrace_grown(s: State, exc: Reference)
    ensures
        grown(s, backtrace_captured(s, exc)),
{
    let s1 = trace_recorded(s, exc);
    tables_grown(s, s1);
    let s2 = named_field_written(s1, exc, "java/lang/Throwable"@, "backtrace"@, Slot::Reference(exc));
    named_grown(s1, exc, "java/lang/Throwable"@, "backtrace"@, Slot::Reference(exc));
    grown_trans(s, s1, s2);
    named_grown(
        s2,
        exc,
        "java/lang/Throwable"@,
        "depth"@,
        Slot::Int(s.thread.call_stack.len() as i32),
    );
    grown_trans(s, s2, backtrace_captured(s, exc));
}

pub(crate) proof fn module_mirror_grown(s: State, name: Seq<char>)
    ensures
        grown(s, module_mirror(s, name).0),
{
    grown_refl(s);
    if !s.vm.module_mirrors.contains_key(name) {
        let (s1, r) = s.alloc_fresh("java/lang/Module"@);
        fresh_grown(s, "java/lang/Module"@);
        if r.0 is Some {
            let s2 = State { vm: Shared { module_mirrors: s1.vm.module_mirrors.insert(name, r), ..s1.vm }, ..s1 };
            tables_grown(s1, s2);
            grown_trans(s, s1, s2);
            interned_grown(s2, name);
            match interned(s2, name) {
                (s3, Ok(text)) => {
                    grown_trans(s, s2, s3);
                    named_grown(s3, r, "java/lang/Module"@, "name"@, Slot::Reference(text));
                    grown_trans(s, s3, module_mirror(s, name).0);
                },
                (s3, Err(_)) => {
                    grown_trans(s, s2, s3);
                },
            }
        }
    }
}

pub(crate) proof fn module_for_grown(s: State, internal: Seq<char>)
    ensures
        grown(s, module_for(s, internal).0),
{
    match module_name_for(s, internal) {
        Some(m) => module_mirror_grown(s, m),
        None => {
            grown_refl(s);
            if s.vm.unnamed_module is None {
                let (s1, r) = s.alloc_fresh("java/lang/Module"@);
                fresh_grown(s, "java/lang/Module"@);
                if r.0 is Some {
                    let s2 = State { vm: Shared { unnamed_module: Some(r), ..s1.vm }, ..s1 };
                    tables_grown(s1, s2);
                    grown_trans(s, s1, s2);
                }
            }
        },
    }
}

pub(crate) proof fn mirror_finished_grown(s: State, mirror: Reference, internal: Seq<char>)
    ensures
        grown(s, mirror_finished(s, mirror, internal)),
{
    let class = "java/lang/Class"@;
    grown_refl(s);
    let s1 = if primitive_keyword(internal) {
        mirror_field_written(s, mirror, "primitive"@, Slot::Int(1))
    } else {
        s
    };
    named_grown(s, mirror, class, "primitive"@, Slot::Int(1));
    let (s2, module) = module_for(s1, internal);
    module_for_grown(s1, internal);
    grown_trans(s, s1, s2);
    let s3 = mirror_field_written(s2, mirror, "module"@, Slot::Reference(module));
    named_grown(s2, mirror, class, "module"@, Slot::Reference(module));
    grown_trans(s, s2, s3);
    let m = Slot::Int(super::mirrors::mirror_modifiers(s3, internal));
    named_grown(s3, mirror, class, "modifiers"@, m);
    grown_trans(s, s3, mirror_finished(s, mirror, internal));
}

/// The state before the last fields of a new class mirror are filled in.
pub open spec fn mirror_begun(s: State, name: Seq<char>) -> State {
    let (s1, r) = s.alloc_fresh("java/lang/Class"@);
    let s2 = mirror_bound(s1, name, r);
    match component_name(name) {
        Some(c) => {
            let (t, m) = class_mirror(s2, c);
            mirror_field_written(t, r, "componentType"@, Slot::Reference(m))
        },
        None => s2,
    }
}

pub(crate) proof fn class_mirror_grown(s: State, name: Seq<char>)
    ensures
        grown(s, class_mirror(s, name).0),
        !s.vm.class_mirrors.contains_key(name) ==> class_mirror(s, name) == (
            mirror_finished(mirror_begun(s, name), s.alloc_fresh("java/lang/Class"@).1, name),
            s.alloc_fresh("java/lang/Class"@).1,
        ),
    decreases array_len(name),
{
    grown_refl(s);
    if !s.vm.class_mirrors.contains_key(name) {
        let (s1, r) = s.alloc_fresh("java/lang/Class"@);
        fresh_grown(s, "java/lang/Class"@);
        let s2 = mirror_bound(s1, name, r);
        assert(grown(s, s2)) by {
            reveal(grown);
            bound_mirror_stays(s, name);
        }
        let s3 = mirror_begun(s, name);
        match component_name(name) {
            Some(c) => {
                component_shrinks(name);
                class_mirror_grown(s2, c);
                let (t, m) = class_mirror(s2, c);
                grown_trans(s, s2, t);
                named_grown(t, r, "java/lang/Class"@, "componentType"@, Slot::Reference(m));
                grown_trans(s, t, s3);
            },
            None => {},
        }
        mirror_finished_grown(s3, r, name);
        grown_trans(s, s3, class_mirror(s, name).0);
    }
}

pub(crate) proof fn system_group_grown(s: State)
    ensures
        grown(s, system_group(s).0),
{
    grown_refl(s);
    if s.vm.system_group is None {
        let class = "java/lang/ThreadGroup"@;
        let (s1, r) = s.alloc_fresh(class);
        fresh_grown(s, class);
        if r.0 is Some {
            let s2 = text_field_written(s1, r, class, "name"@, "main"@);
            text_field_grown(s1, r, class, "name"@, "main"@);
            grown_trans(s, s1, s2);
            let s3 = named_field_written(s2, r, class, "maxPriority"@, Slot::Int(10));
            named_grown(s2, r, class, "maxPriority"@, Slot::Int(10));
            grown_trans(s, s2, s3);
            tables_grown(s3, system_group(s).0);
            grown_trans(s, s3, system_group(s).0);
        }
    }
}

pub(crate) proof fn holder_filled_grown(s: State, holder: Reference, group: Reference)
    ensures
        grown(s, holder_filled(s, holder, group)),
{
    let c = "java/lang/Thread$FieldHolder"@;
    let s1 = named_field_written(s, holder, c, "group"@, Slot::Reference(group));
    named_grown(s, holder, c, "group"@, Slot::Reference(group));
    let s2 = named_field_written(s1, holder, c, "priority"@, Slot::Int(5));
    named_grown(s1, holder, c, "priority"@, Slot::Int(5));
    grown_trans(s, s1, s2);
    let s3 = named_field_written(s2, holder, c, "daemon"@, Slot::Int(0));
    named_grown(s2, holder, c, "daemon"@, Slot::Int(0));
    grown_trans(s, s2, s3);
    let s4 = named_field_written(s3, holder, c, "threadStatus"@, Slot::Int(0));
    named_grown(s3, holder, c, "threadStatus"@, Slot::Int(0));
    grown_trans(s, s3, s4);
    named_grown(s4, holder, c, "stackSize"@, Slot::Long(0));
    grown_trans(s, s4, holder_filled(s, holder, group));
}

pub(crate) proof fn holder_attached_grown(s: State, main: Reference)
    ensures
        grown(s, holder_attached(s, main)),
{
    let (s1, group) = system_group(s);
    system_group_grown(s);
    if group.0 is Some {
        let (s2, holder) = s1.alloc_fresh("java/lang/Thread$FieldHolder"@);
        fresh_grown(s1, "java/lang/Thread$FieldHolder"@);
        grown_trans(s, s1, s2);
        if holder.0 is Some {
            let s3 = holder_filled(s2, holder, group);
            holder_filled_grown(s2, holder, group);
            grown_trans(s, s2, s3);
            named_grown(s3, main, "java/lang/Thread"@, "holder"@, Slot::Reference(holder));
            grown_trans(s, s3, holder_attached(s, main));
        }
    }
}

pub(crate) proof fn own_thread_grown(s: State)
    ensures
        grown(s, own_thread(s).0),
{
    grown_refl(s);
    if s.thread.thread_ref is None {
        let class = "java/lang/Thread"@;
        let (s1, r) = s.alloc_fresh(class);
        fresh_grown(s, class);
        if r.0 is Some {
            let (s2, tid) = tid_taken(s1);
            tables_grown(s1, s2);
            grown_trans(s, s1, s2);
            let s3 = text_field_written(s2, r, class, "name"@, "main"@);
            text_field_grown(s2, r, class, "name"@, "main"@);
            grown_trans(s, s2, s3);
            let s4 = named_field_written(s3, r, class, "tid"@, Slot::Long(tid as i64));
            named_grown(s3, r, class, "tid"@, Slot::Long(tid as i64));
            grown_trans(s, s3, s4);
            let s5 = holder_attached(s4, r);
            holder_attached_grown(s4, r);
            grown_trans(s, s4, s5);
            assert(thread_allocated(s) == (s5, r));
            holder_keeps_identity(s4, r);
            assert(s5.thread.thread_ref is None) by {
                text_keeps_identity(s2, r, class, "name"@, "main"@);
            }
            tables_grown(s5, own_thread(s).0);
            grown_trans(s, s5, own_thread(s).0);
        }
    }
}

proof fn text_keeps_identity(s: State, obj: Reference, class: Seq<char>, field: Seq<char>, text: Seq<char>)
    ensures
        text_field_written(s, obj, class, field, text).thread == s.thread,
{
}

proof fn holder_keeps_identity(s: State, main: Reference)
    ensures
        holder_attached(s, main).thread == s.thread,
{
    assert(system_group(s).0.thread == s.thread) by {
        if s.vm.system_group is None {
            let (s1, r) = s.alloc_fresh("java/lang/ThreadGroup"@);
            text_keeps_identity(s1, r, "java/lang/ThreadGroup"@, "name"@, "main"@);
        }
    }
}

pub(crate) proof fn probed_grown(s: State, thread: Reference)
    ensures
        grown(s, interrupt_probed(s, thread).0),
{
    tables_grown(s, interrupt_probed(s, thread).0);
}

pub(crate) proof fn cleared_grown(s: State, thread: Reference)
    ensures
        grown(s, interrupt_cleared(s, thread)),
{
    let t = named_field_written(s, thread, "java/lang/Thread"@, "interrupted"@, Slot::Int(0));
    named_grown(s, thread, "java/lang/Thread"@, "interrupted"@, Slot::Int(0));
    tables_grown(t, flag_lowered(t, thread));
    grown_trans(s, t, flag_lowered(t, thread));
}

pub(crate) proof fn interrupted_grown(s: State, target: Reference)
    ensures
        grown(s, interrupted(s, target).0),
{
    if target.0 is None {
        thrown_grown(s, "java/lang/NullPointerException"@);
    } else {
        tables_grown(s, interrupted(s, target).0);
    }
}

pub(crate) proof fn status_grown(s: State, this: Reference, status: i32)
    ensures
        grown(s, status_written(s, this, status)),
{
    grown_refl(s);
    match super::mirrors::reference_field(s, this, "java/lang/Thread"@, "holder"@) {
        Some(h) => {
            named_grown(s, h, "java/lang/Thread$FieldHolder"@, "threadStatus"@, Slot::Int(status));
        },
        None => {},
    }
}

pub(crate) proof fn started_grown(s: State, this: Reference)
    ensures
        grown(s, started(s, this).0),
{
    if this.0 is None {
        thrown_grown(s, "java/lang/NullPointerException"@);
    } else {
        let t = eetop_written(s, this, 1);
        named_grown(s, this, "java/lang/Thread"@, "eetop"@, Slot::Long(1));
        status_grown(t, this, THREAD_STATUS_RUNNABLE);
        grown_trans(s, t, started(s, this).0);
    }
}

pub(crate) proof fn lock_held_grown(s: State, obj: Reference)
    ensures
        grown(s, lock_held(s, obj).0),
{
    grown_refl(s);
    if obj.0 is None {
        thrown_grown(s, "java/lang/NullPointerException"@);
    } else if thread_pending(s) is None {
        own_thread_grown(s);
    }
}

pub(crate) proof fn notified_grown(s: State, obj: Reference, all: bool)
    ensures
        grown(s, notified(s, obj, all).0),
{
    grown_refl(s);
    if obj.0 is None {
        thrown_grown(s, "java/lang/NullPointerException"@);
    } else if thread_pending(s) is None {
        let t = own_thread(s).0;
        own_thread_grown(s);
        thrown_grown(t, "java/lang/IllegalMonitorStateException"@);
        grown_trans(s, t, thrown(t, "java/lang/IllegalMonitorStateException"@).0);
        let u = notified(s, obj, all).0;
        if u != thrown(t, "java/lang/IllegalMonitorStateException"@).0 {
            tables_grown(t, u);
            grown_trans(s, t, u);
        }
    }
}

pub(crate) proof fn entered_grown(s: State, obj: Reference)
    ensures
        grown(s, entered(s, obj).0),
{
    grown_refl(s);
    if obj.0 is None {
        thrown_grown(s, "java/lang/NullPointerException"@);
    } else if thread_pending(s) is None {
        let t = own_thread(s).0;
        own_thread_grown(s);
        tables_grown(t, entered(s, obj).0);
        grown_trans(s, t, entered(s, obj).0);
    }
}

pub(crate) proof fn exited_grown(s: State, obj: Reference)
    ensures
        grown(s, exited(s, obj).0),
{
    grown_refl(s);
    if obj.0 is None {
        thrown_grown(s, "java/lang/NullPointerException"@);
    } else if thread_pending(s) is None {
        let t = own_thread(s).0;
        own_thread_grown(s);
        thrown_grown(t, "java/lang/IllegalMonitorStateException"@);
        grown_trans(s, t, thrown(t, "java/lang/IllegalMonitorStateException"@).0);
        let u = exited(s, obj).0;
        if u != thrown(t, "java/lang/IllegalMonitorStateException"@).0 {
            tables_grown(t, u);
            grown_trans(s, t, u);
        }
    }
}

pub(crate) proof fn wait_begun_grown(s: State, obj: Reference, millis: i64)
    ensures
        grown(s, wait_begun(s, obj, millis).0),
{
    grown_refl(s);
    if obj.0 is None {
        thrown_grown(s, "java/lang/NullPointerException"@);
    } else if millis < 0 {
        thrown_grown(s, "java/lang/IllegalArgumentException"@);
    } else if thread_pending(s) is None {
        let (s1, me) = own_thread(s);
        own_thread_grown(s);
        let (s2, interrupt) = interrupt_probed(s1, me);
        probed_grown(s1, me);
        grown_trans(s, s1, s2);
        if interrupt {
            let s3 = interrupt_cleared(s2, me);
            cleared_grown(s2, me);
            grown_trans(s, s2, s3);
            thrown_grown(s3, "java/lang/InterruptedException"@);
            grown_trans(s, s3, wait_begun(s, obj, millis).0);
        } else if !s2.vm.monitors.contains_key(obj) || s2.vm.monitors[obj].owner != Some(me) {
            thrown_grown(s2, "java/lang/IllegalMonitorStateException"@);
            grown_trans(s, s2, wait_begun(s, obj, millis).0);
        } else {
            tables_grown(s2, wait_begun(s, obj, millis).0);
            grown_trans(s, s2, wait_begun(s, obj, millis).0);
        }
    }
}

/// Monitors take nothing back: entering, leaving, testing, notifying and waiting keep everything that is there.
pub proof fn law_monitors_take_nothing_back(s: State, obj: Reference, all: bool, millis: i64)
    ensures
        grown(s, entered(s, obj).0),
        grown(s, exited(s, obj).0),
        grown(s, lock_held(s, obj).0),
        grown(s, notified(s, obj, all).0),
        grown(s, wait_begun(s, obj, millis).0),
{
    entered_grown(s, obj);
    exited_grown(s, obj);
    lock_held_grown(s, obj);
    notified_grown(s, obj, all);
    wait_begun_grown(s, obj, millis);
}

proof fn wait_resumed_grown(s: State, ticket: WaitTicket, came: bool)
    ensures
        grown(s, wait_resumed(s, ticket, came).0),
{
    grown_refl(s);
    let m = monitor_of(s, ticket.object);
    if available(m, ticket.owner) {
        let s1 = with_monitor(
            s,
            ticket.object,
            JavaMonitor { owner: Some(ticket.owner), count: ticket.saved_count, ..m },
        );
        tables_grown(s, s1);
        let s2 = interrupt_cleared(s1, ticket.owner);
        cleared_grown(s1, ticket.owner);
        grown_trans(s, s1, s2);
        thrown_grown(s2, "java/lang/InterruptedException"@);
        grown_trans(s, s2, thrown(s2, "java/lang/InterruptedException"@).0);
    }
}

proof fn terminated_grown(s: State, this: Reference)
    ensures
        grown(s, terminated(s, this).0),
{
    let t = entered(s, this).0;
    entered_grown(s, this);
    let s1 = status_written(t, this, THREAD_STATUS_TERMINATED);
    status_grown(t, this, THREAD_STATUS_TERMINATED);
    grown_trans(s, t, s1);
    let s2 = eetop_written(s1, this, 0);
    named_grown(s1, this, "java/lang/Thread"@, "eetop"@, Slot::Long(0));
    grown_trans(s, s1, s2);
    let s3 = notified(s2, this, true).0;
    notified_grown(s2, this, true);
    grown_trans(s, s2, s3);
    exited_grown(s3, this);
    grown_trans(s, s3, exited(s3, this).0);
}

/// Waiting, starting, ending and interrupting threads take nothing back.
pub proof fn law_threads_take_nothing_back(s: State, this: Reference, ticket: WaitTicket, came: bool)
    ensures
        grown(s, identity(s).0),
        grown(s, group_asked(s).0),
        grown(s, tid_taken(s).0),
        grown(s, wait_left(s, ticket).0),
        grown(s, wait_resumed(s, ticket, came).0),
        grown(s, started(s, this).0),
        grown(s, body_call(s, this).0),
        grown(s, terminated(s, this).0),
        grown(s, interrupt_probed(s, this).0),
        grown(s, interrupted(s, this).0),
        grown(s, interrupt_cleared(s, this)),
        grown(s, event_lowered(s).0),
{
    grown_refl(s);
    own_thread_grown(s);
    system_group_grown(s);
    tables_grown(s, tid_taken(s).0);
    tables_grown(s, wait_left(s, ticket).0);
    wait_resumed_grown(s, ticket, came);
    started_grown(s, this);
    thrown_grown(s, "java/lang/AbstractMethodError"@);
    terminated_grown(s, this);
    probed_grown(s, this);
    interrupted_grown(s, this);
    cleared_grown(s, this);
    if thread_pending(s) is None {
        let t = own_thread(s).0;
        tables_grown(t, event_lowered(s).0);
        grown_trans(s, t, event_lowered(s).0);
    }
}

/// Allocating, writing, interning, asking for mirrors and throwing take nothing back.
pub proof fn law_objects_take_nothing_back(
    s: State,
    o: Object,
    r: Reference,
    at: int,
    slot: Slot,
    class: Seq<char>,
    text: Seq<char>,
)
    ensures
        grown(s, s.alloc_object(o).0),
        grown(s, s.alloc_fresh(class).0),
        grown(s, s.write_field(r, at, slot)),
        grown(s, s.write_element(r, at, slot)),
        grown(s, named_field_written(s, r, class, text, slot)),
        grown(s, built(s, text).0),
        grown(s, interned(s, text).0),
        grown(s, mirror_asked(s, class).0),
        grown(s, module_asked(s, text).0),
        grown(s, thrown(s, class).0),
        grown(s, message_thrown(s, class, text).0),
        grown(s, backtrace_captured(s, r)),
        grown(s, trace_recorded(s, r)),
        grown(s, cause_recorded(s, r, s.alloc_object(o).1)),
        grown(s, message_recorded(s, r, text)),
{
    grown_refl(s);
    alloc_grown(s, o);
    fresh_grown(s, class);
    field_grown(s, r, at, slot);
    element_grown(s, r, at, slot);
    named_grown(s, r, class, text, slot);
    built_grown(s, text);
    interned_grown(s, text);
    class_mirror_grown(s, class);
    module_mirror_grown(s, text);
    thrown_grown(s, class);
    thrown_with_message_grown(s, class, text);
    backtrace_grown(s, r);
    tables_grown(s, trace_recorded(s, r));
    tables_grown(s, cause_recorded(s, r, s.alloc_object(o).1));
    tables_grown(s, message_recorded(s, r, text));
}

} // verus!
