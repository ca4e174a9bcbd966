//! The life of a thread: its mirror, its start, its body, its end and what becomes of an exception that ends it.

use vstd::prelude::*;

use super::exceptions::trace_text;
use super::mirror_laws::{interned_keeps, named_write_read};
use super::mirrors::{int_field, named_field, named_field_written, reference_field};
use super::monitors::{entered, exited, notified, released, succ, with_monitor, MonitorStep};
use super::threads::{
    body_call, eetop_written, event_lowered, group_asked, holder_attached, holder_filled, interrupt_cleared, interrupted,
    own_thread, started, status_written, system_group, terminated, text_field_written, thread_pending, uncaught_call,
    uncaught_report, uncaught_step, void_expected, Uncaught,
};
use super::{JavaMonitor, State};
use crate::runtime::frame::FrameError;
use crate::runtime::heap::handle_space;
use crate::runtime::invocation::Call;
use crate::runtime::oop::Object;
use crate::runtime::slot::{Reference, Slot};
use crate::runtime::string::{interned, text_at, text_pending};
use crate::runtime::value::{Value, VmError};

verus! {

/// Whether `r` is an instance with the fields of `class`, which has field `field`.
pub open spec fn has_field(s: State, r: Reference, class: Seq<char>, field: Seq<char>) -> bool {
    &&& s.object(r) is Some && s.object(r)->0 is Instance
    &&& s.class(class) matches Some(c) && s.object(r)->0->fields.len() == c.instance_fields@.len() && c.ord_of(
        field,
    ) is Some
}

/// The holder of a new thread mirror: the group that it belongs to, normal priority, no daemon, not started, and no
/// wish for a stack size.
pub proof fn law_new_holder(s: State, holder: Reference, group: Reference)
    requires
        ({
            let class = "java/lang/Thread$FieldHolder"@;
            has_field(s, holder, class, "group"@) && has_field(s, holder, class, "priority"@) && has_field(
                s,
                holder,
                class,
                "daemon"@,
            ) && has_field(s, holder, class, "threadStatus"@) && has_field(s, holder, class, "stackSize"@)
        }),
    ensures
        ({
            let class = "java/lang/Thread$FieldHolder"@;
            let t = holder_filled(s, holder, group);
            &&& reference_field(t, holder, class, "group"@) == Some(group)
            &&& int_field(t, holder, class, "priority"@) == Some(5i32)
            &&& int_field(t, holder, class, "daemon"@) == Some(0i32)
            &&& int_field(t, holder, class, "threadStatus"@) == Some(0i32)
            &&& named_field(t, holder, class, "stackSize"@) == Some(Slot::Long(0))
        }),
{
    reveal_strlit("group");
    reveal_strlit("priority");
    reveal_strlit("daemon");
    reveal_strlit("threadStatus");
    reveal_strlit("stackSize");
    assert("group"@.len() == 5 && "priority"@.len() == 8 && "daemon"@.len() == 6 && "threadStatus"@.len() == 12
        && "stackSize"@.len() == 9);
    let class = "java/lang/Thread$FieldHolder"@;
    let c = s.class(class)->0;
    let s1 = named_field_written(s, holder, class, "group"@, Slot::Reference(group));
    named_write_read(s, holder, class, c, "group"@, Slot::Reference(group), "priority"@);
    let s2 = named_field_written(s1, holder, class, "priority"@, Slot::Int(5));
    named_write_read(s1, holder, class, c, "priority"@, Slot::Int(5), "group"@);
    let s3 = named_field_written(s2, holder, class, "daemon"@, Slot::Int(0));
    named_write_read(s2, holder, class, c, "daemon"@, Slot::Int(0), "group"@);
    named_write_read(s2, holder, class, c, "daemon"@, Slot::Int(0), "priority"@);
    let s4 = named_field_written(s3, holder, class, "threadStatus"@, Slot::Int(0));
    named_write_read(s3, holder, class, c, "threadStatus"@, Slot::Int(0), "group"@);
    named_write_read(s3, holder, class, c, "threadStatus"@, Slot::Int(0), "priority"@);
    named_write_read(s3, holder, class, c, "threadStatus"@, Slot::Int(0), "daemon"@);
    named_write_read(s4, holder, class, c, "stackSize"@, Slot::Long(0), "group"@);
    named_write_read(s4, holder, class, c, "stackSize"@, Slot::Long(0), "priority"@);
    named_write_read(s4, holder, class, c, "stackSize"@, Slot::Long(0), "daemon"@);
    named_write_read(s4, holder, class, c, "stackSize"@, Slot::Long(0), "threadStatus"@);
}

/// A write by name changes no other object and no class.
proof fn write_leaves(s: State, obj: Reference, class: Seq<char>, field: Seq<char>, slot: Slot, x: Reference)
    requires
        x != obj,
    ensures
        named_field_written(s, obj, class, field, slot).object(x) == s.object(x),
        named_field_written(s, obj, class, field, slot).vm.registry == s.vm.registry,
{
}

proof fn text_leaves(s: State, obj: Reference, class: Seq<char>, field: Seq<char>, text: Seq<char>, x: Reference)
    requires
        x != obj,
        s.object(x) is Some,
    ensures
        text_field_written(s, obj, class, field, text).object(x) == s.object(x),
        text_field_written(s, obj, class, field, text).vm.registry == s.vm.registry,
{
    interned_keeps(s, text, x);
}

proof fn group_leaves(s: State, x: Reference)
    requires
        s.object(x) is Some,
    ensures
        system_group(s).0.object(x) == s.object(x),
        system_group(s).0.vm.registry == s.vm.registry,
        system_group(s).0.vm.next_tid == s.vm.next_tid,
{
    if s.vm.system_group is None {
        let class = "java/lang/ThreadGroup"@;
        let (s1, r) = s.alloc_fresh(class);
        if r.0 is Some {
            assert(x != r);
            text_leaves(s1, r, class, "name"@, "main"@, x);
            let s2 = text_field_written(s1, r, class, "name"@, "main"@);
            write_leaves(s2, r, class, "maxPriority"@, Slot::Int(10), x);
        }
    }
}

proof fn holder_leaves(s: State, holder: Reference, group: Reference, x: Reference)
    requires
        x != holder,
    ensures
        holder_filled(s, holder, group).object(x) == s.object(x),
        holder_filled(s, holder, group).vm.registry == s.vm.registry,
{
    let c = "java/lang/Thread$FieldHolder"@;
    let s1 = named_field_written(s, holder, c, "group"@, Slot::Reference(group));
    let s2 = named_field_written(s1, holder, c, "priority"@, Slot::Int(5));
    let s3 = named_field_written(s2, holder, c, "daemon"@, Slot::Int(0));
    let s4 = named_field_written(s3, holder, c, "threadStatus"@, Slot::Int(0));
    write_leaves(s, holder, c, "group"@, Slot::Reference(group), x);
    write_leaves(s1, holder, c, "priority"@, Slot::Int(5), x);
    write_leaves(s2, holder, c, "daemon"@, Slot::Int(0), x);
    write_leaves(s3, holder, c, "threadStatus"@, Slot::Int(0), x);
    write_leaves(s4, holder, c, "stackSize"@, Slot::Long(0), x);
}

/// A thread without mirror gets a new `Thread` whose id is the next one, which is then used up, and whose name is
/// `main`; it is its own from then on, and the main thread if there was none.
pub proof fn law_new_thread(s: State)
    requires
        s.thread.thread_ref is None,
        thread_pending(s) is None,
        s.vm.heap.len() + 6 <= handle_space(),
        s.vm.next_tid < u64::MAX,
        s.class("java/lang/Thread"@) matches Some(c) && c.ord_of("name"@) is Some && c.ord_of("tid"@) is Some,
        interned(s, "main"@).1 is Ok,
    ensures
        ({
            let (t, me) = own_thread(s);
            let class = "java/lang/Thread"@;
            &&& me.0 is Some && s.object(me) is None
            &&& t.object(me) is Some && t.object(me)->0 is Instance && t.object(me)->0->Instance_class == class
            &&& named_field(t, me, class, "tid"@) == Some(Slot::Long(s.vm.next_tid as i64))
            &&& t.vm.next_tid == s.vm.next_tid + 1
            &&& reference_field(t, me, class, "name"@) is Some && t.vm.strings.get("main"@) == reference_field(
                t,
                me,
                class,
                "name"@,
            )
            &&& t.thread.thread_ref == Some(me)
            &&& t.vm.main_thread == match s.vm.main_thread {
                Some(m) => Some(m),
                None => Some(me),
            }
        }),
{
    reveal_strlit("name");
    reveal_strlit("tid");
    reveal_strlit("holder");
    assert("name"@.len() == 4 && "tid"@.len() == 3 && "holder"@.len() == 6);
    let class = "java/lang/Thread"@;
    let c = s.class(class)->0;
    crate::metadata::registry_laws::law_found_classes(s.vm.registry->0, class);
    let (s1, r) = s.alloc_fresh(class);
    assert(s1.object(r) == Some(c.fresh()));
    let s2 = super::threads::tid_taken(s1).0;
    let tid = super::threads::tid_taken(s1).1;
    assert(interned(s2, "main"@).1 is Ok) by {
        assert(s2.vm.registry == s.vm.registry && s2.vm.initialized == s.vm.initialized && s2.vm.strings
            == s.vm.strings);
    }
    let (b, name) = (interned(s2, "main"@).0, interned(s2, "main"@).1->Ok_0);
    interned_keeps(s2, "main"@, r);
    let s3 = text_field_written(s2, r, class, "name"@, "main"@);
    named_write_read(b, r, class, c, "name"@, Slot::Reference(name), "tid"@);
    let s4 = named_field_written(s3, r, class, "tid"@, Slot::Long(tid as i64));
    named_write_read(s3, r, class, c, "tid"@, Slot::Long(tid as i64), "name"@);
    group_leaves(s4, r);
    let (g, group) = system_group(s4);
    super::growth::system_group_grown(s4);
    let t = super::threads::holder_attached(s4, r);
    if group.0 is Some {
        let (h, holder) = g.alloc_fresh("java/lang/Thread$FieldHolder"@);
        if holder.0 is Some {
            assert(holder != r);
            holder_leaves(h, holder, group, r);
            let f = holder_filled(h, holder, group);
            named_write_read(f, r, class, c, "holder"@, Slot::Reference(holder), "tid"@);
            named_write_read(f, r, class, c, "holder"@, Slot::Reference(holder), "name"@);
        }
    }
    super::growth::holder_attached_grown(s4, r);
    assert(t.vm.strings.contains_key("main"@) && t.vm.strings["main"@] == name) by {
        reveal(super::growth::grown);
        assert(s4.vm.strings.contains_key("main"@) && s4.vm.strings["main"@] == name);
    }
}

/// A thread that was started counts as alive and runnable; nothing is started without a thread.
pub proof fn law_starting(s: State, this: Reference, holder: Reference)
    requires
        has_field(s, this, "java/lang/Thread"@, "eetop"@),
        has_field(s, this, "java/lang/Thread"@, "holder"@),
        reference_field(s, this, "java/lang/Thread"@, "holder"@) == Some(holder),
        has_field(s, holder, "java/lang/Thread$FieldHolder"@, "threadStatus"@),
        holder != this,
    ensures
        started(s, this).1 == Ok::<(), VmError>(()),
        named_field(started(s, this).0, this, "java/lang/Thread"@, "eetop"@) == Some(Slot::Long(1)),
        int_field(started(s, this).0, holder, "java/lang/Thread$FieldHolder"@, "threadStatus"@) == Some(5i32),
        started(s, Reference(None)) == super::monitors::failed::<()>(s, "java/lang/NullPointerException"@),
{
    reveal_strlit("eetop");
    reveal_strlit("holder");
    assert("eetop"@.len() == 5 && "holder"@.len() == 6);
    let class = "java/lang/Thread"@;
    let c = s.class(class)->0;
    let t = named_field_written(s, this, class, "eetop"@, Slot::Long(1));
    named_write_read(s, this, class, c, "eetop"@, Slot::Long(1), "holder"@);
    write_leaves(s, this, class, "eetop"@, Slot::Long(1), holder);
    let d = s.class("java/lang/Thread$FieldHolder"@)->0;
    named_write_read(t, holder, "java/lang/Thread$FieldHolder"@, d, "threadStatus"@, Slot::Int(5), "eetop"@);
    write_leaves(t, holder, "java/lang/Thread$FieldHolder"@, "threadStatus"@, Slot::Int(5), this);
}

/// A thread that has ended is no longer alive and counts as terminated; those who wait for it are told, and its monitor
/// is as it was before. While another thread holds that monitor, nothing happens yet.
pub proof fn law_ending(s: State, me: Reference, this: Reference, holder: Reference)
    requires
        s.thread.thread_ref == Some(me),
        this.0 is Some,
        has_field(s, this, "java/lang/Thread"@, "eetop"@),
        has_field(s, this, "java/lang/Thread"@, "holder"@),
        reference_field(s, this, "java/lang/Thread"@, "holder"@) == Some(holder),
        has_field(s, holder, "java/lang/Thread$FieldHolder"@, "threadStatus"@),
        holder != this,
        s.vm.monitors.get(this) matches Some(m) ==> m.count < u64::MAX && (m.owner is None <==> m.count == 0),
    ensures
        ({
            let (t, r) = terminated(s, this);
            let m = match s.vm.monitors.get(this) {
                Some(m) => m,
                None => JavaMonitor { owner: None, count: 0, waiters: 0, wake_seq: 0 },
            };
            &&& m.owner is Some && m.owner != Some(me) ==> r == Ok::<MonitorStep, VmError>(MonitorStep::Blocked) && t.vm.heap
                == s.vm.heap
            &&& m.owner is None || m.owner == Some(me) ==> {
                &&& r == Ok::<MonitorStep, VmError>(MonitorStep::Entered)
                &&& named_field(t, this, "java/lang/Thread"@, "eetop"@) == Some(Slot::Long(0))
                &&& int_field(t, holder, "java/lang/Thread$FieldHolder"@, "threadStatus"@) == Some(2i32)
                &&& t.vm.monitors.get(this) matches Some(n) && n.owner == m.owner && n.count == m.count && n.waiters
                    == m.waiters && (m.waiters > 0 ==> n.wake_seq != m.wake_seq)
            }
        }),
{
    let (s0, step) = entered(s, this);
    assert(s0.vm.heap == s.vm.heap && s0.vm.registry == s.vm.registry && s0.thread == s.thread);
    if step == Ok::<MonitorStep, VmError>(MonitorStep::Entered) {
        let class = "java/lang/Thread"@;
        assert(reference_field(s0, this, class, "holder"@) == Some(holder));
        assert(has_field(s0, holder, "java/lang/Thread$FieldHolder"@, "threadStatus"@));
        assert(has_field(s0, this, class, "eetop"@) && has_field(s0, this, class, "holder"@));
        fields_at_the_end(s0, this, holder);
        let s2 = eetop_written(status_written(s0, this, 2), this, 0);
        assert(s2.vm.monitors.get(this) matches Some(n) && n.owner == Some(me) && n.count > 0);
        monitor_at_the_end(s2, me, this);
        assert(terminated(s, this).0 == exited(notified(s2, this, true).0, this).0);
    }
}

proof fn fields_at_the_end(s: State, this: Reference, holder: Reference)
    requires
        has_field(s, this, "java/lang/Thread"@, "eetop"@),
        has_field(s, this, "java/lang/Thread"@, "holder"@),
        reference_field(s, this, "java/lang/Thread"@, "holder"@) == Some(holder),
        has_field(s, holder, "java/lang/Thread$FieldHolder"@, "threadStatus"@),
        holder != this,
    ensures
        ({
            let t = eetop_written(status_written(s, this, 2), this, 0);
            &&& named_field(t, this, "java/lang/Thread"@, "eetop"@) == Some(Slot::Long(0))
            &&& int_field(t, holder, "java/lang/Thread$FieldHolder"@, "threadStatus"@) == Some(2i32)
            &&& t.vm.monitors == s.vm.monitors && t.thread == s.thread
        }),
{
    reveal_strlit("eetop");
    reveal_strlit("holder");
    assert("eetop"@.len() == 5 && "holder"@.len() == 6);
    let class = "java/lang/Thread"@;
    let held = "java/lang/Thread$FieldHolder"@;
    let c = s.class(class)->0;
    let d = s.class(held)->0;
    assert(holder.0 is Some);
    let s1 = named_field_written(s, holder, held, "threadStatus"@, Slot::Int(2));
    assert(status_written(s, this, 2) == s1);
    named_write_read(s, holder, held, d, "threadStatus"@, Slot::Int(2), "eetop"@);
    write_leaves(s, holder, held, "threadStatus"@, Slot::Int(2), this);
    named_write_read(s1, this, class, c, "eetop"@, Slot::Long(0), "holder"@);
    write_leaves(s1, this, class, "eetop"@, Slot::Long(0), holder);
}

proof fn monitor_at_the_end(s: State, me: Reference, this: Reference)
    requires
        s.thread.thread_ref == Some(me),
        this.0 is Some,
        s.vm.monitors.get(this) matches Some(n) && n.owner == Some(me) && n.count > 0,
    ensures
        ({
            let t = exited(notified(s, this, true).0, this).0;
            let m = s.vm.monitors[this];
            &&& t.vm.heap == s.vm.heap && t.vm.registry == s.vm.registry
            &&& t.vm.monitors.get(this) is Some
            &&& t.vm.monitors[this].owner == if m.count == 1 {
                None
            } else {
                Some(me)
            }
            &&& t.vm.monitors[this].count == m.count - 1
            &&& t.vm.monitors[this].waiters == m.waiters
            &&& m.waiters > 0 ==> t.vm.monitors[this].wake_seq != m.wake_seq
        }),
{
    let m = s.vm.monitors[this];
    assert(own_thread(s) == (s, me) && thread_pending(s) is None);
    let u = told(s, this, m);
    assert(notified(s, this, true).0 == u);
    assert(own_thread(u) == (u, me) && thread_pending(u) is None);
    assert(u.vm.monitors.contains_key(this));
    assert(exited(u, this).0 == with_monitor(u, this, released(u.vm.monitors[this])));
}

/// State after those who wait on `this`, whose monitor is `m`, were told.
spec fn told(s: State, this: Reference, m: JavaMonitor) -> State {
    if m.waiters > 0 {
        with_monitor(s, this, JavaMonitor { wake_seq: succ(m.wake_seq), ..m })
    } else {
        s
    }
}

/// The body of a thread is what its class runs for `run()V`, on the thread itself: an `AbstractMethodError` if its class
/// runs none or the method has no code.
pub proof fn law_thread_bodies(s: State, this: Reference, class: Seq<char>, fields: Seq<Slot>)
    requires
        s.object(this) == Some((Object::Instance { class, fields })),
        s.vm.registry is Some,
    ensures
        ({
            let reg = s.vm.registry->0;
            let absent = super::monitors::failed::<Call>(s, "java/lang/AbstractMethodError"@);
            match reg.dispatch_of(class, "run"@, "()V"@) {
                None => body_call(s, this) == absent,
                Some((k, m)) => match reg.classes()[k as int].cf.methods@[m as int].code {
                    None => body_call(s, this) == absent,
                    Some(code) => code.max_locals >= 1 ==> body_call(s, this).0 == s && body_call(s, this).1 is Ok && ({
                        let call = body_call(s, this).1->Ok_0;
                        &&& call.class == k
                        &&& call.method == m
                        &&& call.locals.len() == code.max_locals
                        &&& call.locals[0] == Slot::Reference(this)
                        &&& call.max_stack == code.max_stack
                        &&& call.operands.len() == 0
                    }),
                },
            }
        }),
{
    let reg = s.vm.registry->0;
    match reg.dispatch_of(class, "run"@, "()V"@) {
        None => {},
        Some((k, m)) => {
            let args = seq![this];
            assert(args.drop_last() =~= Seq::<Reference>::empty());
            match reg.classes()[k as int].cf.methods@[m as int].code {
                None => {},
                Some(code) => {
                    let empty = crate::runtime::invocation::empty_locals(code.max_locals);
                    assert(super::threads::references_stored(empty, args.drop_last()) == Ok::<Seq<Slot>, FrameError>(
                        empty,
                    ));
                },
            }
        },
    }
}

/// A thread with a handler of its own for uncaught exceptions has `dispatchUncaughtException` run on it, with the
/// exception; any other has a report printed.
pub proof fn law_uncaught_exceptions(s: State, this: Reference, exc: Reference, class: Seq<char>, fields: Seq<Slot>)
    requires
        s.object(this) == Some((Object::Instance { class, fields })),
        s.vm.registry is Some,
    ensures
        ({
            let reg = s.vm.registry->0;
            let handler = reference_field(s, this, "java/lang/Thread"@, "uncaughtExceptionHandler"@);
            let report = uncaught_step(s, this, exc) == Uncaught::Report(uncaught_report(s, this, exc));
            &&& handler is None || (handler->0).0 is None ==> report
            &&& handler is Some && (handler->0).0 is Some ==> match reg.dispatch_of(
                class,
                "dispatchUncaughtException"@,
                "(Ljava/lang/Throwable;)V"@,
            ) {
                None => report,
                Some((k, m)) => match reg.classes()[k as int].cf.methods@[m as int].code {
                    None => report,
                    Some(code) => code.max_locals >= 2 ==> uncaught_step(s, this, exc) is Handle && ({
                        let call = uncaught_step(s, this, exc)->Handle_0;
                        &&& call.class == k
                        &&& call.method == m
                        &&& call.locals.len() == code.max_locals
                        &&& call.locals[0] == Slot::Reference(this)
                        &&& call.locals[1] == Slot::Reference(exc)
                        &&& call.max_stack == code.max_stack
                    }),
                },
            }
        }),
{
    let reg = s.vm.registry->0;
    match reg.dispatch_of(class, "dispatchUncaughtException"@, "(Ljava/lang/Throwable;)V"@) {
        None => {},
        Some((k, m)) => {
            let args = seq![this, exc];
            let one = args.drop_last();
            assert(one =~= seq![this]);
            assert(one.drop_last() =~= Seq::<Reference>::empty());
            match reg.classes()[k as int].cf.methods@[m as int].code {
                None => {},
                Some(code) => {
                    let empty = crate::runtime::invocation::empty_locals(code.max_locals);
                    assert(super::threads::references_stored(empty, one.drop_last()) == Ok::<Seq<Slot>, FrameError>(
                        empty,
                    ));
                    if code.max_locals >= 2 {
                        assert(super::threads::references_stored(empty, one) == Ok::<Seq<Slot>, FrameError>(
                            empty.update(0, Slot::Reference(this)),
                        ));
                        assert(super::threads::references_stored(empty, args) == Ok::<Seq<Slot>, FrameError>(
                            empty.update(0, Slot::Reference(this)).update(1, Slot::Reference(exc)),
                        ));
                    }
                },
            }
        },
    }
}

/// The report names the thread and shows the stack trace, or the class of the exception where there is no trace.
pub proof fn law_reports(s: State, this: Reference, exc: Reference, name: Reference, text: Seq<char>)
    requires
        reference_field(s, this, "java/lang/Thread"@, "name"@) == Some(name),
        name.0 is Some,
        text_at(s, name) == Ok::<Option<Seq<char>>, VmError>(Some(text)),
    ensures
        uncaught_report(s, this, exc) == "Exception in thread \""@ + text + "\" "@ + if trace_text(s, exc).len() > 0 {
            trace_text(s, exc)
        } else {
            match s.object(exc) {
                Some(Object::Instance { class, .. }) => class,
                _ => "java/lang/Throwable"@,
            }
        },
{
}

/// A thread without a name that can be read is called `Thread-N`.
pub proof fn law_reports_without_name(s: State, this: Reference, exc: Reference)
    requires
        (match reference_field(s, this, "java/lang/Thread"@, "name"@) {
            None => true,
            Some(n) => n.0 is None || !(text_at(s, n) matches Ok(Some(_))),
        }),
    ensures
        uncaught_report(s, this, exc) == "Exception in thread \""@ + "Thread-N"@ + "\" "@ + if trace_text(s, exc).len()
            > 0 {
            trace_text(s, exc)
        } else {
            match s.object(exc) {
                Some(Object::Instance { class, .. }) => class,
                _ => "java/lang/Throwable"@,
            }
        },
{
}

/// Clearing an interrupt lowers the flag of the thread and the field `interrupted` of its mirror, and touches no other
/// thread.
pub proof fn law_clearing_an_interrupt(s: State, thread: Reference, other: Reference)
    requires
        other != thread,
    ensures
        interrupt_cleared(s, thread).vm.interrupt_flags.get(thread) != Some(true),
        interrupt_cleared(s, thread).vm.interrupt_flags.get(other) == s.vm.interrupt_flags.get(other),
        interrupt_cleared(s, thread).object(other) == s.object(other),
        has_field(s, thread, "java/lang/Thread"@, "interrupted"@) ==> int_field(
            interrupt_cleared(s, thread),
            thread,
            "java/lang/Thread"@,
            "interrupted"@,
        ) == Some(0i32),
{
    if has_field(s, thread, "java/lang/Thread"@, "interrupted"@) {
        let c = s.class("java/lang/Thread"@)->0;
        named_write_read(s, thread, "java/lang/Thread"@, c, "interrupted"@, Slot::Int(0), "name"@);
    }
}

/// What `run` or a handler returned is fine exactly if it is nothing; an error stays what it is.
pub proof fn law_void_results(v: Value, e: VmError, otherwise: VmError)
    ensures
        void_expected(Ok(Value::Void), otherwise) == Ok::<(), VmError>(()),
        !(v is Void) ==> void_expected(Ok(v), otherwise) == Err::<(), VmError>(otherwise),
        void_expected(Err(e), otherwise) == Err::<(), VmError>(e),
{
}

/// The system thread group is one `ThreadGroup`, made when it is first asked for, with the name `main` and the highest
/// priority that there is, 10; asked for again, it is the same and nothing changes.
pub proof fn law_system_group(s: State)
    requires
        s.vm.system_group is None,
        s.vm.heap.len() + 3 <= handle_space(),
        text_pending(s, "main"@) is None,
        s.class("java/lang/ThreadGroup"@) matches Some(c) && c.ord_of("name"@) is Some && c.ord_of("maxPriority"@) is Some,
        interned(s, "main"@).1 is Ok,
    ensures
        ({
            let (t, g) = group_asked(s);
            let class = "java/lang/ThreadGroup"@;
            &&& g is Ok
            &&& (g->Ok_0).0 is Some && s.object(g->Ok_0) is None
            &&& t.object(g->Ok_0) is Some && t.object(g->Ok_0)->0 is Instance && t.object(g->Ok_0)->0->Instance_class
                == class
            &&& int_field(t, g->Ok_0, class, "maxPriority"@) == Some(10i32)
            &&& reference_field(t, g->Ok_0, class, "name"@) is Some && t.vm.strings.get("main"@) == reference_field(
                t,
                g->Ok_0,
                class,
                "name"@,
            )
            &&& t.vm.system_group == Some(g->Ok_0)
            &&& group_asked(t) == (t, g)
        }),
{
    reveal_strlit("name");
    reveal_strlit("maxPriority");
    assert("name"@.len() == 4 && "maxPriority"@.len() == 11);
    let class = "java/lang/ThreadGroup"@;
    let c = s.class(class)->0;
    crate::metadata::registry_laws::law_found_classes(s.vm.registry->0, class);
    let (s1, r) = s.alloc_fresh(class);
    assert(s1.object(r) == Some(c.fresh()));
    assert(interned(s1, "main"@).1 is Ok) by {
        assert(s1.vm.registry == s.vm.registry && s1.vm.initialized == s.vm.initialized && s1.vm.strings
            == s.vm.strings);
    }
    let (b, name) = (interned(s1, "main"@).0, interned(s1, "main"@).1->Ok_0);
    interned_keeps(s1, "main"@, r);
    let s2 = text_field_written(s1, r, class, "name"@, "main"@);
    named_write_read(b, r, class, c, "name"@, Slot::Reference(name), "maxPriority"@);
    named_write_read(s2, r, class, c, "maxPriority"@, Slot::Int(10), "name"@);
}

/// The mirror of a new thread holds a new `Thread$FieldHolder`, where there are such a class and a thread group.
pub proof fn law_holder_of_a_new_thread(s: State, main: Reference)
    requires
        has_field(s, main, "java/lang/Thread"@, "holder"@),
        system_group(s).1.0 is Some,
        s.class("java/lang/Thread$FieldHolder"@) is Some,
        system_group(s).0.vm.heap.len() < handle_space(),
    ensures
        ({
            let t = holder_attached(s, main);
            let h = reference_field(t, main, "java/lang/Thread"@, "holder"@);
            &&& h is Some && (h->0).0 is Some && h->0 != main
            &&& system_group(s).0.object(h->0) is None
            &&& t.object(h->0) is Some && t.object(h->0)->0 is Instance && t.object(h->0)->0->Instance_class
                == "java/lang/Thread$FieldHolder"@
        }),
{
    let class = "java/lang/Thread"@;
    let held = "java/lang/Thread$FieldHolder"@;
    let c = s.class(class)->0;
    group_leaves(s, main);
    let (g, group) = system_group(s);
    crate::metadata::registry_laws::law_found_classes(s.vm.registry->0, held);
    let (h, holder) = g.alloc_fresh(held);
    assert(h.object(holder) == Some(s.class(held)->0.fresh()));
    assert(holder != main);
    holder_leaves(h, holder, group, main);
    super::growth::holder_filled_grown(h, holder, group);
    let f = holder_filled(h, holder, group);
    assert(f.object(holder) is Some && f.object(holder)->0 is Instance && f.object(holder)->0->Instance_class == held) by {
        reveal(super::growth::grown);
        let i = holder.0->0 as int;
        assert(super::growth::same_shape(h.vm.heap[i], f.vm.heap[i]));
    }
    named_write_read(f, main, class, c, "holder"@, Slot::Reference(holder), "name"@);
    write_leaves(f, main, class, "holder"@, Slot::Reference(holder), holder);
}

/// What is no instance has no body to run and handles no exception, nor has anything without classes; a method without
/// room for its arguments is refused at the first argument that has none.
pub proof fn law_threads_that_cannot_run(s: State, this: Reference, exc: Reference, k: usize, m: usize)
    ensures
        ({
            let run = body_call(s, this);
            let handle = uncaught_call(s, this, exc);
            match s.object(this) {
                Some(Object::Instance { class, .. }) => {
                    &&& s.vm.registry is None ==> run == (
                        s,
                        Err::<Call, VmError>(VmError::BadConstant("start0 须类注册表")),
                    ) && handle == Err::<Call, VmError>(VmError::BadConstant("dispatchUncaught 须类注册表"))
                    &&& s.vm.registry matches Some(reg) ==> {
                        let code = reg.classes()[k as int].cf.methods@[m as int].code;
                        let handler = reg.dispatch_of(class, "dispatchUncaughtException"@, "(Ljava/lang/Throwable;)V"@);
                        &&& reg.dispatch_of(class, "run"@, "()V"@) == Some((k, m)) && code is Some && code->0.max_locals
                            == 0 ==> run == (s, Err::<Call, VmError>(VmError::Frame(FrameError::BadLocalIndex(0))))
                        &&& handler is None ==> handle == Err::<Call, VmError>(
                            VmError::BadConstant("未解析 dispatchUncaughtException"),
                        )
                        &&& handler == Some((k, m)) && code is None ==> handle == Err::<Call, VmError>(
                            VmError::BadConstant("dispatchUncaughtException 无 Code"),
                        )
                        &&& handler == Some((k, m)) && code is Some && code->0.max_locals < 2 ==> handle == Err::<
                            Call,
                            VmError,
                        >(VmError::Frame(FrameError::BadLocalIndex(code->0.max_locals)))
                    }
                },
                _ => {
                    &&& run == (s, Err::<Call, VmError>(VmError::BadConstant("start0:this 须为 Instance")))
                    &&& handle == Err::<Call, VmError>(VmError::BadConstant("dispatchUncaught:this 须为 Instance"))
                },
            }
        }),
        uncaught_call(s, this, exc) is Err ==> uncaught_step(s, this, exc) == Uncaught::Report(
            uncaught_report(s, this, exc),
        ),
{
    reveal_with_fuel(super::threads::references_stored, 3);
    let one = seq![this];
    let two = seq![this, exc];
    assert(one.drop_last() =~= Seq::<Reference>::empty());
    assert(two.drop_last() =~= one);
    assert(two.last() == exc && one.last() == this);
    if s.vm.registry is Some {
        match s.vm.registry->0.classes()[k as int].cf.methods@[m as int].code {
            None => {},
            Some(code) => {
                let empty = crate::runtime::invocation::empty_locals(code.max_locals);
                assert(empty.len() == code.max_locals);
            },
        }
    }
}

/// The status of a thread is left alone where it has no holder; clearing the own interrupt does nothing without a thread.
pub proof fn law_threads_without_holder(s: State, this: Reference, status: i32)
    ensures
        (reference_field(s, this, "java/lang/Thread"@, "holder"@) is None || reference_field(
            s,
            this,
            "java/lang/Thread"@,
            "holder"@,
        ) == Some(Reference(None))) ==> status_written(s, this, status) == s,
        thread_pending(s) is None && own_thread(s).1.0 is None ==> event_lowered(s) == (
            own_thread(s).0,
            Ok::<(), VmError>(()),
        ),
        this.0 is None ==> started(s, this) == super::monitors::failed::<()>(s, "java/lang/NullPointerException"@),
        this.0 is None ==> interrupted(s, this) == super::monitors::failed::<Option<Reference>>(
            s,
            "java/lang/NullPointerException"@,
        ),
{
}

} // verus!
