//! Threads: identity, ids, interrupts, start and end.

use vstd::prelude::*;

use super::exceptions::trace_text;
use super::mirrors::{named_field_written, reference_field};
use super::monitors::{entered, exited, failed, notified, succ, MonitorStep};
use super::{Local, Shared, State, VmThread, THREAD_STATUS_RUNNABLE, THREAD_STATUS_TERMINATED};
use crate::metadata::class_registry::ClassRegistry;
use crate::runtime::frame::{Frame, FrameError};
use crate::runtime::invocation::{empty_locals, Call, Invocation};
use crate::runtime::local_vars::stored;
use crate::runtime::oop::{Object, Oop};
use crate::runtime::slot::{Reference, Slot};
use crate::runtime::string::{ensure_text_ready, held_up, intern, interned, read_text, text_at, text_pending};
use crate::runtime::value::{Value, VmError};

verus! {

broadcast use crate::runtime::oop::oop_variant;

/// State after `text` was interned and put into field `field` of `obj`; the field stays as it is if the
/// text could not be interned.
pub open spec fn text_field_written(
    s: State,
    obj: Reference,
    class: Seq<char>,
    field: Seq<char>,
    text: Seq<char>,
) -> State {
    match interned(s, text) {
        (t, Ok(r)) => named_field_written(t, obj, class, field, Slot::Reference(r)),
        (t, Err(_)) => t,
    }
}

/// State and id after a thread id was taken.
pub open spec fn tid_taken(s: State) -> (State, u64) {
    (State { vm: Shared { next_tid: succ(s.vm.next_tid), ..s.vm }, ..s }, s.vm.next_tid)
}

/// The system thread group: the state after it and the reference.
pub open spec fn system_group(s: State) -> (State, Reference) {
    match s.vm.system_group {
        Some(r) => (s, r),
        None => {
            let (s1, r) = s.alloc_fresh("java/lang/ThreadGroup"@);
            if r.0 is None {
                (s1, r)
            } else {
                let s2 = text_field_written(s1, r, "java/lang/ThreadGroup"@, "name"@, "main"@);
                let s3 = named_field_written(s2, r, "java/lang/ThreadGroup"@, "maxPriority"@, Slot::Int(10));
                (State { vm: Shared { system_group: Some(r), ..s3.vm }, ..s3 }, r)
            }
        },
    }
}

/// The fields of a fresh `Thread$FieldHolder`.
pub open spec fn holder_filled(s: State, holder: Reference, group: Reference) -> State {
    let c = "java/lang/Thread$FieldHolder"@;
    let s1 = named_field_written(s, holder, c, "group"@, Slot::Reference(group));
    let s2 = named_field_written(s1, holder, c, "priority"@, Slot::Int(5));
    let s3 = named_field_written(s2, holder, c, "daemon"@, Slot::Int(0));
    let s4 = named_field_written(s3, holder, c, "threadStatus"@, Slot::Int(0));
    named_field_written(s4, holder, c, "stackSize"@, Slot::Long(0))
}

/// State after the `holder` of a thread mirror was set up; without thread group or holder class nothing
/// more happens.
pub open spec fn holder_attached(s: State, main: Reference) -> State {
    let (s1, group) = system_group(s);
    if group.0 is None {
        s1
    } else {
        let (s2, holder) = s1.alloc_fresh("java/lang/Thread$FieldHolder"@);
        if holder.0 is None {
            s2
        } else {
            named_field_written(
                holder_filled(s2, holder, group),
                main,
                "java/lang/Thread"@,
                "holder"@,
                Slot::Reference(holder),
            )
        }
    }
}

/// A new thread mirror: the state after it and the reference; `null` if `Thread` is not loaded.
pub open spec fn thread_allocated(s: State) -> (State, Reference) {
    let (s1, r) = s.alloc_fresh("java/lang/Thread"@);
    if r.0 is None {
        (s1, r)
    } else {
        let (s2, tid) = tid_taken(s1);
        let s3 = text_field_written(s2, r, "java/lang/Thread"@, "name"@, "main"@);
        let s4 = named_field_written(s3, r, "java/lang/Thread"@, "tid"@, Slot::Long(tid as i64));
        (holder_attached(s4, r), r)
    }
}

/// The mirror of the thread: the state after it and the reference. It is allocated on the first request;
/// the first that any thread gets is that of the main thread.
pub open spec fn own_thread(s: State) -> (State, Reference) {
    match s.thread.thread_ref {
        Some(r) => (s, r),
        None => {
            let (t, r) = thread_allocated(s);
            if r.0 is None {
                (t, r)
            } else {
                (
                    State {
                        vm: Shared {
                            main_thread: if t.vm.main_thread is None {
                                Some(r)
                            } else {
                                t.vm.main_thread
                            },
                            ..t.vm
                        },
                        thread: Local { thread_ref: Some(r), ..t.thread },
                    },
                    r,
                )
            }
        },
    }
}

/// Whether the static initializer of the string class has to run before the thread can get its mirror, and if so
/// the place of the class.
pub open spec fn thread_pending(s: State) -> Option<int> {
    if s.thread.thread_ref is None && s.class("java/lang/Thread"@) is Some {
        text_pending(s, "main"@)
    } else {
        None
    }
}

/// The mirror of the thread, unless an initializer has to run first.
pub open spec fn identity(s: State) -> (State, Result<Reference, VmError>) {
    match thread_pending(s) {
        Some(i) => held_up(s, i),
        None => (own_thread(s).0, Ok(own_thread(s).1)),
    }
}

/// The system thread group, unless an initializer has to run first.
pub open spec fn group_asked(s: State) -> (State, Result<Reference, VmError>) {
    if s.vm.system_group is None && s.class("java/lang/ThreadGroup"@) is Some && text_pending(s, "main"@) is Some {
        held_up(s, text_pending(s, "main"@)->0)
    } else {
        (system_group(s).0, Ok(system_group(s).1))
    }
}

/// State in which `thread` has an interrupt flag, and the flag.
pub open spec fn interrupt_probed(s: State, thread: Reference) -> (State, bool) {
    if s.vm.interrupt_flags.contains_key(thread) {
        (s, s.vm.interrupt_flags[thread])
    } else {
        (with_interrupt(s, thread, false), false)
    }
}

/// State in which the interrupt flag of `thread` is `flag`.
pub open spec fn with_interrupt(s: State, thread: Reference, flag: bool) -> State {
    State { vm: Shared { interrupt_flags: s.vm.interrupt_flags.insert(thread, flag), ..s.vm }, ..s }
}

/// State in which the interrupt flag of `thread`, if it has one, is down.
pub open spec fn flag_lowered(s: State, thread: Reference) -> State {
    if s.vm.interrupt_flags.contains_key(thread) {
        with_interrupt(s, thread, false)
    } else {
        s
    }
}

/// State after the interrupt of `thread` was cleared, field and flag.
pub open spec fn interrupt_cleared(s: State, thread: Reference) -> State {
    flag_lowered(named_field_written(s, thread, "java/lang/Thread"@, "interrupted"@, Slot::Int(0)), thread)
}

/// Interrupting a thread; the outcome is the object whose waiters have to look again.
pub open spec fn interrupted(s: State, target: Reference) -> (State, Result<Option<Reference>, VmError>) {
    if target.0 is None {
        failed(s, "java/lang/NullPointerException"@)
    } else {
        let t = with_interrupt(interrupt_probed(s, target).0, target, true);
        (
            t,
            Ok(
                if t.vm.wait_targets.contains_key(target) && t.vm.monitors.contains_key(t.vm.wait_targets[target]) {
                    Some(t.vm.wait_targets[target])
                } else {
                    None
                },
            ),
        )
    }
}

/// State after field `eetop` of a thread mirror was written.
pub open spec fn eetop_written(s: State, this: Reference, val: i64) -> State {
    named_field_written(s, this, "java/lang/Thread"@, "eetop"@, Slot::Long(val))
}

/// State after the status in the holder of a thread mirror was written.
pub open spec fn status_written(s: State, this: Reference, status: i32) -> State {
    match reference_field(s, this, "java/lang/Thread"@, "holder"@) {
        Some(h) => if h.0 is None {
            s
        } else {
            named_field_written(s, h, "java/lang/Thread$FieldHolder"@, "threadStatus"@, Slot::Int(status))
        },
        None => s,
    }
}

/// Starting a thread: it counts as alive from here on.
pub open spec fn started(s: State, this: Reference) -> (State, Result<(), VmError>) {
    if this.0 is None {
        failed(s, "java/lang/NullPointerException"@)
    } else {
        (status_written(eetop_written(s, this, 1), this, THREAD_STATUS_RUNNABLE), Ok(()))
    }
}

/// A frame of a method of a loaded class whose first locals are `args`.
pub open spec fn reference_call(reg: ClassRegistry, k: usize, m: usize, args: Seq<Reference>) -> Option<
    Result<Call, FrameError>,
> {
    match reg.classes()[k as int].cf.methods@[m as int].code {
        None => None,
        Some(code) => Some(
            match references_stored(empty_locals(code.max_locals), args) {
                Ok(locals) => Ok(
                    Call { class: k, method: m, locals, operands: Seq::empty(), max_stack: code.max_stack as nat },
                ),
                Err(e) => Err(e),
            },
        ),
    }
}

/// Locals that hold `args` from index 0 on.
pub open spec fn references_stored(locals: Seq<Slot>, args: Seq<Reference>) -> Result<Seq<Slot>, FrameError>
    decreases args.len(),
{
    if args.len() == 0 {
        Ok(locals)
    } else {
        match references_stored(locals, args.drop_last()) {
            Ok(l) => match stored(l, (args.len() - 1) as u16, Slot::Reference(args.last())) {
                (t, Ok(_)) => Ok(t),
                (_, Err(e)) => Err(e),
            },
            Err(e) => Err(e),
        }
    }
}

/// Class of the instance behind `r`.
pub open spec fn instance_class(s: State, r: Reference) -> Option<Seq<char>> {
    match s.object(r) {
        Some(Object::Instance { class, .. }) => Some(class),
        _ => None,
    }
}

/// The call of `run()` on a thread.
pub open spec fn body_call(s: State, this: Reference) -> (State, Result<Call, VmError>) {
    match (instance_class(s, this), s.vm.registry) {
        (None, _) => (s, Err(VmError::BadConstant("start0:this 须为 Instance"))),
        (_, None) => (s, Err(VmError::BadConstant("start0 须类注册表"))),
        (Some(class), Some(reg)) => match reg.dispatch_of(class, "run"@, "()V"@) {
            None => failed(s, "java/lang/AbstractMethodError"@),
            Some((k, m)) => match reference_call(reg, k, m, seq![this]) {
                None => failed(s, "java/lang/AbstractMethodError"@),
                Some(Ok(call)) => (s, Ok(call)),
                Some(Err(e)) => (s, Err(VmError::Frame(e))),
            },
        },
    }
}

/// The call of `dispatchUncaughtException` on a thread.
pub open spec fn uncaught_call(s: State, this: Reference, throwable: Reference) -> Result<Call, VmError> {
    match (instance_class(s, this), s.vm.registry) {
        (None, _) => Err(VmError::BadConstant("dispatchUncaught:this 须为 Instance")),
        (_, None) => Err(VmError::BadConstant("dispatchUncaught 须类注册表")),
        (Some(class), Some(reg)) => match reg.dispatch_of(
            class,
            "dispatchUncaughtException"@,
            "(Ljava/lang/Throwable;)V"@,
        ) {
            None => Err(VmError::BadConstant("未解析 dispatchUncaughtException")),
            Some((k, m)) => match reference_call(reg, k, m, seq![this, throwable]) {
                None => Err(VmError::BadConstant("dispatchUncaughtException 无 Code")),
                Some(Ok(call)) => Ok(call),
                Some(Err(e)) => Err(VmError::Frame(e)),
            },
        },
    }
}

/// What to do about an exception that ended a thread.
#[derive(Debug)]
pub enum UncaughtStep {
    /// Run the handler of the thread; should that fail, report.
    Handle(Invocation),
    /// Print this text.
    Report(String),
}

/// The model of [`UncaughtStep`].
pub enum Uncaught {
    Handle(Call),
    Report(Seq<char>),
}

impl View for UncaughtStep {
    type V = Uncaught;

    open spec fn view(&self) -> Uncaught {
        match self {
            UncaughtStep::Handle(i) => Uncaught::Handle(i@),
            UncaughtStep::Report(t) => Uncaught::Report(t@),
        }
    }
}

/// Whether a thread has a handler of its own for uncaught exceptions.
pub open spec fn has_own_handler(s: State, this: Reference) -> bool {
    reference_field(s, this, "java/lang/Thread"@, "uncaughtExceptionHandler"@) matches Some(h) && h.0 is Some
}

/// Name of a thread for reports; `Thread-N` if it has none.
pub open spec fn shown_name(s: State, this: Reference) -> Seq<char> {
    match reference_field(s, this, "java/lang/Thread"@, "name"@) {
        Some(n) => if n.0 is None {
            "Thread-N"@
        } else {
            match text_at(s, n) {
                Ok(Some(t)) => t,
                _ => "Thread-N"@,
            }
        },
        None => "Thread-N"@,
    }
}

/// The report of an uncaught exception.
pub open spec fn uncaught_report(s: State, this: Reference, throwable: Reference) -> Seq<char> {
    let trace = trace_text(s, throwable);
    let body = if trace.len() == 0 {
        match instance_class(s, throwable) {
            Some(c) => c,
            None => "java/lang/Throwable"@,
        }
    } else {
        trace
    };
    "Exception in thread \""@ + shown_name(s, this) + "\" "@ + body
}

/// What to do about an exception that ended a thread.
pub open spec fn uncaught_step(s: State, this: Reference, throwable: Reference) -> Uncaught {
    match uncaught_call(s, this, throwable) {
        Ok(call) => if has_own_handler(s, this) {
            Uncaught::Handle(call)
        } else {
            Uncaught::Report(uncaught_report(s, this, throwable))
        },
        Err(_) => Uncaught::Report(uncaught_report(s, this, throwable)),
    }
}

/// The end of a thread, once its monitor was entered or refused: it is marked terminated and dead, those
/// who wait for it are told, and the monitor is left.
pub open spec fn terminated_locked(s: State, this: Reference) -> State {
    let s1 = status_written(s, this, THREAD_STATUS_TERMINATED);
    let s2 = eetop_written(s1, this, 0);
    let s3 = notified(s2, this, true).0;
    exited(s3, this).0
}

/// The end of a thread; `Blocked` while another thread holds its monitor.
pub open spec fn terminated(s: State, this: Reference) -> (State, Result<MonitorStep, VmError>) {
    match entered(s, this) {
        (t, Ok(MonitorStep::Blocked)) => (t, Ok(MonitorStep::Blocked)),
        (t, Err(VmError::InitializerPending(i))) => (t, Err(VmError::InitializerPending(i))),
        (t, _) => (terminated_locked(t, this), Ok(MonitorStep::Entered)),
    }
}

/// `Thread.clearInterruptEvent`: the state after it.
pub open spec fn event_lowered(s: State) -> (State, Result<(), VmError>) {
    match identity(s) {
        (t, Ok(me)) => (
            if me.0 is None {
                t
            } else {
                flag_lowered(t, me)
            },
            Ok(()),
        ),
        (t, Err(e)) => (t, Err(e)),
    }
}

/// What the result of `run()` or of a handler means.
pub open spec fn void_expected(result: Result<Value, VmError>, otherwise: VmError) -> Result<(), VmError> {
    match result {
        Ok(Value::Void) => Ok(()),
        Ok(_) => Err(otherwise),
        Err(e) => Err(e),
    }
}

impl VmThread {
    /// Interns `text` and writes it to a field of `obj`.
    fn set_text_field(&mut self, obj: Reference, class: &str, field: &str, text: &str)
        ensures
            final(self)@ == text_field_written(old(self)@, obj, class@, field@, text@),
    {
        match intern(self, text) {
            Ok(r) => self.set_instance_field_by_name(obj, class, field, Slot::Reference(r)),
            Err(_) => {},
        }
    }

    /// The mirror of this thread, allocated on the first call; `null` if `Thread` is not loaded. An error, and no
    /// change, while the string class of its name has to be initialized first.
    pub fn main_thread(&mut self) -> (r: Result<Reference, VmError>)
        ensures
            (final(self)@, r) == identity(old(self)@),
    {
        match self.thread.thread_ref {
            Some(r) => {
                return Ok(r);
            },
            None => {},
        }
        if self.class("java/lang/Thread").is_some() {
            match ensure_text_ready(self, "main") {
                Ok(_) => {},
                Err(e) => {
                    return Err(e);
                },
            }
        }
        let r: Reference = self.alloc_main_thread();
        if !r.is_null() {
            self.thread.thread_ref = Some(r);
            if self.runtime.main_thread.is_none() {
                self.runtime.main_thread = Some(r);
            }
        }
        Ok(r)
    }

    /// Gives this thread the identity of a thread mirror.
    pub fn adopt_thread(&mut self, this: Reference)
        ensures
            final(self)@ == (State {
                thread: Local { thread_ref: Some(this), ..old(self)@.thread },
                ..old(self)@
            }),
    {
        self.thread.thread_ref = Some(this);
    }

    fn alloc_main_thread(&mut self) -> (r: Reference)
        ensures
            (final(self)@, r) == thread_allocated(old(self)@),
    {
        let r: Reference = self.alloc_fresh("java/lang/Thread");
        if r.is_null() {
            return r;
        }
        let tid: u64 = self.next_thread_tid();
        self.set_text_field(r, "java/lang/Thread", "name", "main");
        self.set_instance_field_by_name(r, "java/lang/Thread", "tid", Slot::Long(tid as i64));
        self.bootstrap_main_holder(r);
        r
    }

    /// The system thread group, allocated on the first call; `null` if `ThreadGroup` is not loaded. An error, and
    /// no change, while the string class of its name has to be initialized first.
    pub fn system_thread_group(&mut self) -> (r: Result<Reference, VmError>)
        ensures
            (final(self)@, r) == group_asked(old(self)@),
    {
        if self.runtime.threads.system_group.is_none() && self.class("java/lang/ThreadGroup").is_some() {
            match ensure_text_ready(self, "main") {
                Ok(_) => {},
                Err(e) => {
                    return Err(e);
                },
            }
        }
        Ok(self.make_system_thread_group())
    }

    fn make_system_thread_group(&mut self) -> (r: Reference)
        ensures
            (final(self)@, r) == system_group(old(self)@),
    {
        match self.runtime.threads.system_group {
            Some(r) => {
                return r;
            },
            None => {},
        }
        let r: Reference = self.alloc_system_thread_group();
        if !r.is_null() {
            self.runtime.threads.system_group = Some(r);
        }
        r
    }

    fn alloc_system_thread_group(&mut self) -> (r: Reference)
        ensures
            r == old(self)@.alloc_fresh("java/lang/ThreadGroup"@).1,
            final(self)@ == ({
                let (s1, g) = old(self)@.alloc_fresh("java/lang/ThreadGroup"@);
                if g.0 is None {
                    s1
                } else {
                    named_field_written(
                        text_field_written(s1, g, "java/lang/ThreadGroup"@, "name"@, "main"@),
                        g,
                        "java/lang/ThreadGroup"@,
                        "maxPriority"@,
                        Slot::Int(10),
                    )
                }
            }),
    {
        let r: Reference = self.alloc_fresh("java/lang/ThreadGroup");
        if r.is_null() {
            return r;
        }
        self.set_text_field(r, "java/lang/ThreadGroup", "name", "main");
        self.set_instance_field_by_name(r, "java/lang/ThreadGroup", "maxPriority", Slot::Int(10));
        r
    }

    /// Sets up the `holder` of a thread mirror with the values of a new thread of normal priority.
    fn bootstrap_main_holder(&mut self, main: Reference)
        ensures
            final(self)@ == holder_attached(old(self)@, main),
    {
        let group: Reference = self.make_system_thread_group();
        if group.is_null() {
            return;
        }
        let holder: Reference = self.alloc_fresh("java/lang/Thread$FieldHolder");
        if holder.is_null() {
            return;
        }
        self.set_instance_field_by_name(holder, "java/lang/Thread$FieldHolder", "group", Slot::Reference(group));
        self.set_instance_field_by_name(holder, "java/lang/Thread$FieldHolder", "priority", Slot::Int(5));
        self.set_instance_field_by_name(holder, "java/lang/Thread$FieldHolder", "daemon", Slot::Int(0));
        self.set_instance_field_by_name(holder, "java/lang/Thread$FieldHolder", "threadStatus", Slot::Int(0));
        self.set_instance_field_by_name(holder, "java/lang/Thread$FieldHolder", "stackSize", Slot::Long(0));
        self.set_instance_field_by_name(main, "java/lang/Thread", "holder", Slot::Reference(holder));
    }

    /// Takes the next thread id.
    pub fn next_thread_tid(&mut self) -> (r: u64)
        ensures
            (final(self)@, r) == tid_taken(old(self)@),
    {
        let v: u64 = self.runtime.threads.next_tid;
        self.runtime.threads.next_tid = if v == u64::MAX {
            0
        } else {
            v + 1
        };
        v
    }

    /// The next thread id, not taken.
    pub fn read_next_thread_id(&self) -> (r: i64)
        ensures
            r == self@.vm.next_tid as i64,
    {
        self.runtime.threads.next_tid as i64
    }

    /// Sets the next thread id to `new` if it is `expected`; says whether it was.
    pub fn cas_next_thread_id(&mut self, expected: i64, new: i64) -> (r: bool)
        ensures
            r == (old(self)@.vm.next_tid as i64 == expected),
            final(self)@ == if r {
                State { vm: Shared { next_tid: new as u64, ..old(self)@.vm }, ..old(self)@ }
            } else {
                old(self)@
            },
    {
        if self.runtime.threads.next_tid as i64 == expected {
            self.runtime.threads.next_tid = new as u64;
            true
        } else {
            false
        }
    }

    /// `Thread.start0`: marks the thread as alive. The caller then runs it.
    pub fn start_thread(&mut self, this: Reference) -> (r: Result<(), VmError>)
        ensures
            (final(self)@, r) == started(old(self)@, this),
    {
        if this.is_null() {
            return Err(self.throw_exception("java/lang/NullPointerException"));
        }
        self.set_eetop(this, 1);
        self.set_thread_status(this, THREAD_STATUS_RUNNABLE);
        Ok(())
    }

    /// Resolves a virtual method of `this` and puts `args` into its frame; `None` where there is no such
    /// method with code.
    fn frame_for(&self, k: usize, m: usize, args: &Vec<Reference>) -> (r: Option<Result<Invocation, FrameError>>)
        requires
            self@.vm.registry is Some,
            k < self@.vm.registry->0.classes().len(),
            m < self@.vm.registry->0.classes()[k as int].cf.methods@.len(),
            args@.len() < u16::MAX,
        ensures
            match r {
                None => reference_call(self@.vm.registry->0, k, m, args@) is None,
                Some(Ok(i)) => reference_call(self@.vm.registry->0, k, m, args@) == Some(Ok::<Call, FrameError>(i@)),
                Some(Err(e)) => reference_call(self@.vm.registry->0, k, m, args@) == Some(Err::<Call, FrameError>(e)),
            },
    {
        match self.registry() {
            Some(reg) => match reg.class_at(k) {
                Some(c) => match &c.cf.methods[m].code {
                    Some(code) => {
                        let mut frame: Frame = Frame::new(code.max_locals, code.max_stack);
                        let mut i: usize = 0;
                        let ghost start = empty_locals(code.max_locals);
                        while i < args.len()
                            invariant
                                i <= args@.len(),
                                args@.len() < u16::MAX,
                                references_stored(start, args@.take(i as int)) == Ok::<Seq<Slot>, FrameError>(
                                    frame.locals@,
                                ),
                                frame.operands@ == Seq::<Slot>::empty(),
                                frame.operands.max_depth() == code.max_stack as nat,
                                reference_call(self@.vm.registry->0, k, m, args@) == Some(
                                    match references_stored(start, args@) {
                                        Ok(locals) => Ok(
                                            Call {
                                                class: k,
                                                method: m,
                                                locals,
                                                operands: Seq::empty(),
                                                max_stack: code.max_stack as nat,
                                            },
                                        ),
                                        Err(e) => Err(e),
                                    },
                                ),
                            decreases args@.len() - i,
                        {
                            proof {
                                let t = args@.take(i + 1);
                                assert(t.drop_last() =~= args@.take(i as int));
                                assert(t.last() == args@[i as int]);
                            }
                            match frame.locals.set_reference(i as u16, args[i]) {
                                Ok(_) => {},
                                Err(e) => {
                                    proof {
                                        references_fail(start, args@, i + 1);
                                    }
                                    return Some(Err(e));
                                },
                            }
                            i = i + 1;
                        }
                        assert(args@.take(i as int) =~= args@);
                        Some(Ok(Invocation { class: k, method: m, frame }))
                    },
                    None => None,
                },
                None => None,
            },
            None => None,
        }
    }

    /// The call of `run()` on a thread.
    pub fn run_thread_body(&mut self, this: Reference) -> (r: Result<Invocation, VmError>)
        ensures
            final(self)@ == body_call(old(self)@, this).0,
            match r {
                Ok(i) => body_call(old(self)@, this).1 == Ok::<Call, VmError>(i@),
                Err(e) => body_call(old(self)@, this).1 == Err::<Call, VmError>(e),
            },
    {
        let class: String = match self.heap().get(this) {
            Some(Oop::Instance(i)) => i.class_name().to_owned(),
            _ => {
                return Err(VmError::BadConstant("start0:this 须为 Instance"));
            },
        };
        let target: Option<(usize, usize)> = match self.registry() {
            Some(reg) => reg.resolve_dispatch(class.as_str(), "run", "()V"),
            None => {
                return Err(VmError::BadConstant("start0 须类注册表"));
            },
        };
        match target {
            None => Err(self.throw_exception("java/lang/AbstractMethodError")),
            Some((k, m)) => {
                let args: Vec<Reference> = vec![this];
                assert(args@ =~= seq![this]);
                match self.frame_for(k, m, &args) {
                    None => Err(self.throw_exception("java/lang/AbstractMethodError")),
                    Some(Ok(i)) => Ok(i),
                    Some(Err(e)) => Err(VmError::Frame(e)),
                }
            },
        }
    }

    /// What the result of `run()` means.
    pub fn finish_thread_body(&self, result: Result<Value, VmError>) -> (r: Result<(), VmError>)
        ensures
            r == void_expected(result, VmError::BadConstant("Thread.run 须 void")),
    {
        match result {
            Ok(Value::Void) => Ok(()),
            Ok(_) => Err(VmError::BadConstant("Thread.run 须 void")),
            Err(e) => Err(e),
        }
    }

    /// Writes field `eetop` of a thread mirror.
    pub fn set_eetop(&mut self, this: Reference, val: i64)
        ensures
            final(self)@ == eetop_written(old(self)@, this, val),
    {
        self.set_instance_field_by_name(this, "java/lang/Thread", "eetop", Slot::Long(val));
    }

    /// Writes the status in the holder of a thread mirror.
    pub fn set_thread_status(&mut self, this: Reference, status: i32)
        ensures
            final(self)@ == status_written(old(self)@, this, status),
    {
        match self.instance_reference_field(this, "java/lang/Thread", "holder") {
            Some(h) => {
                if !h.is_null() {
                    self.set_instance_field_by_name(
                        h,
                        "java/lang/Thread$FieldHolder",
                        "threadStatus",
                        Slot::Int(status),
                    );
                }
            },
            None => {},
        }
    }

    /// Ends a thread: under its monitor it is marked terminated and dead, then those who wait for it are
    /// told. `Blocked` while another thread holds the monitor; an error, and no change, while an initializer has
    /// to run first.
    pub fn terminate_thread(&mut self, this: Reference) -> (r: Result<MonitorStep, VmError>)
        ensures
            (final(self)@, r) == terminated(old(self)@, this),
    {
        match self.monitor_enter(this) {
            Ok(MonitorStep::Blocked) => {
                return Ok(MonitorStep::Blocked);
            },
            Err(VmError::InitializerPending(i)) => {
                return Err(VmError::InitializerPending(i));
            },
            _ => {},
        }
        self.set_thread_status(this, THREAD_STATUS_TERMINATED);
        self.set_eetop(this, 0);
        let _ = self.object_notify_all(this);
        let _ = self.monitor_exit(this);
        Ok(MonitorStep::Entered)
    }

    /// The interrupt flag of a thread; it is down until raised.
    pub fn interrupt_flag(&mut self, thread: Reference) -> (r: bool)
        ensures
            (final(self)@, r) == interrupt_probed(old(self)@, thread),
    {
        match self.runtime.threads.interrupt_flags.get(&thread) {
            Some(b) => {
                return *b;
            },
            None => {},
        }
        self.runtime.threads.interrupt_flags.insert(thread, false);
        false
    }

    /// `Thread.interrupt0`: raises the interrupt flag. Where the target waits on an object, the waiters of
    /// that object have to look again.
    pub fn interrupt_thread(&mut self, target: Reference) -> (r: Result<Option<Reference>, VmError>)
        ensures
            (final(self)@, r) == interrupted(old(self)@, target),
    {
        if target.is_null() {
            return Err(self.throw_exception("java/lang/NullPointerException"));
        }
        let _ = self.interrupt_flag(target);
        self.runtime.threads.interrupt_flags.insert(target, true);
        let lock: Reference = match self.runtime.threads.wait_targets.get(&target) {
            Some(l) => *l,
            None => {
                return Ok(None);
            },
        };
        match self.runtime.monitors.get(&lock) {
            Some(_) => Ok(Some(lock)),
            None => Ok(None),
        }
    }

    fn lower_flag(&mut self, thread: Reference)
        ensures
            final(self)@ == flag_lowered(old(self)@, thread),
    {
        match self.runtime.threads.interrupt_flags.get(&thread) {
            Some(_) => {
                self.runtime.threads.interrupt_flags.insert(thread, false);
            },
            None => {},
        }
    }

    /// `Thread.clearInterruptEvent`: lowers the interrupt flag of this thread.
    pub fn clear_interrupt_event(&mut self) -> (r: Result<(), VmError>)
        ensures
            (final(self)@, r) == event_lowered(old(self)@),
    {
        let cur: Reference = match self.main_thread() {
            Ok(r) => r,
            Err(e) => {
                return Err(e);
            },
        };
        if !cur.is_null() {
            self.lower_flag(cur);
        }
        Ok(())
    }

    /// Clears the interrupt of a thread, field and flag.
    pub fn clear_interrupt_status(&mut self, thread: Reference)
        ensures
            final(self)@ == interrupt_cleared(old(self)@, thread),
    {
        self.set_instance_field_by_name(thread, "java/lang/Thread", "interrupted", Slot::Int(0));
        self.lower_flag(thread);
    }

    /// What to do about an exception that ended a thread: its own handler runs, if it has one; otherwise
    /// there is a report.
    pub fn dispatch_uncaught_exception(&self, this: Reference, throwable: Reference) -> (r: UncaughtStep)
        ensures
            r@ == uncaught_step(self@, this, throwable),
    {
        let own: bool = match self.instance_reference_field(this, "java/lang/Thread", "uncaughtExceptionHandler") {
            Some(h) => !h.is_null(),
            None => false,
        };
        if own {
            match self.invoke_dispatch_uncaught_bytecode(this, throwable) {
                Ok(i) => {
                    return UncaughtStep::Handle(i);
                },
                Err(_) => {},
            }
        }
        UncaughtStep::Report(self.format_uncaught_default(this, throwable))
    }

    /// The report of an uncaught exception: `Exception in thread "<name>" <trace>`.
    pub fn format_uncaught_default(&self, this: Reference, throwable: Reference) -> (r: String)
        ensures
            r@ == uncaught_report(self@, this, throwable),
    {
        let name: String = match self.instance_reference_field(this, "java/lang/Thread", "name") {
            Some(n) => if n.is_null() {
                "Thread-N".to_owned()
            } else {
                match read_text(self, n) {
                    Ok(Some(t)) => t,
                    _ => "Thread-N".to_owned(),
                }
            },
            None => "Thread-N".to_owned(),
        };
        let trace: String = self.format_trace(throwable);
        let body: String = if trace.as_str().unicode_len() == 0 {
            match self.heap().get(throwable) {
                Some(Oop::Instance(i)) => i.class_name().to_owned(),
                _ => "java/lang/Throwable".to_owned(),
            }
        } else {
            trace
        };
        let mut out: String = "Exception in thread \"".to_owned();
        out.append(name.as_str());
        out.append("\" ");
        out.append(body.as_str());
        out
    }

    /// The call of `dispatchUncaughtException` on a thread.
    pub fn invoke_dispatch_uncaught_bytecode(&self, this: Reference, throwable: Reference) -> (r: Result<
        Invocation,
        VmError,
    >)
        ensures
            match r {
                Ok(i) => uncaught_call(self@, this, throwable) == Ok::<Call, VmError>(i@),
                Err(e) => uncaught_call(self@, this, throwable) == Err::<Call, VmError>(e),
            },
    {
        let class: String = match self.heap().get(this) {
            Some(Oop::Instance(i)) => i.class_name().to_owned(),
            _ => {
                return Err(VmError::BadConstant("dispatchUncaught:this 须为 Instance"));
            },
        };
        let target: Option<(usize, usize)> = match self.registry() {
            Some(reg) => reg.resolve_dispatch(
                class.as_str(),
                "dispatchUncaughtException",
                "(Ljava/lang/Throwable;)V",
            ),
            None => {
                return Err(VmError::BadConstant("dispatchUncaught 须类注册表"));
            },
        };
        match target {
            None => Err(VmError::BadConstant("未解析 dispatchUncaughtException")),
            Some((k, m)) => {
                let args: Vec<Reference> = vec![this, throwable];
                assert(args@ =~= seq![this, throwable]);
                match self.frame_for(k, m, &args) {
                    None => Err(VmError::BadConstant("dispatchUncaughtException 无 Code")),
                    Some(Ok(i)) => Ok(i),
                    Some(Err(e)) => Err(VmError::Frame(e)),
                }
            },
        }
    }

    /// What the result of `dispatchUncaughtException` means; after a failure there is a report.
    pub fn finish_uncaught_dispatch(&self, result: Result<Value, VmError>) -> (r: Result<(), VmError>)
        ensures
            r == void_expected(result, VmError::BadConstant("dispatchUncaughtException 须 void")),
    {
        match result {
            Ok(Value::Void) => Ok(()),
            Ok(_) => Err(VmError::BadConstant("dispatchUncaughtException 须 void")),
            Err(e) => Err(e),
        }
    }
}

/// Once a store was refused, storing more is refused with the same error.
proof fn references_fail(locals: Seq<Slot>, args: Seq<Reference>, n: int)
    requires
        0 <= n <= args.len(),
        references_stored(locals, args.take(n)) is Err,
    ensures
        references_stored(locals, args) == references_stored(locals, args.take(n)),
    decreases args.len() - n,
{
    if n == args.len() {
        assert(args.take(n) =~= args);
    } else {
        let t = args.take(n + 1);
        assert(t.drop_last() =~= args.take(n));
        references_fail(locals, args, n + 1);
    }
}

/// A thread keeps the mirror that it was given first: asked for again, it is the same and nothing changes.
pub proof fn law_thread_identity_is_stable(s: State)
    ensures
        own_thread(own_thread(s).0) == own_thread(s),
        thread_pending(s) is None ==> thread_pending(own_thread(s).0) is None,
        thread_pending(s) is None ==> identity(identity(s).0) == identity(s),
{
    if own_thread(s).1.0 is None && s.thread.thread_ref is None {
        assert(s.alloc_fresh("java/lang/Thread"@).0 == s);
    }
}

/// Thread ids are taken one after the other; reading one takes none.
pub proof fn law_thread_ids_are_distinct(s: State)
    requires
        s.vm.next_tid < u64::MAX - 1,
    ensures
        tid_taken(s).1 < tid_taken(tid_taken(s).0).1,
        tid_taken(s).1 == s.vm.next_tid,
{
}

/// A raised interrupt is seen by the target, and clearing it lowers it again.
pub proof fn law_interrupt_and_clear(s: State, target: Reference)
    requires
        target.0 is Some,
    ensures
        interrupt_probed(interrupted(s, target).0, target).1,
        !interrupt_probed(interrupt_cleared(interrupted(s, target).0, target), target).1,
{
}

/// A started thread is alive, a terminated one is not: the fields `eetop` and `threadStatus` say so, where the
/// thread has them.
pub proof fn law_thread_life(s: State, this: Reference, holder: Reference)
    requires
        s.object(this) is Some,
        s.object(this)->0 is Instance,
        s.object(holder) is Some,
        s.object(holder)->0 is Instance,
        holder != this,
        reference_field(s, this, "java/lang/Thread"@, "holder"@) == Some(holder),
        s.field_ord("java/lang/Thread"@, "eetop"@) matches Some(i) && 0 <= i < s.object(this)->0->fields.len(),
        s.field_ord("java/lang/Thread"@, "eetop"@) != s.field_ord("java/lang/Thread"@, "holder"@),
        s.field_ord("java/lang/Thread$FieldHolder"@, "threadStatus"@) matches Some(i) && 0 <= i < s.object(
            holder,
        )->0->fields.len(),
    ensures
        ({
            let t = started(s, this).0;
            &&& started(s, this).1 == Ok::<(), VmError>(())
            &&& super::mirrors::named_field(t, this, "java/lang/Thread"@, "eetop"@) == Some(Slot::Long(1))
            &&& super::mirrors::int_field(t, holder, "java/lang/Thread$FieldHolder"@, "threadStatus"@) == Some(
                THREAD_STATUS_RUNNABLE,
            )
            &&& reference_field(t, this, "java/lang/Thread"@, "holder"@) == Some(holder)
        }),
        ({
            let t = eetop_written(status_written(s, this, THREAD_STATUS_TERMINATED), this, 0);
            &&& super::mirrors::named_field(t, this, "java/lang/Thread"@, "eetop"@) == Some(Slot::Long(0))
            &&& super::mirrors::int_field(t, holder, "java/lang/Thread$FieldHolder"@, "threadStatus"@) == Some(
                THREAD_STATUS_TERMINATED,
            )
        }),
{
    let t = eetop_written(s, this, 1);
    assert(t.object(holder) == s.object(holder));
    assert(reference_field(t, this, "java/lang/Thread"@, "holder"@) == Some(holder));
}

} // verus!
