//! The machine: monitors, threads, life cycle, mirrors and exceptions.

use std::sync::Arc;
use std::time::{Duration, Instant};

use rustj::metadata::class_file::{
    ClassFile, Code, ConstantPool, ConstantPoolEntry, LineNumberEntry, MethodInfo,
};
use rustj::metadata::class_registry::{ClassRegistry, DispatchEntry, FieldLayout, LoadedClass};
use rustj::runtime::frame::FrameError;
use rustj::runtime::heap::Heap;
use rustj::runtime::oop::{ArrayOop, InstanceOop, LambdaOop, Oop};
use rustj::runtime::slot::{Reference, Slot};
use rustj::runtime::string::read_text;
use rustj::runtime::value::{Value, VmError};
use rustj::runtime::vm::class_mirrors::ClassMirrors;
use rustj::runtime::vm::mirrors::{component_internal_of, is_primitive_keyword};
use rustj::runtime::vm::monitors::{MonitorStep, Wakeup};
use rustj::runtime::vm::threads::UncaughtStep;
use rustj::runtime::vm::{BootstrapStep, CallFrame, Platform, ThreadContext, Vm, VmPhase, VmThread};

fn class(name: &str, supertypes: &[&str], fields: &[(&str, &str)]) -> LoadedClass {
    LoadedClass {
        name: name.to_string(),
        super_name: supertypes.first().map(|s| s.to_string()),
        supertypes: supertypes.iter().map(|s| s.to_string()).collect(),
        module: None,
        cf: ClassFile {
            constant_pool: ConstantPool::new(Vec::new()),
            access_flags: 1,
            fields: Vec::new(),
            methods: Vec::new(),
            source_file: None,
        },
        instance_fields: fields
            .iter()
            .map(|(n, d)| FieldLayout { name: n.to_string(), descriptor: d.to_string() })
            .collect(),
        static_fields: Vec::new(),
        dispatch: Vec::new(),
    }
}

fn thread_registry() -> ClassRegistry {
    let mut reg = ClassRegistry::new();
    reg.load(class("java/lang/String", &["java/lang/Object"], &[("value", "[B"), ("coder", "B")]));
    reg.load(class(
        "java/lang/Thread",
        &["java/lang/Object"],
        &[
            ("name", "Ljava/lang/String;"),
            ("tid", "J"),
            ("eetop", "J"),
            ("holder", "Ljava/lang/Thread$FieldHolder;"),
            ("interrupted", "Z"),
            ("uncaughtExceptionHandler", "Ljava/lang/Thread$UncaughtExceptionHandler;"),
        ],
    ));
    reg.load(class(
        "java/lang/Thread$FieldHolder",
        &["java/lang/Object"],
        &[
            ("group", "Ljava/lang/ThreadGroup;"),
            ("priority", "I"),
            ("daemon", "Z"),
            ("threadStatus", "I"),
            ("stackSize", "J"),
        ],
    ));
    reg.load(class(
        "java/lang/ThreadGroup",
        &["java/lang/Object"],
        &[("name", "Ljava/lang/String;"), ("maxPriority", "I")],
    ));
    reg
}

fn thread_vm() -> VmThread {
    let mut vm = VmThread::new(thread_registry());
    vm.mark_initialized("java/lang/String");
    vm
}

fn lock_obj(vm: &mut VmThread) -> Reference {
    vm.heap_mut().allocate(Oop::Instance(InstanceOop::new("Lock".into(), vec![])))
}

fn assert_thrown(vm: &VmThread, err: VmError, expected: &str) -> Reference {
    let VmError::ThrownException(r) = err else {
        panic!("no exception: {err:?}");
    };
    let Some(Oop::Instance(i)) = vm.heap().get(r) else {
        panic!("no exception instance");
    };
    assert_eq!(i.class_name(), expected);
    r
}

#[test]
fn monitor_enter_reentry_and_exit_releases() {
    let reg = ClassRegistry::new();
    let mut vm = VmThread::new(reg);
    let obj = lock_obj(&mut vm);
    assert_eq!(vm.monitor_enter(obj), Ok(MonitorStep::Entered));
    assert_eq!(vm.monitor_enter(obj), Ok(MonitorStep::Entered));
    assert!(vm.holds_lock(obj).unwrap());
    vm.monitor_exit(obj).expect("exit #1");
    assert!(vm.holds_lock(obj).unwrap());
    vm.monitor_exit(obj).expect("exit #2");
    assert!(!vm.holds_lock(obj).unwrap());
}

#[test]
fn monitor_exit_unheld_throws_imse() {
    let reg = ClassRegistry::new();
    let mut vm = VmThread::new(reg);
    let obj = lock_obj(&mut vm);
    let err = vm.monitor_exit(obj).unwrap_err();
    assert_thrown(&vm, err, "java/lang/IllegalMonitorStateException");
}

#[test]
fn monitor_enter_null_throws_npe() {
    let reg = ClassRegistry::new();
    let mut vm = VmThread::new(reg);
    let err = vm.monitor_enter(Reference::null()).unwrap_err();
    assert_thrown(&vm, err, "java/lang/NullPointerException");
}

fn assert_sync<T: ?Sized + Sync>() {}

fn assert_send<T: ?Sized + Send>() {}

fn assert_static<T: 'static>(_: &T) {}

#[test]
fn vm_arc_is_static() {
    let reg = ClassRegistry::new();
    let vm = VmThread::new(reg);
    let (shared, _) = vm.suspend();
    assert_static(&Arc::new(shared));
}

#[test]
fn vm_is_sync() {
    assert_sync::<VmThread>();
}

#[test]
fn vm_is_send() {
    assert_send::<VmThread>();
}

#[test]
fn arc_vm_is_send_sync() {
    assert_send::<Arc<Vm>>();
    assert_sync::<Arc<Vm>>();
}

#[test]
fn from_vm_shares_arc_vm() {
    let reg = ClassRegistry::new();
    let mut vm = VmThread::new(reg);
    let r = vm.heap_mut().allocate(Oop::Instance(InstanceOop::new("probe".into(), vec![])));
    let (shared, _) = vm.suspend();
    let vm2 = VmThread::from_vm(shared);
    let oop = vm2.heap().get(r).expect("the heap is shared");
    assert!(matches!(oop, Oop::Instance(i) if i.class_name() == "probe"));
}

#[test]
fn object_wait_blocks_for_timeout() {
    let mut vm = VmThread::new(ClassRegistry::new());
    let lock = lock_obj(&mut vm);
    vm.monitor_enter(lock).expect("monitor_enter");
    let start = Instant::now();
    let ticket = vm.object_wait(lock, 150).expect("the thread holds the monitor");
    assert_eq!(ticket.millis, 150);
    while vm.object_wait_pending(ticket) && start.elapsed() < Duration::from_millis(ticket.millis as u64) {}
    let elapsed = start.elapsed();
    let notified = vm.object_wait_leave(ticket);
    assert!(!notified);
    assert_eq!(vm.object_wait_resume(ticket, notified), Ok(MonitorStep::Entered));
    vm.monitor_exit(lock).expect("monitor_exit");
    assert!(elapsed >= Duration::from_millis(75));
}

#[test]
fn object_wait_without_monitor_throws_imse() {
    let mut vm = VmThread::new(ClassRegistry::new());
    let lock = lock_obj(&mut vm);
    let err = vm.object_wait(lock, 0).unwrap_err();
    assert_thrown(&vm, err, "java/lang/IllegalMonitorStateException");
}

#[test]
fn object_notify_without_monitor_throws_imse() {
    let mut vm = VmThread::new(ClassRegistry::new());
    let lock = lock_obj(&mut vm);
    let err = vm.object_notify(lock).unwrap_err();
    assert_thrown(&vm, err, "java/lang/IllegalMonitorStateException");
}

#[test]
fn object_wait_null_throws_npe() {
    let mut vm = VmThread::new(ClassRegistry::new());
    let err = vm.object_wait(Reference::null(), 0).unwrap_err();
    assert_thrown(&vm, err, "java/lang/NullPointerException");
}

#[test]
fn object_wait_negative_timeout_throws_iae() {
    let mut vm = VmThread::new(ClassRegistry::new());
    let lock = lock_obj(&mut vm);
    vm.monitor_enter(lock).unwrap();
    let err = vm.object_wait(lock, -1).unwrap_err();
    vm.monitor_exit(lock).unwrap();
    assert_thrown(&vm, err, "java/lang/IllegalArgumentException");
}

#[test]
fn shutdown_transitions_phase_to_shutting_down_idempotent() {
    let mut vm = VmThread::new(ClassRegistry::new());
    assert_eq!(vm.phase(), VmPhase::Created);
    assert!(vm.shutdown());
    assert_eq!(vm.phase(), VmPhase::ShuttingDown);
    assert!(!vm.shutdown());
    assert_eq!(vm.phase(), VmPhase::ShuttingDown);
}

#[test]
fn next_thread_id_cas_round_trip() {
    let mut vm = VmThread::default();
    let initial = vm.read_next_thread_id();
    assert!(vm.cas_next_thread_id(initial, initial + 1));
    assert_eq!(vm.read_next_thread_id(), initial + 1);
    assert!(!vm.cas_next_thread_id(initial, initial + 5));
    assert_eq!(vm.read_next_thread_id(), initial + 1);
    assert_eq!(vm.next_thread_tid(), (initial + 1) as u64);
    assert_eq!(vm.read_next_thread_id(), initial + 2);
}

#[test]
fn uncaught_default_format_has_thread_prefix() {
    let vm = VmThread::default();
    let s = vm.format_uncaught_default(Reference::null(), Reference::null());
    assert!(s.starts_with("Exception in thread \""));
    assert!(s.contains("Thread-N"));
    assert_eq!(s, "Exception in thread \"Thread-N\" java/lang/Throwable");
}

#[test]
fn bootstrap_happens_once() {
    let mut vm = VmThread::default();
    assert_eq!(vm.begin_bootstrap(), Ok(BootstrapStep::Run));
    assert_eq!(vm.phase(), VmPhase::Bootstrapping);
    assert_eq!(
        vm.begin_bootstrap(),
        Err(VmError::BadConstant("bootstrap 重入:phase Bootstrapping(同线程不应重入)"))
    );
    vm.finish_bootstrap();
    assert_eq!(vm.phase(), VmPhase::Running);
    assert_eq!(vm.begin_bootstrap(), Ok(BootstrapStep::Done));
    vm.shutdown();
    assert_eq!(vm.begin_bootstrap(), Ok(BootstrapStep::Done));
}

#[test]
fn platform_and_stack_limit_are_kept() {
    let vm = VmThread::default().with_platform(Platform::Windows).with_stack_limit(7);
    assert_eq!(vm.platform(), Platform::Windows);
}

#[test]
fn heap_hands_out_handles_in_order() {
    let mut heap = Heap::default();
    let a = heap.allocate(Oop::Instance(InstanceOop::new("A".into(), vec![Slot::Int(1)])));
    let b = heap.allocate(Oop::Array(ArrayOop::new("[I".into(), vec![Slot::Int(2), Slot::Int(3)])));
    let c = heap.allocate(Oop::Lambda(LambdaOop::new("java/lang/Runnable".into())));
    assert_ne!(a, b);
    assert!(heap.get(Reference::null()).is_none());
    heap.set_field(a, 0, Slot::Int(9));
    heap.set_element(b, 1, Slot::Int(8));
    heap.set_field(a, 5, Slot::Int(7));
    match (heap.get(a), heap.get(b), heap.get(c)) {
        (Some(Oop::Instance(i)), Some(Oop::Array(e)), Some(Oop::Lambda(l))) => {
            assert_eq!(i.field(0), Slot::Int(9));
            assert_eq!(i.field_count(), 1);
            assert_eq!(i.field(5), Slot::Top);
            assert_eq!(e.length(), 2);
            assert_eq!(e.element(0), Slot::Int(2));
            assert_eq!(e.element(1), Slot::Int(8));
            assert_eq!(l.sam_type(), "java/lang/Runnable");
        }
        other => panic!("objects mixed up: {other:?}"),
    }
}

#[test]
fn another_thread_is_kept_out_until_the_exit() {
    let mut one = thread_vm();
    let lock = lock_obj(&mut one);
    assert_eq!(one.monitor_enter(lock), Ok(MonitorStep::Entered));
    let (shared, context) = one.suspend();
    let mut two = VmThread::from_vm(shared);
    assert_eq!(two.monitor_enter(lock), Ok(MonitorStep::Blocked));
    assert_eq!(two.holds_lock(lock), Ok(false));
    let err = two.monitor_exit(lock).unwrap_err();
    assert_thrown(&two, err, "java/lang/IllegalMonitorStateException");
    let err = two.object_wait(lock, 0).unwrap_err();
    assert_thrown(&two, err, "java/lang/IllegalMonitorStateException");
    let (shared, other) = two.suspend();
    let mut one = VmThread::resume(shared, context);
    assert_eq!(one.monitor_exit(lock), Ok(true));
    let (shared, _) = one.suspend();
    let mut two = VmThread::resume(shared, other);
    assert_eq!(two.monitor_enter(lock), Ok(MonitorStep::Entered));
    assert_eq!(two.holds_lock(lock), Ok(true));
}

#[test]
fn notification_ends_the_wait_and_gives_the_monitor_back() {
    let mut waiter = thread_vm();
    let lock = lock_obj(&mut waiter);
    waiter.monitor_enter(lock).unwrap();
    waiter.monitor_enter(lock).unwrap();
    let ticket = waiter.object_wait(lock, 0).unwrap();
    assert_eq!(ticket.saved_count, 2);
    assert_eq!(waiter.holds_lock(lock), Ok(false));
    assert!(waiter.object_wait_pending(ticket));
    let (shared, context) = waiter.suspend();
    let mut notifier = VmThread::from_vm(shared);
    assert_eq!(notifier.monitor_enter(lock), Ok(MonitorStep::Entered));
    assert_eq!(notifier.object_notify(lock), Ok(Wakeup::One));
    let (shared, other) = notifier.suspend();
    let mut waiter = VmThread::resume(shared, context);
    assert!(!waiter.object_wait_pending(ticket));
    let notified = waiter.object_wait_leave(ticket);
    assert!(notified);
    assert_eq!(waiter.object_wait_resume(ticket, notified), Ok(MonitorStep::Blocked));
    let (shared, context) = waiter.suspend();
    let mut notifier = VmThread::resume(shared, other);
    assert_eq!(notifier.monitor_exit(lock), Ok(true));
    let (shared, _) = notifier.suspend();
    let mut waiter = VmThread::resume(shared, context);
    assert_eq!(waiter.object_wait_resume(ticket, notified), Ok(MonitorStep::Entered));
    assert_eq!(waiter.monitor_exit(lock), Ok(false));
    assert_eq!(waiter.monitor_exit(lock), Ok(true));
}

#[test]
fn notification_without_waiters_wakes_nobody() {
    let mut vm = thread_vm();
    let lock = lock_obj(&mut vm);
    vm.monitor_enter(lock).unwrap();
    assert_eq!(vm.object_notify(lock), Ok(Wakeup::Nobody));
    assert_eq!(vm.object_notify_all(lock), Ok(Wakeup::Nobody));
    let err = vm.object_notify_all(Reference::null()).unwrap_err();
    assert_thrown(&vm, err, "java/lang/NullPointerException");
}

#[test]
fn interrupt_ends_a_wait() {
    let mut waiter = thread_vm();
    let lock = lock_obj(&mut waiter);
    waiter.monitor_enter(lock).unwrap();
    let ticket = waiter.object_wait(lock, 0).unwrap();
    let me = waiter.main_thread().unwrap();
    assert_eq!(waiter.interrupt_thread(me), Ok(Some(lock)));
    assert!(!waiter.object_wait_pending(ticket));
    let notified = waiter.object_wait_leave(ticket);
    assert!(!notified);
    let err = waiter.object_wait_resume(ticket, notified).unwrap_err();
    assert_thrown(&waiter, err, "java/lang/InterruptedException");
    assert!(!waiter.interrupt_flag(me));
    assert_eq!(waiter.holds_lock(lock), Ok(true));
}

#[test]
fn interrupted_thread_does_not_wait() {
    let mut vm = thread_vm();
    let lock = lock_obj(&mut vm);
    vm.monitor_enter(lock).unwrap();
    let me = vm.main_thread().unwrap();
    assert_eq!(vm.interrupt_thread(me), Ok(None));
    assert!(vm.interrupt_flag(me));
    let err = vm.object_wait(lock, 0).unwrap_err();
    assert_thrown(&vm, err, "java/lang/InterruptedException");
    assert!(!vm.interrupt_flag(me));
    vm.interrupt_thread(me).unwrap();
    vm.clear_interrupt_event().unwrap();
    assert!(!vm.interrupt_flag(me));
    vm.interrupt_thread(me).unwrap();
    vm.clear_interrupt_status(me);
    assert!(!vm.interrupt_flag(me));
    let err = vm.interrupt_thread(Reference::null()).unwrap_err();
    assert_thrown(&vm, err, "java/lang/NullPointerException");
}

#[test]
fn main_thread_is_stable_and_set_up() {
    let mut vm = thread_vm();
    let t = vm.main_thread().unwrap();
    assert!(!t.is_null());
    assert_eq!(vm.main_thread().unwrap(), t);
    let name = vm.instance_reference_field(t, "java/lang/Thread", "name").unwrap();
    assert_eq!(read_text(&vm, name), Ok(Some("main".to_string())));
    let holder = vm.instance_reference_field(t, "java/lang/Thread", "holder").unwrap();
    assert_eq!(vm.instance_int_field(holder, "java/lang/Thread$FieldHolder", "priority"), Some(5));
    let group = vm.instance_reference_field(holder, "java/lang/Thread$FieldHolder", "group").unwrap();
    assert_eq!(group, vm.system_thread_group().unwrap());
    assert_eq!(vm.instance_int_field(group, "java/lang/ThreadGroup", "maxPriority"), Some(10));
    assert_eq!(vm.read_next_thread_id(), 2);
    match vm.heap().get(t) {
        Some(Oop::Instance(i)) => assert_eq!(i.field(1), Slot::Long(1)),
        other => panic!("no thread: {other:?}"),
    }
}

#[test]
fn threads_wait_for_the_string_class() {
    let mut vm = VmThread::new(thread_registry());
    let lock = lock_obj(&mut vm);
    let Err(VmError::InitializerPending(at)) = vm.main_thread() else {
        panic!("the string class is not initialized");
    };
    assert_eq!(vm.registry().unwrap().class_at(at).unwrap().name, "java/lang/String");
    let pending = VmError::InitializerPending(at);
    assert_eq!(vm.system_thread_group(), Err(pending));
    assert_eq!(vm.monitor_enter(lock), Err(pending));
    assert_eq!(vm.monitor_exit(lock), Err(pending));
    assert_eq!(vm.holds_lock(lock), Err(pending));
    assert_eq!(vm.object_notify(lock), Err(pending));
    assert_eq!(vm.object_wait(lock, 1), Err(pending));
    assert_eq!(vm.clear_interrupt_event(), Err(pending));
    assert_eq!(vm.terminate_thread(lock), Err(pending));
    assert_eq!(vm.throw_exception_with_message("Boom", "bang"), pending);
    assert_eq!(vm.read_next_thread_id(), 1);
    vm.mark_initialized("java/lang/String");
    let t = vm.main_thread().unwrap();
    let name = vm.instance_reference_field(t, "java/lang/Thread", "name").unwrap();
    assert_eq!(read_text(&vm, name), Ok(Some("main".to_string())));
    assert_eq!(vm.monitor_enter(lock), Ok(MonitorStep::Entered));
}

#[test]
fn thread_ids_are_distinct() {
    let mut vm = VmThread::default();
    assert_eq!(vm.next_thread_tid(), 1);
    assert_eq!(vm.next_thread_tid(), 2);
    assert_eq!(vm.next_thread_tid(), 3);
}

#[test]
fn started_thread_is_alive_until_it_terminates() {
    let mut vm = thread_vm();
    let t = vm.main_thread().unwrap();
    let holder = vm.instance_reference_field(t, "java/lang/Thread", "holder").unwrap();
    vm.start_thread(t).unwrap();
    let eetop = |vm: &VmThread| match vm.heap().get(t) {
        Some(Oop::Instance(i)) => i.field(2),
        other => panic!("no thread: {other:?}"),
    };
    assert_eq!(eetop(&vm), Slot::Long(1));
    assert_eq!(vm.instance_int_field(holder, "java/lang/Thread$FieldHolder", "threadStatus"), Some(5));
    assert_eq!(vm.terminate_thread(t), Ok(MonitorStep::Entered));
    assert_eq!(eetop(&vm), Slot::Long(0));
    assert_eq!(vm.instance_int_field(holder, "java/lang/Thread$FieldHolder", "threadStatus"), Some(2));
    assert_eq!(vm.holds_lock(t), Ok(false));
    let err = vm.start_thread(Reference::null()).unwrap_err();
    assert_thrown(&vm, err, "java/lang/NullPointerException");
}

fn method(code: Option<Code>) -> MethodInfo {
    MethodInfo { access_flags: 1, name_index: 1, descriptor_index: 2, code }
}

fn code(max_locals: u16) -> Code {
    Code { max_stack: 1, max_locals, code: vec![0xB1], line_number_table: Vec::new() }
}

fn worker(max_locals: u16) -> LoadedClass {
    let mut c = class("Worker", &["java/lang/Thread"], &[]);
    c.cf.methods = vec![method(None), method(Some(code(max_locals)))];
    c.dispatch = vec![DispatchEntry { name: "run".into(), descriptor: "()V".into(), class: 0, index: 1 }];
    c
}

#[test]
fn thread_body_runs_the_overridden_method() {
    let mut reg = ClassRegistry::new();
    reg.load(worker(2));
    let mut vm = VmThread::new(reg);
    let w = vm.alloc_fresh("Worker");
    let call = vm.run_thread_body(w).unwrap();
    assert_eq!((call.class, call.method), (0, 1));
    assert_eq!(call.frame.locals.get_reference(0), Ok(w));
    assert_eq!(call.frame.locals.slot(1), Ok(&Slot::Top));
    assert_eq!(vm.finish_thread_body(Ok(Value::Void)), Ok(()));
    assert!(vm.finish_thread_body(Ok(Value::Int(1))).is_err());
    let thrown = VmError::ThrownException(w);
    assert_eq!(vm.finish_thread_body(Err(thrown)), Err(thrown));
}

#[test]
fn thread_body_without_a_method_fails() {
    let mut vm = VmThread::default();
    assert_eq!(
        vm.run_thread_body(Reference::null()).unwrap_err(),
        VmError::BadConstant("start0:this 须为 Instance")
    );
    let lock = lock_obj(&mut vm);
    assert_eq!(vm.run_thread_body(lock).unwrap_err(), VmError::BadConstant("start0 须类注册表"));
    let mut reg = ClassRegistry::new();
    reg.load(class("Idle", &[], &[]));
    let mut vm = VmThread::new(reg);
    let idle = vm.alloc_fresh("Idle");
    let err = vm.run_thread_body(idle).unwrap_err();
    assert_thrown(&vm, err, "java/lang/AbstractMethodError");
    let mut reg = ClassRegistry::new();
    reg.load(worker(0));
    let mut vm = VmThread::new(reg);
    let w = vm.alloc_fresh("Worker");
    assert_eq!(vm.run_thread_body(w).unwrap_err(), VmError::Frame(FrameError::BadLocalIndex(0)));
}

#[test]
fn uncaught_exception_goes_to_the_handler_or_the_report() {
    let mut reg = thread_registry();
    let at = reg.len();
    let mut c = class(
        "Worker",
        &["java/lang/Thread"],
        &[
            ("name", "Ljava/lang/String;"),
            ("tid", "J"),
            ("eetop", "J"),
            ("holder", "Ljava/lang/Thread$FieldHolder;"),
            ("interrupted", "Z"),
            ("uncaughtExceptionHandler", "Ljava/lang/Thread$UncaughtExceptionHandler;"),
        ],
    );
    c.cf.methods = vec![method(Some(code(2)))];
    c.dispatch = vec![DispatchEntry {
        name: "dispatchUncaughtException".into(),
        descriptor: "(Ljava/lang/Throwable;)V".into(),
        class: at,
        index: 0,
    }];
    reg.load(c);
    let mut vm = VmThread::new(reg);
    vm.mark_initialized("java/lang/String");
    let w = vm.alloc_fresh("Worker");
    let name = rustj::runtime::string::intern(&mut vm, "worker-1").unwrap();
    vm.set_instance_field_by_name(w, "java/lang/Thread", "name", Slot::Reference(name));
    let err = vm.throw_exception_with_message("Boom", "bang");
    let exc = assert_thrown(&vm, err, "Boom");
    match vm.dispatch_uncaught_exception(w, exc) {
        UncaughtStep::Report(text) => {
            assert_eq!(text, "Exception in thread \"worker-1\" Boom: bang")
        }
        other => panic!("no report: {other:?}"),
    }
    let handler = lock_obj(&mut vm);
    vm.set_instance_field_by_name(w, "java/lang/Thread", "uncaughtExceptionHandler", Slot::Reference(handler));
    match vm.dispatch_uncaught_exception(w, exc) {
        UncaughtStep::Handle(call) => {
            assert_eq!((call.class, call.method), (at, 0));
            assert_eq!(call.frame.locals.get_reference(0), Ok(w));
            assert_eq!(call.frame.locals.get_reference(1), Ok(exc));
        }
        other => panic!("no call: {other:?}"),
    }
    assert_eq!(vm.finish_uncaught_dispatch(Ok(Value::Void)), Ok(()));
    assert_eq!(
        vm.finish_uncaught_dispatch(Ok(Value::Int(0))),
        Err(VmError::BadConstant("dispatchUncaughtException 须 void"))
    );
}

#[test]
fn adopted_thread_is_the_current_one() {
    let mut vm = thread_vm();
    let t = lock_obj(&mut vm);
    vm.adopt_thread(t);
    assert_eq!(vm.main_thread().unwrap(), t);
}

#[test]
fn frames_are_pushed_and_popped() {
    let mut vm = VmThread::default();
    assert_eq!(vm.frame_class_at(0), None);
    vm.push_frame("A", "a");
    vm.push_frame("B", "b");
    vm.set_top_frame_pc(4);
    assert_eq!(vm.frame_class_at(0), Some("B"));
    assert_eq!(vm.frame_class_at(1), Some("A"));
    assert_eq!(vm.frame_class_at(2), None);
    vm.pop_frame();
    assert_eq!(vm.frame_class_at(0), Some("A"));
    let mut context = ThreadContext::new_main();
    context.push_frame("C", "c");
    assert_eq!(context.frame_class_at(0), Some("C"));
    context.pop_frame();
    assert_eq!(context.frame_class_at(0), None);
}

#[test]
fn trace_names_frames_lines_and_causes() {
    let mut reg = ClassRegistry::new();
    let mut c = class("Main", &[], &[]);
    c.cf.constant_pool = ConstantPool::new(vec![ConstantPoolEntry::Utf8("go".to_string())]);
    c.cf.source_file = Some("Main.java".to_string());
    c.cf.methods = vec![MethodInfo {
        access_flags: 9,
        name_index: 1,
        descriptor_index: 1,
        code: Some(Code {
            max_stack: 1,
            max_locals: 1,
            code: vec![0; 10],
            line_number_table: vec![
                LineNumberEntry { start_pc: 0, line_number: 3 },
                LineNumberEntry { start_pc: 5, line_number: 7 },
            ],
        }),
    }];
    reg.load(c);
    let mut vm = VmThread::new(reg);
    vm.push_frame("Main", "go");
    vm.set_top_frame_pc(6);
    vm.push_frame("Other", "deep");
    let err = vm.throw_exception_with_message("Inner", "why");
    let cause = assert_thrown(&vm, err, "Inner");
    vm.pop_frame();
    let err = vm.throw_exception("Outer");
    let exc = assert_thrown(&vm, err, "Outer");
    vm.record_cause(exc, cause);
    assert_eq!(
        vm.format_trace(exc),
        "Outer\n\tat Main.go(Main.java:7)\nCaused by: Inner: why\n\tat Other.deep\n\tat Main.go(Main.java:7)"
    );
    let frames = vm.exception_frames(cause).unwrap();
    assert_eq!(frames.len(), 2);
    assert_eq!((frames[1].class.as_str(), frames[1].method.as_str()), ("Other", "deep"));
    assert_eq!(frames[0].pc, 6);
    let f = CallFrame { class: "Main".into(), method: "go".into(), pc: 4 };
    assert_eq!(vm.frame_source(&f), Some(("Main.java".to_string(), 3)));
    let past = CallFrame { class: "Main".into(), method: "go".into(), pc: 10 };
    assert_eq!(vm.frame_source(&past), None);
}

#[test]
fn trace_is_empty_when_nothing_is_recorded() {
    let mut vm = VmThread::default();
    assert_eq!(vm.format_trace(Reference::null()), "");
    let err = vm.throw_exception("Quiet");
    let exc = assert_thrown(&vm, err, "Quiet");
    assert_eq!(vm.format_trace(exc), "");
    vm.record_message(exc, "loud");
    assert_eq!(vm.format_trace(exc), "Quiet: loud");
}

#[test]
fn cyclic_causes_end() {
    let mut vm = VmThread::default();
    let err = vm.throw_exception_with_message("Loop", "x");
    let exc = assert_thrown(&vm, err, "Loop");
    vm.record_cause(exc, exc);
    let text = vm.format_trace(exc);
    assert_eq!(text.matches("Loop: x").count(), 64);
    assert_eq!(text.matches("Caused by: ").count(), 63);
}

#[test]
fn backtrace_is_captured_in_the_exception() {
    let mut reg = ClassRegistry::new();
    reg.load(class("java/lang/Throwable", &[], &[("backtrace", "Ljava/lang/Object;"), ("depth", "I")]));
    let mut vm = VmThread::new(reg);
    vm.push_frame("A", "a");
    vm.push_frame("B", "b");
    let exc = vm.alloc_fresh("java/lang/Throwable");
    vm.capture_backtrace(exc);
    assert_eq!(vm.instance_int_field(exc, "java/lang/Throwable", "depth"), Some(2));
    assert_eq!(vm.instance_reference_field(exc, "java/lang/Throwable", "backtrace"), Some(exc));
    assert_eq!(vm.exception_frames(exc).map(|f| f.len()), Some(2));
}

fn mirror_registry() -> ClassRegistry {
    let mut reg = ClassRegistry::new();
    reg.load(class("java/lang/String", &["java/lang/Object"], &[("value", "[B"), ("coder", "B")]));
    reg.load(class(
        "java/lang/Class",
        &["java/lang/Object"],
        &[
            ("componentType", "Ljava/lang/Class;"),
            ("primitive", "Z"),
            ("module", "Ljava/lang/Module;"),
            ("modifiers", "C"),
            ("name", "Ljava/lang/String;"),
        ],
    ));
    reg.load(class("java/lang/Module", &["java/lang/Object"], &[("name", "Ljava/lang/String;")]));
    let mut object = class("java/lang/Object", &[], &[]);
    object.module = Some("java.base".to_string());
    object.cf.access_flags = 0x21;
    reg.load(object);
    reg.load(class("Main", &["java/lang/Object"], &[]));
    reg
}

#[test]
fn class_mirrors_are_canonical_and_invertible() {
    let mut vm = VmThread::new(mirror_registry());
    vm.mark_initialized("java/lang/String");
    let a = vm.intern_class_mirror("java/lang/Object").unwrap();
    let b = vm.intern_class_mirror("Main").unwrap();
    assert_ne!(a, b);
    assert_eq!(vm.intern_class_mirror("java/lang/Object").unwrap(), a);
    assert_eq!(vm.mirror_internal_name(a), Some("java/lang/Object".to_string()));
    assert_eq!(vm.mirror_internal_name(b), Some("Main".to_string()));
    let lock = lock_obj(&mut vm);
    assert_eq!(vm.mirror_internal_name(lock), None);
}

#[test]
fn mirror_fields_describe_the_class() {
    let mut vm = VmThread::new(mirror_registry());
    vm.mark_initialized("java/lang/String");
    let object = vm.intern_class_mirror("java/lang/Object").unwrap();
    let array = vm.intern_class_mirror("[Ljava/lang/Object;").unwrap();
    let int = vm.intern_class_mirror("int").unwrap();
    let main = vm.intern_class_mirror("Main").unwrap();
    let c = "java/lang/Class";
    assert_eq!(vm.instance_reference_field(array, c, "componentType"), Some(object));
    assert_eq!(vm.instance_int_field(int, c, "primitive"), Some(1));
    assert_eq!(vm.instance_int_field(object, c, "primitive"), Some(0));
    assert_eq!(vm.instance_int_field(object, c, "modifiers"), Some(0x21));
    assert_eq!(vm.instance_int_field(array, c, "modifiers"), Some(0x0411));
    assert_eq!(vm.instance_int_field(int, c, "modifiers"), Some(0x0411));
    let base = vm.instance_reference_field(object, c, "module").unwrap();
    assert_eq!(vm.named_module_mirror("java.base").unwrap(), base);
    assert_eq!(vm.instance_reference_field(array, c, "module"), Some(base));
    let unnamed = vm.instance_reference_field(main, c, "module").unwrap();
    assert_ne!(unnamed, base);
    let name = vm.instance_reference_field(base, "java/lang/Module", "name").unwrap();
    assert_eq!(read_text(&vm, name), Ok(Some("java.base".to_string())));
}

#[test]
fn mirrors_wait_for_the_string_class() {
    let mut vm = VmThread::new(mirror_registry());
    let pending = VmError::InitializerPending(0);
    assert_eq!(vm.intern_class_mirror("java/lang/Object"), Err(pending));
    assert_eq!(vm.intern_class_mirror("[[Ljava/lang/Object;"), Err(pending));
    assert_eq!(vm.named_module_mirror("java.base"), Err(pending));
    assert!(vm.intern_class_mirror("int").is_ok());
    vm.mark_initialized("java/lang/String");
    let object = vm.intern_class_mirror("java/lang/Object").unwrap();
    let base = vm.instance_reference_field(object, "java/lang/Class", "module").unwrap();
    let name = vm.instance_reference_field(base, "java/lang/Module", "name").unwrap();
    assert_eq!(read_text(&vm, name), Ok(Some("java.base".to_string())));
}

#[test]
fn component_names() {
    assert_eq!(component_internal_of("[I"), Some("int".to_string()));
    assert_eq!(component_internal_of("[[I"), Some("[I".to_string()));
    assert_eq!(component_internal_of("[Ljava/lang/String;"), Some("java/lang/String".to_string()));
    assert_eq!(component_internal_of("java/lang/String"), None);
    assert!(is_primitive_keyword("boolean"));
    assert!(!is_primitive_keyword("Boolean"));
}

#[test]
fn mirror_table_keeps_pairs_one_to_one() {
    let mut m = ClassMirrors::new();
    let a = Reference::from_id(1);
    let b = Reference::from_id(2);
    assert_eq!(m.get("A"), None);
    assert_eq!(m.name_of(a), None);
    m.insert("A".to_string(), a);
    m.insert("B".to_string(), b);
    assert_eq!(m.get("A"), Some(a));
    assert_eq!(m.name_of(b), Some("B".to_string()));
    // Binding A to the handle of B takes it away from B.
    m.insert("A".to_string(), b);
    assert_eq!(m.get("A"), Some(b));
    assert_eq!(m.get("B"), None);
    assert_eq!(m.name_of(a), None);
    assert_eq!(m.name_of(b), Some("A".to_string()));
}

#[test]
fn initializers_are_pending_until_marked() {
    let mut vm = thread_vm();
    assert_eq!(vm.ensure_class_initialized("java/lang/Thread"), Err(VmError::InitializerPending(1)));
    vm.mark_initialized("java/lang/Thread");
    assert_eq!(vm.ensure_class_initialized("java/lang/Thread"), Ok(()));
    assert_eq!(vm.ensure_class_initialized("Missing"), Ok(()));
    assert_eq!(VmThread::default().ensure_class_initialized("java/lang/Thread"), Ok(()));
}

#[test]
fn pooled_strings_are_found() {
    let mut vm = VmThread::default();
    assert_eq!(vm.pooled("k"), None);
    vm.pool("k", Reference::from_id(3));
    assert_eq!(vm.pooled("k"), Some(Reference::from_id(3)));
}

#[test]
fn class_lookups() {
    let vm = thread_vm();
    assert_eq!(vm.field_ord("java/lang/Thread", "holder"), Some(3));
    assert_eq!(vm.field_ord("java/lang/Thread", "missing"), None);
    assert!(vm.class("java/lang/ThreadGroup").is_some());
    assert!(vm.class("Missing").is_none());
    assert!(vm.registry().is_some());
    assert!(VmThread::default().registry().is_none());
}

#[test]
fn fresh_objects_and_writes() {
    let mut vm = thread_vm();
    assert!(vm.alloc_fresh("Missing").is_null());
    let t = vm.alloc_fresh("java/lang/Thread");
    vm.write_field(t, 1, Slot::Long(12));
    let a = vm.alloc_object(Oop::Array(ArrayOop::new("[I".into(), vec![Slot::Int(0); 2])));
    vm.write_element(a, 0, Slot::Int(5));
    vm.write_element(a, 9, Slot::Int(6));
    match (vm.heap().get(t), vm.heap().get(a)) {
        (Some(Oop::Instance(i)), Some(Oop::Array(e))) => {
            assert_eq!(i.field(1), Slot::Long(12));
            assert_eq!(e.element(0), Slot::Int(5));
            assert_eq!(e.length(), 2);
        }
        other => panic!("objects mixed up: {other:?}"),
    }
}
