//! The virtual machine: state shared by all threads ([`Vm`]) and one thread's turn on it
//! ([`VmThread`]).

use vstd::prelude::*;

pub mod class_mirrors;
pub mod exception_laws;
pub mod exceptions;
pub mod growth;
pub mod machine_laws;
pub mod mirror_laws;
pub mod mirrors;
pub mod monitor_laws;
pub mod monitors;
pub mod thread_laws;
pub mod threads;

use crate::metadata::class_registry::{ClassRegistry, LoadedClass};
use crate::runtime::native::registry::{Key, NativeRegistry};
use crate::runtime::native::{built_in, register_all, Native};
use crate::runtime::heap::{allocated, element_written, field_written, lookup, Heap};
use crate::runtime::oop::{Object, Oop};
use crate::runtime::slot::{Reference, Slot};
use crate::runtime::string_pool::StringPool;
use crate::runtime::table::Table;
use crate::runtime::value::VmError;
use class_mirrors::ClassMirrors;

verus! {

/// Frames that may be nested by default.
pub const DEFAULT_STACK_LIMIT: u32 = 512;

/// The off-heap "offset" of the counter for the next thread id. It is negative and so clashes with
/// no field position and no array offset.
pub const NEXT_THREAD_ID_OFFSET: i64 = -9_223_372_036_854_775_801;

/// `threadStatus` of a thread that was not started.
pub const THREAD_STATUS_NEW: i32 = 0;

/// `threadStatus` of a running thread: alive and runnable.
pub const THREAD_STATUS_RUNNABLE: i32 = 0x0005;

/// `threadStatus` of a finished thread.
pub const THREAD_STATUS_TERMINATED: i32 = 0x0002;

/// Stage of the machine's life.
#[derive(Debug, Clone, Copy, PartialEq, Eq, Structural)]
pub enum VmPhase {
    Created,
    Bootstrapping,
    Running,
    ShuttingDown,
}

/// The platform whose conventions for library names apply.
#[derive(Debug, Clone, Copy, PartialEq, Eq, Structural)]
pub enum Platform {
    Windows,
    MacOs,
    Other,
}

/// A frame of the Java call stack: declaring class, method and current bytecode index.
#[derive(Debug)]
pub struct CallFrame {
    pub class: String,
    pub method: String,
    pub pc: u32,
}

/// The model of [`CallFrame`].
#[verifier::ext_equal]
pub struct FrameInfo {
    pub class: Seq<char>,
    pub method: Seq<char>,
    pub pc: u32,
}

impl View for CallFrame {
    type V = FrameInfo;

    open spec fn view(&self) -> FrameInfo {
        FrameInfo { class: self.class@, method: self.method@, pc: self.pc }
    }
}

impl CallFrame {
    /// A copy of the frame.
    pub fn copy(&self) -> (r: Self)
        ensures
            r@ == self@,
    {
        CallFrame { class: self.class.clone(), method: self.method.clone(), pc: self.pc }
    }
}

/// The models of a list of frames.
pub open spec fn frames_view(frames: Seq<CallFrame>) -> Seq<FrameInfo> {
    frames.map_values(|f: CallFrame| f@)
}

/// A copy of a list of frames.
pub fn copy_frames(frames: &Vec<CallFrame>) -> (r: Vec<CallFrame>)
    ensures
        frames_view(r@) == frames_view(frames@),
{
    let mut out: Vec<CallFrame> = Vec::new();
    let mut i: usize = 0;
    while i < frames.len()
        invariant
            i <= frames@.len(),
            out@.len() == i,
            forall|k: int| 0 <= k < i ==> (#[trigger] out@[k])@ == frames@[k]@,
        decreases frames@.len() - i,
    {
        out.push(frames[i].copy());
        i = i + 1;
    }
    assert(frames_view(out@) =~= frames_view(frames@));
    out
}

/// What is known of an exception besides its fields.
#[derive(Debug)]
pub struct ExceptionMeta {
    /// Call chain at the throw; empty if none was captured.
    pub frames: Vec<CallFrame>,
    /// The exception that it wraps.
    pub cause: Option<Reference>,
    /// The detail message.
    pub message: Option<String>,
}

/// The model of [`ExceptionMeta`].
#[verifier::ext_equal]
pub struct ExceptionInfo {
    pub frames: Seq<FrameInfo>,
    pub cause: Option<Reference>,
    pub message: Option<Seq<char>>,
}

/// The model of an optional text.
pub open spec fn text_view(t: Option<String>) -> Option<Seq<char>> {
    match t {
        Some(s) => Some(s@),
        None => None,
    }
}

impl View for ExceptionMeta {
    type V = ExceptionInfo;

    open spec fn view(&self) -> ExceptionInfo {
        ExceptionInfo { frames: frames_view(self.frames@), cause: self.cause, message: text_view(self.message) }
    }
}

/// Lock state of an object. `owner` is the thread mirror of the holder.
#[derive(Debug, Clone, Copy, PartialEq, Eq, Structural)]
pub struct JavaMonitor {
    pub owner: Option<Reference>,
    /// How many times the owner has entered.
    pub count: u64,
    /// How many threads wait on the object.
    pub waiters: u64,
    /// Grows with every notification that finds a waiter.
    pub wake_seq: u64,
}

impl View for JavaMonitor {
    type V = JavaMonitor;

    open spec fn view(&self) -> JavaMonitor {
        *self
    }
}

/// A free monitor.
pub open spec fn free_monitor() -> JavaMonitor {
    JavaMonitor { owner: None, count: 0, waiters: 0, wake_seq: 0 }
}

impl JavaMonitor {
    /// A free monitor.
    pub fn new() -> (r: Self)
        ensures
            r == free_monitor(),
    {
        JavaMonitor { owner: None, count: 0, waiters: 0, wake_seq: 0 }
    }
}

/// Thread bookkeeping.
#[derive(Debug)]
pub struct ThreadManager {
    /// The id that the next thread gets; the first is 1.
    next_tid: u64,
    /// The system thread group, once allocated.
    system_group: Option<Reference>,
    /// Interrupt flag of each thread that was ever asked for.
    interrupt_flags: Table<Reference, bool>,
    /// The object that a thread waits on.
    wait_targets: Table<Reference, Reference>,
}

/// State shared by all threads.
#[derive(Debug)]
pub struct Vm {
    heap: Heap,
    registry: Option<ClassRegistry>,
    natives: NativeRegistry<Native>,
    initialized: Table<String, bool>,
    string_pool: StringPool,
    monitors: Table<Reference, JavaMonitor>,
    threads: ThreadManager,
    exception_meta: Table<Reference, ExceptionMeta>,
    class_mirrors: ClassMirrors,
    module_mirrors: Table<String, Reference>,
    unnamed_module: Option<Reference>,
    phase: VmPhase,
    main_thread: Option<Reference>,
    platform: Platform,
}

/// State of one thread: its call stack and its identity.
#[derive(Debug)]
pub struct ThreadContext {
    call_stack: Vec<CallFrame>,
    frame_depth: u32,
    stack_limit: u32,
    thread_ref: Option<Reference>,
}

/// One thread's turn on the machine.
#[derive(Debug)]
pub struct VmThread {
    runtime: Vm,
    thread: ThreadContext,
}

/// The model of [`Vm`].
#[verifier::ext_equal]
pub struct Shared {
    pub heap: Seq<Object>,
    pub registry: Option<ClassRegistry>,
    /// The native methods that are bound.
    pub natives: Map<Key, Native>,
    /// Classes whose static initializer has run.
    pub initialized: Map<Seq<char>, bool>,
    /// Interned strings by text.
    pub strings: Map<Seq<char>, Reference>,
    /// Class mirrors by internal name.
    pub class_mirrors: Map<Seq<char>, Reference>,
    /// Module mirrors by module name.
    pub module_mirrors: Map<Seq<char>, Reference>,
    pub unnamed_module: Option<Reference>,
    pub exceptions: Map<Reference, ExceptionInfo>,
    pub monitors: Map<Reference, JavaMonitor>,
    pub interrupt_flags: Map<Reference, bool>,
    pub wait_targets: Map<Reference, Reference>,
    pub next_tid: u64,
    pub system_group: Option<Reference>,
    pub main_thread: Option<Reference>,
    pub phase: VmPhase,
    pub platform: Platform,
}

/// The model of [`ThreadContext`].
#[verifier::ext_equal]
pub struct Local {
    pub call_stack: Seq<FrameInfo>,
    pub frame_depth: u32,
    pub stack_limit: u32,
    pub thread_ref: Option<Reference>,
}

/// The model of [`VmThread`].
#[verifier::ext_equal]
pub struct State {
    pub vm: Shared,
    pub thread: Local,
}

impl View for Vm {
    type V = Shared;

    closed spec fn view(&self) -> Shared {
        Shared {
            heap: self.heap@,
            registry: self.registry,
            natives: self.natives@,
            initialized: self.initialized@,
            strings: self.string_pool@,
            class_mirrors: self.class_mirrors@,
            module_mirrors: self.module_mirrors@,
            unnamed_module: self.unnamed_module,
            exceptions: self.exception_meta@,
            monitors: self.monitors@,
            interrupt_flags: self.threads.interrupt_flags@,
            wait_targets: self.threads.wait_targets@,
            next_tid: self.threads.next_tid,
            system_group: self.threads.system_group,
            main_thread: self.main_thread,
            phase: self.phase,
            platform: self.platform,
        }
    }
}

impl View for ThreadContext {
    type V = Local;

    closed spec fn view(&self) -> Local {
        Local {
            call_stack: frames_view(self.call_stack@),
            frame_depth: self.frame_depth,
            stack_limit: self.stack_limit,
            thread_ref: self.thread_ref,
        }
    }
}

impl View for VmThread {
    type V = State;

    closed spec fn view(&self) -> State {
        State { vm: self.runtime@, thread: self.thread@ }
    }
}

/// The shared state of a new machine.
pub open spec fn new_shared(registry: Option<ClassRegistry>) -> Shared {
    Shared {
        heap: Seq::empty(),
        registry,
        natives: built_in(),
        initialized: Map::empty(),
        strings: Map::empty(),
        class_mirrors: Map::empty(),
        module_mirrors: Map::empty(),
        unnamed_module: None,
        exceptions: Map::empty(),
        monitors: Map::empty(),
        interrupt_flags: Map::empty(),
        wait_targets: Map::empty(),
        next_tid: 1,
        system_group: None,
        main_thread: None,
        phase: VmPhase::Created,
        platform: Platform::Other,
    }
}

/// The state of a thread that has not run anything.
pub open spec fn new_local() -> Local {
    Local { call_stack: Seq::empty(), frame_depth: 0, stack_limit: DEFAULT_STACK_LIMIT, thread_ref: None }
}

impl State {
    /// The loaded class `name`.
    pub open spec fn class(self, name: Seq<char>) -> Option<LoadedClass> {
        match self.vm.registry {
            Some(reg) => reg.find(name),
            None => None,
        }
    }

    /// Layout position of field `field` in instances of `class`.
    pub open spec fn field_ord(self, class: Seq<char>, field: Seq<char>) -> Option<int> {
        match self.class(class) {
            Some(c) => c.ord_of(field),
            None => None,
        }
    }

    /// The object behind a reference.
    pub open spec fn object(self, r: Reference) -> Option<Object> {
        lookup(self.vm.heap, r)
    }

    /// The same state with another heap.
    pub open spec fn with_heap(self, heap: Seq<Object>) -> State {
        State { vm: Shared { heap, ..self.vm }, ..self }
    }

    /// State and reference after an allocation.
    pub open spec fn alloc_object(self, o: Object) -> (State, Reference) {
        let (heap, r) = allocated(self.vm.heap, o);
        (self.with_heap(heap), r)
    }

    /// State after field `ord` of the instance `r` was written.
    pub open spec fn write_field(self, r: Reference, ord: int, slot: Slot) -> State {
        self.with_heap(field_written(self.vm.heap, r, ord, slot))
    }

    /// State after element `index` of the array `r` was written.
    pub open spec fn write_element(self, r: Reference, index: int, slot: Slot) -> State {
        self.with_heap(element_written(self.vm.heap, r, index, slot))
    }

    /// State after a fresh instance of `class` was allocated; `null` if the class is not loaded.
    pub open spec fn alloc_fresh(self, class: Seq<char>) -> (State, Reference) {
        match self.class(class) {
            Some(c) => self.alloc_object(c.fresh()),
            None => (self, Reference(None)),
        }
    }

    /// Whether the static initializer of `class` still has to run, and if so the place of the class.
    pub open spec fn pending_initializer(self, class: Seq<char>) -> Option<int> {
        match self.vm.registry {
            Some(reg) => if self.vm.initialized.contains_key(class) {
                None
            } else {
                reg.index_of(class)
            },
            None => None,
        }
    }
}

impl ThreadContext {
    /// The context of a thread that has not run anything.
    pub fn new_main() -> (r: Self)
        ensures
            r@ == new_local(),
    {
        let t = ThreadContext {
            call_stack: Vec::new(),
            frame_depth: 0,
            stack_limit: DEFAULT_STACK_LIMIT,
            thread_ref: None,
        };
        assert(t@ =~= new_local());
        t
    }

    /// Pushes a frame for `class.method`.
    pub fn push_frame(&mut self, class: &str, method: &str)
        ensures
            final(self)@ == (Local {
                call_stack: old(self)@.call_stack.push(FrameInfo { class: class@, method: method@, pc: 0 }),
                ..old(self)@
            }),
    {
        let f = CallFrame { class: class.to_owned(), method: method.to_owned(), pc: 0 };
        self.call_stack.push(f);
        assert(self@.call_stack =~= old(self)@.call_stack.push(f@));
    }

    /// Drops the top frame, if there is one.
    pub fn pop_frame(&mut self)
        ensures
            final(self)@ == (Local {
                call_stack: if old(self)@.call_stack.len() > 0 {
                    old(self)@.call_stack.drop_last()
                } else {
                    old(self)@.call_stack
                },
                ..old(self)@
            }),
    {
        let _ = self.call_stack.pop();
        assert(self@.call_stack =~= if old(self)@.call_stack.len() > 0 {
            old(self)@.call_stack.drop_last()
        } else {
            old(self)@.call_stack
        });
    }

    /// Class of the frame `depth_from_top` below the top.
    pub fn frame_class_at(&self, depth_from_top: usize) -> (r: Option<&str>)
        ensures
            match r {
                Some(s) => class_from_top(self@.call_stack, depth_from_top as int) == Some(s@),
                None => class_from_top(self@.call_stack, depth_from_top as int) is None,
            },
    {
        let n: usize = self.call_stack.len();
        if depth_from_top < n {
            let f: &CallFrame = &self.call_stack[n - 1 - depth_from_top];
            assert(self@.call_stack[n - 1 - depth_from_top] == f@);
            Some(f.class.as_str())
        } else {
            None
        }
    }

    /// Sets the bytecode index of the top frame, if there is one.
    pub fn set_top_frame_pc(&mut self, pc: u32)
        ensures
            final(self)@ == (Local { call_stack: with_top_pc(old(self)@.call_stack, pc), ..old(self)@ }),
    {
        let n: usize = self.call_stack.len();
        if n > 0 {
            let top = &self.call_stack[n - 1];
            let f = CallFrame { class: top.class.clone(), method: top.method.clone(), pc };
            self.call_stack.set(n - 1, f);
        }
        assert(self@.call_stack =~= with_top_pc(old(self)@.call_stack, pc));
    }
}

/// Class of the frame `depth` below the top of a call stack.
pub open spec fn class_from_top(stack: Seq<FrameInfo>, depth: int) -> Option<Seq<char>> {
    if 0 <= depth < stack.len() {
        Some(stack[stack.len() - 1 - depth].class)
    } else {
        None
    }
}

/// A call stack whose top frame is at `pc`.
pub open spec fn with_top_pc(stack: Seq<FrameInfo>, pc: u32) -> Seq<FrameInfo> {
    if stack.len() > 0 {
        stack.update(stack.len() - 1, FrameInfo { pc, ..stack.last() })
    } else {
        stack
    }
}

impl Vm {
    /// A new machine.
    pub fn new(registry: Option<ClassRegistry>) -> (r: Self)
        ensures
            r@ == new_shared(registry),
    {
        let mut natives: NativeRegistry<Native> = NativeRegistry::new();
        register_all(&mut natives);
        assert(natives@ == built_in()) by {
            reveal(built_in);
        }
        let vm = Vm {
            heap: Heap::new(),
            registry,
            natives,
            initialized: Table::new(),
            string_pool: StringPool::new(),
            monitors: Table::new(),
            threads: ThreadManager {
                next_tid: 1,
                system_group: None,
                interrupt_flags: Table::new(),
                wait_targets: Table::new(),
            },
            exception_meta: Table::new(),
            class_mirrors: ClassMirrors::new(),
            module_mirrors: Table::new(),
            unnamed_module: None,
            phase: VmPhase::Created,
            main_thread: None,
            platform: Platform::Other,
        };
        assert(vm@ =~= new_shared(registry));
        vm
    }

    /// Ends the machine's life. Returns whether it was this call that did, so that the started
    /// threads have to be waited for; a second call changes nothing.
    pub fn shutdown(&mut self) -> (r: bool)
        ensures
            (final(self)@, r) == shut_down(old(self)@),
    {
        if self.phase == VmPhase::ShuttingDown {
            return false;
        }
        self.phase = VmPhase::ShuttingDown;
        true
    }
}

/// The same machine in another stage of its life.
pub open spec fn in_phase(s: Shared, phase: VmPhase) -> Shared {
    Shared { phase, ..s }
}

/// The end of the machine's life, and whether it had not come before.
pub open spec fn shut_down(s: Shared) -> (Shared, bool) {
    (in_phase(s, VmPhase::ShuttingDown), s.phase != VmPhase::ShuttingDown)
}

/// The start of bootstrapping.
pub open spec fn bootstrap_begun(s: Shared) -> (Shared, Result<BootstrapStep, VmError>) {
    match s.phase {
        VmPhase::Created => (in_phase(s, VmPhase::Bootstrapping), Ok(BootstrapStep::Run)),
        VmPhase::Bootstrapping => (
            s,
            Err(VmError::BadConstant("bootstrap 重入:phase Bootstrapping(同线程不应重入)")),
        ),
        _ => (s, Ok(BootstrapStep::Done)),
    }
}

/// What [`VmThread::begin_bootstrap`] asks of the caller.
#[derive(Debug, Clone, Copy, PartialEq, Eq, Structural)]
pub enum BootstrapStep {
    /// The system classes have to be initialised now.
    Run,
    /// The machine was bootstrapped before.
    Done,
}

impl VmThread {
    /// A machine with the given classes.
    pub fn new(registry: ClassRegistry) -> (r: Self)
        ensures
            r@ == (State { vm: new_shared(Some(registry)), thread: new_local() }),
    {
        VmThread { runtime: Vm::new(Some(registry)), thread: ThreadContext::new_main() }
    }

    /// A further thread of the machine.
    pub fn from_vm(runtime: Vm) -> (r: Self)
        ensures
            r@ == (State { vm: runtime@, thread: new_local() }),
    {
        VmThread { runtime, thread: ThreadContext::new_main() }
    }

    /// The turn of a thread that has run before.
    pub fn resume(runtime: Vm, thread: ThreadContext) -> (r: Self)
        ensures
            r@ == (State { vm: runtime@, thread: thread@ }),
    {
        VmThread { runtime, thread }
    }

    /// Ends the turn: what is shared and what is the thread's own.
    pub fn suspend(self) -> (r: (Vm, ThreadContext))
        ensures
            self@ == (State { vm: r.0@, thread: r.1@ }),
    {
        (self.runtime, self.thread)
    }

    /// Stage of the machine's life.
    pub fn phase(&self) -> (r: VmPhase)
        ensures
            r == self@.vm.phase,
    {
        self.runtime.phase
    }

    /// Ends the machine's life; see [`Vm::shutdown`].
    pub fn shutdown(&mut self) -> (r: bool)
        ensures
            final(self)@ == (State { vm: shut_down(old(self)@.vm).0, ..old(self)@ }),
            r == shut_down(old(self)@.vm).1,
    {
        self.runtime.shutdown()
    }

    /// Starts bootstrapping. A machine that is running or shutting down needs none; one that is in
    /// the middle of it refuses.
    pub fn begin_bootstrap(&mut self) -> (r: Result<BootstrapStep, VmError>)
        ensures
            final(self)@ == (State { vm: bootstrap_begun(old(self)@.vm).0, ..old(self)@ }),
            r == bootstrap_begun(old(self)@.vm).1,
    {
        match self.runtime.phase {
            VmPhase::Created => {
                self.runtime.phase = VmPhase::Bootstrapping;
                Ok(BootstrapStep::Run)
            },
            VmPhase::Running | VmPhase::ShuttingDown => Ok(BootstrapStep::Done),
            VmPhase::Bootstrapping => Err(
                VmError::BadConstant("bootstrap 重入:phase Bootstrapping(同线程不应重入)"),
            ),
        }
    }

    /// Ends bootstrapping: the system classes are initialised.
    pub fn finish_bootstrap(&mut self)
        ensures
            final(self)@ == (State { vm: in_phase(old(self)@.vm, VmPhase::Running), ..old(self)@ }),
    {
        self.runtime.phase = VmPhase::Running;
    }

    /// The same machine with another limit on nested frames.
    pub fn with_stack_limit(self, limit: u32) -> (r: Self)
        ensures
            r@ == (State { thread: Local { stack_limit: limit, ..self@.thread }, ..self@ }),
    {
        let mut t = self;
        t.thread.stack_limit = limit;
        t
    }

    /// The same machine on another platform.
    pub fn with_platform(self, platform: Platform) -> (r: Self)
        ensures
            r@ == (State { vm: Shared { platform, ..self@.vm }, ..self@ }),
    {
        let mut t = self;
        t.runtime.platform = platform;
        t
    }

    /// The platform.
    pub fn platform(&self) -> (r: Platform)
        ensures
            r == self@.vm.platform,
    {
        self.runtime.platform
    }

    /// The object heap.
    pub fn heap(&self) -> (r: &Heap)
        ensures
            r@ == self@.vm.heap,
    {
        &self.runtime.heap
    }

    /// The object heap, for changes.
    pub fn heap_mut(&mut self) -> (r: &mut Heap)
        ensures
            r@ == old(self)@.vm.heap,
            final(self)@ == old(self)@.with_heap(final(r)@),
    {
        &mut self.runtime.heap
    }

    /// Puts an object on the heap.
    pub fn alloc_object(&mut self, o: Oop) -> (r: Reference)
        ensures
            (final(self)@, r) == old(self)@.alloc_object(o@),
    {
        self.runtime.heap.allocate(o)
    }

    /// Allocates an instance of `class` with default fields; `null` if the class is not loaded.
    pub fn alloc_fresh(&mut self, class: &str) -> (r: Reference)
        ensures
            (final(self)@, r) == old(self)@.alloc_fresh(class@),
    {
        let inst = match &self.runtime.registry {
            Some(reg) => match reg.get(class) {
                Some(c) => c.new_instance(),
                None => {
                    return Reference(None);
                },
            },
            None => {
                return Reference(None);
            },
        };
        self.alloc_object(Oop::Instance(inst))
    }

    /// Writes field `ord` of the instance `r`.
    pub fn write_field(&mut self, r: Reference, ord: usize, slot: Slot)
        ensures
            final(self)@ == old(self)@.write_field(r, ord as int, slot),
    {
        self.runtime.heap.set_field(r, ord, slot);
    }

    /// Writes element `index` of the array `r`.
    pub fn write_element(&mut self, r: Reference, index: usize, slot: Slot)
        ensures
            final(self)@ == old(self)@.write_element(r, index as int, slot),
    {
        self.runtime.heap.set_element(r, index, slot);
    }

    /// The loaded classes.
    pub fn registry(&self) -> (r: Option<&ClassRegistry>)
        ensures
            match r {
                Some(reg) => self@.vm.registry == Some(*reg),
                None => self@.vm.registry is None,
            },
    {
        match &self.runtime.registry {
            Some(reg) => Some(reg),
            None => None,
        }
    }

    /// The native method that is bound to a class, name and descriptor.
    pub fn native_resolve(&self, class: &str, name: &str, desc: &str) -> (r: Option<Native>)
        ensures
            r == self@.vm.natives.get((class@, name@, desc@)),
    {
        self.runtime.natives.resolve(class, name, desc)
    }

    /// The loaded class `name`.
    pub fn class(&self, name: &str) -> (r: Option<&LoadedClass>)
        ensures
            match r {
                Some(c) => self@.class(name@) == Some(*c),
                None => self@.class(name@) is None,
            },
    {
        match &self.runtime.registry {
            Some(reg) => reg.get(name),
            None => None,
        }
    }

    /// Layout position of field `field` in instances of `class`.
    pub fn field_ord(&self, class: &str, field: &str) -> (r: Option<usize>)
        ensures
            match r {
                Some(i) => self@.field_ord(class@, field@) == Some(i as int),
                None => self@.field_ord(class@, field@) is None,
            },
    {
        match self.class(class) {
            Some(c) => c.field_index(field),
            None => None,
        }
    }

    /// Checks that the static initializer of `class` has run. If it has not, the caller is told
    /// which class to initialise.
    pub fn ensure_class_initialized(&self, class: &str) -> (r: Result<(), VmError>)
        ensures
            match self@.pending_initializer(class@) {
                Some(i) => r == Err::<(), VmError>(VmError::InitializerPending(i as usize)),
                None => r == Ok::<(), VmError>(()),
            },
    {
        match &self.runtime.registry {
            Some(reg) => match self.runtime.initialized.get(&class.to_owned()) {
                Some(_) => Ok(()),
                None => match reg.position(class) {
                    Some(i) => Err(VmError::InitializerPending(i)),
                    None => Ok(()),
                },
            },
            None => Ok(()),
        }
    }

    /// Notes that the static initializer of `class` has run.
    pub fn mark_initialized(&mut self, class: &str)
        ensures
            final(self)@ == (State {
                vm: Shared { initialized: old(self)@.vm.initialized.insert(class@, true), ..old(self)@.vm },
                ..old(self)@
            }),
    {
        self.runtime.initialized.insert(class.to_owned(), true);
    }

    /// The interned string of a text, if there is one.
    pub fn pooled(&self, text: &str) -> (r: Option<Reference>)
        ensures
            match r {
                Some(v) => self@.vm.strings.contains_key(text@) && self@.vm.strings[text@] == v,
                None => !self@.vm.strings.contains_key(text@),
            },
    {
        match self.runtime.string_pool.get(text) {
            Some(r) => Some(*r),
            None => None,
        }
    }

    /// Registers the interned string of a text.
    pub fn pool(&mut self, text: &str, r: Reference)
        ensures
            final(self)@ == (State {
                vm: Shared { strings: old(self)@.vm.strings.insert(text@, r), ..old(self)@.vm },
                ..old(self)@
            }),
    {
        self.runtime.string_pool.insert(text.to_owned(), r);
    }

    /// Pushes a frame for `class.method`.
    pub fn push_frame(&mut self, class: &str, method: &str)
        ensures
            final(self)@ == pushed(old(self)@, class@, method@),
    {
        self.thread.push_frame(class, method);
    }

    /// Drops the top frame, if there is one.
    pub fn pop_frame(&mut self)
        ensures
            final(self)@ == popped(old(self)@),
    {
        self.thread.pop_frame();
    }

    /// Class of the frame `depth_from_top` below the top.
    pub fn frame_class_at(&self, depth_from_top: usize) -> (r: Option<&str>)
        ensures
            match r {
                Some(s) => class_from_top(self@.thread.call_stack, depth_from_top as int) == Some(s@),
                None => class_from_top(self@.thread.call_stack, depth_from_top as int) is None,
            },
    {
        self.thread.frame_class_at(depth_from_top)
    }

    /// Sets the bytecode index of the top frame, if there is one.
    pub fn set_top_frame_pc(&mut self, pc: u32)
        ensures
            final(self)@ == (State {
                thread: Local { call_stack: with_top_pc(old(self)@.thread.call_stack, pc), ..old(self)@.thread },
                ..old(self)@
            }),
    {
        self.thread.set_top_frame_pc(pc);
    }
}

/// State after a frame for `class.method` was pushed.
pub open spec fn pushed(s: State, class: Seq<char>, method: Seq<char>) -> State {
    State {
        thread: Local { call_stack: s.thread.call_stack.push(FrameInfo { class, method, pc: 0 }), ..s.thread },
        ..s
    }
}

/// State after the top frame was dropped.
pub open spec fn popped(s: State) -> State {
    State {
        thread: Local {
            call_stack: if s.thread.call_stack.len() > 0 {
                s.thread.call_stack.drop_last()
            } else {
                s.thread.call_stack
            },
            ..s.thread
        },
        ..s
    }
}

impl Default for VmThread {
    /// A machine without classes.
    fn default() -> (r: Self)
        ensures
            r@ == (State { vm: new_shared(None), thread: new_local() }),
    {
        VmThread { runtime: Vm::new(None), thread: ThreadContext::new_main() }
    }
}

/// Dropping a frame undoes pushing it.
pub proof fn law_push_pop_frame(s: State, class: Seq<char>, method: Seq<char>)
    ensures
        popped(pushed(s, class, method)) == s,
        class_from_top(pushed(s, class, method).thread.call_stack, 0) == Some(class),
        forall|d: int|
            d >= 0 ==> #[trigger] class_from_top(pushed(s, class, method).thread.call_stack, d + 1)
                == class_from_top(s.thread.call_stack, d),
{
    assert(popped(pushed(s, class, method)).thread.call_stack =~= s.thread.call_stack);
}

/// A second shutdown changes nothing, and says so.
pub proof fn law_shutdown_is_idempotent(s: Shared)
    ensures
        shut_down(s).0.phase == VmPhase::ShuttingDown,
        shut_down(shut_down(s).0) == (shut_down(s).0, false),
{
}

/// A machine is bootstrapped once: in the middle of it a second start is refused, after it nothing is left to
/// do, and a machine that was shut down is not bootstrapped.
pub proof fn law_bootstrap_happens_once(s: Shared)
    ensures
        s.phase == VmPhase::Created ==> bootstrap_begun(s).1 == Ok::<BootstrapStep, VmError>(BootstrapStep::Run),
        s.phase == VmPhase::Created ==> bootstrap_begun(bootstrap_begun(s).0).1 is Err,
        bootstrap_begun(in_phase(s, VmPhase::Running)) == (
            in_phase(s, VmPhase::Running),
            Ok::<BootstrapStep, VmError>(BootstrapStep::Done),
        ),
        bootstrap_begun(shut_down(s).0) == (shut_down(s).0, Ok::<BootstrapStep, VmError>(BootstrapStep::Done)),
{
}

} // verus!
