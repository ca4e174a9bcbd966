//! The life of the machine, its call stacks and its mirrors.

use vstd::prelude::*;

use super::class_mirrors::name_of;
use super::exceptions::message_thrown;
use super::mirror_laws::{law_fields_of_a_new_mirror, named_write_read};
use super::mirrors::{
    class_mirror, component_name, int_field, mirror_asked, module_asked, module_mirror, module_name_for,
    module_pending, named_field, named_field_written, reference_field, unnamed_module_mirror,
};
use super::monitors::{entered, exited, lock_held, notified, wait_begun, MonitorStep, WaitTicket, Wakeup};
use super::threads::{event_lowered, group_asked, identity, own_thread, terminated};
use super::{
    bootstrap_begun, class_from_top, in_phase, new_local, new_shared, popped, pushed, shut_down, with_top_pc,
    BootstrapStep, FrameInfo, Platform, Shared, State, VmPhase,
};
use crate::metadata::class_registry::ClassRegistry;
use crate::runtime::heap::{allocated, element_written, field_written, handle_space, lookup};
use crate::runtime::oop::Object;
use crate::runtime::slot::{Reference, Slot};
use crate::runtime::string::{interned, text_pending};
use crate::runtime::value::VmError;

verus! {

/// A new machine has nothing on its heap, nothing interned, no mirrors, no monitors and no exceptions; thread ids begin
/// at 1, and it waits to be bootstrapped. A new thread has an empty call stack, room for 512 frames and no mirror.
pub proof fn law_new_machines(registry: Option<ClassRegistry>, name: Seq<char>, r: Reference)
    ensures
        ({
            let m = new_shared(registry);
            &&& m.heap.len() == 0
            &&& m.registry == registry
            &&& !m.strings.contains_key(name) && !m.class_mirrors.contains_key(name) && !m.module_mirrors.contains_key(
                name,
            ) && !m.initialized.contains_key(name)
            &&& !m.monitors.contains_key(r) && !m.exceptions.contains_key(r) && !m.interrupt_flags.contains_key(r)
                && !m.wait_targets.contains_key(r)
            &&& m.next_tid == 1
            &&& m.phase == VmPhase::Created
            &&& m.main_thread is None && m.system_group is None && m.unnamed_module is None
            &&& m.natives == crate::runtime::native::built_in()
            &&& m.platform == Platform::Other
        }),
        new_local().call_stack.len() == 0,
        new_local().stack_limit == 512,
        new_local().frame_depth == 0,
        new_local().thread_ref is None,
{
}

/// The machine goes from created over bootstrapping to running, and from any stage to its end, from which nothing leads
/// back; a stage changes nothing else.
pub proof fn law_stages(s: Shared)
    ensures
        s.phase == VmPhase::Created ==> bootstrap_begun(s).0.phase == VmPhase::Bootstrapping && bootstrap_begun(s).1
            == Ok::<BootstrapStep, VmError>(BootstrapStep::Run),
        s.phase == VmPhase::Bootstrapping ==> bootstrap_begun(s).0 == s && bootstrap_begun(s).1 is Err,
        s.phase == VmPhase::Running || s.phase == VmPhase::ShuttingDown ==> bootstrap_begun(s) == (
            s,
            Ok::<BootstrapStep, VmError>(BootstrapStep::Done),
        ),
        shut_down(s).0.phase == VmPhase::ShuttingDown,
        shut_down(s).1 == (s.phase != VmPhase::ShuttingDown),
        bootstrap_begun(s).0.heap == s.heap && shut_down(s).0.heap == s.heap,
        bootstrap_begun(s).0.monitors == s.monitors && shut_down(s).0.monitors == s.monitors,
        forall|p: VmPhase| (#[trigger] in_phase(s, p)).phase == p && in_phase(s, p).heap == s.heap,
{
}

/// Frames are pushed at their beginning and dropped in reverse; the class of a frame is found by how far it is from the
/// top; only the top frame moves in its code.
pub proof fn law_frames(s: State, class: Seq<char>, method: Seq<char>, depth: int, pc: u32)
    ensures
        pushed(s, class, method).thread.call_stack == s.thread.call_stack.push(FrameInfo { class, method, pc: 0 }),
        pushed(s, class, method).vm == s.vm,
        popped(pushed(s, class, method)) == s,
        s.thread.call_stack.len() == 0 ==> popped(s) == s,
        s.thread.call_stack.len() > 0 ==> popped(s).thread.call_stack == s.thread.call_stack.drop_last(),
        0 <= depth < s.thread.call_stack.len() ==> class_from_top(s.thread.call_stack, depth) == Some(
            s.thread.call_stack[s.thread.call_stack.len() - 1 - depth].class,
        ),
        depth >= s.thread.call_stack.len() ==> class_from_top(s.thread.call_stack, depth) is None,
        with_top_pc(Seq::empty(), pc) == Seq::<FrameInfo>::empty(),
        with_top_pc(pushed(s, class, method).thread.call_stack, pc) == s.thread.call_stack.push(
            FrameInfo { class, method, pc },
        ),
{
    super::law_push_pop_frame(s, class, method);
    let stack = s.thread.call_stack;
    assert(with_top_pc(pushed(s, class, method).thread.call_stack, pc) =~= stack.push(FrameInfo { class, method, pc }));
}

/// The static initializer of a class has to run first exactly if the class is loaded and was not marked as initialized;
/// what is pending is the place of that class.
pub proof fn law_pending_initializers(s: State, class: Seq<char>, other: Seq<char>)
    ensures
        s.pending_initializer(class) is Some == (s.class(class) is Some && !s.vm.initialized.contains_key(class)),
        s.pending_initializer(class) matches Some(i) ==> 0 <= i < s.vm.registry->0.classes().len()
            && s.vm.registry->0.classes()[i].name@ == class,
        ({
            let marked = State { vm: Shared { initialized: s.vm.initialized.insert(class, true), ..s.vm }, ..s };
            marked.pending_initializer(class) is None && (other != class ==> marked.pending_initializer(other)
                == s.pending_initializer(other))
        }),
{
    if s.vm.registry is Some {
        crate::metadata::registry_laws::law_found_classes(s.vm.registry->0, class);
    }
}

/// A new mirror is an instance of `java/lang/Class`. Its modifiers are the access flags of the class in its class file;
/// public, final and abstract for arrays and primitive types. `primitive` is set exactly for the keywords of primitive
/// types and `void`, and the component type of an array is the mirror of its component class.
pub proof fn law_new_mirrors(s: State, name: Seq<char>)
    requires
        !s.vm.class_mirrors.contains_key(name),
        s.class("java/lang/Class"@) is Some,
        s.class("java/lang/Class"@)->0.ord_of("modifiers"@) is Some,
        s.class("java/lang/Class"@)->0.ord_of("module"@) is Some,
        s.class("java/lang/Class"@)->0.ord_of("primitive"@) is Some,
        s.class("java/lang/Class"@)->0.ord_of("componentType"@) is Some,
        s.vm.heap.len() < handle_space(),
    ensures
        ({
            let (t, r) = class_mirror(s, name);
            let class = "java/lang/Class"@;
            let keyword = name == "boolean"@ || name == "byte"@ || name == "char"@ || name == "short"@ || name
                == "int"@ || name == "long"@ || name == "float"@ || name == "double"@ || name == "void"@;
            &&& r.0 is Some && s.object(r) is None
            &&& keyword ==> int_field(t, r, class, "primitive"@) == Some(1i32) && int_field(t, r, class, "modifiers"@)
                == Some(0x0411i32)
            &&& name.len() > 0 && name[0] == '[' ==> int_field(t, r, class, "modifiers"@) == Some(0x0411i32)
            &&& !keyword && (name.len() == 0 || name[0] != '[') ==> int_field(t, r, class, "modifiers"@) == Some(
                match s.class(name) {
                    Some(c) => c.cf.access_flags as i32,
                    None => 0i32,
                },
            )
            &&& reference_field(t, r, class, "module"@) is Some
        }),
{
    law_fields_of_a_new_mirror(s, name);
    super::growth::class_mirror_grown(s, name);
}

/// A named module has one mirror: a new `java/lang/Module` whose `name` is the interned name; asked for again, it is the
/// same and nothing changes.
pub proof fn law_module_mirrors(s: State, name: Seq<char>)
    requires
        !s.vm.module_mirrors.contains_key(name),
        module_pending(s, name) is None,
        s.class("java/lang/Module"@) matches Some(c) && c.ord_of("name"@) is Some,
        s.vm.heap.len() + 3 <= handle_space(),
        interned(s, name).1 is Ok,
    ensures
        ({
            let (t, m) = module_asked(s, name);
            let class = "java/lang/Module"@;
            &&& m is Ok
            &&& (m->Ok_0).0 is Some && s.object(m->Ok_0) is None
            &&& t.object(m->Ok_0) is Some && t.object(m->Ok_0)->0 is Instance && t.object(m->Ok_0)->0->Instance_class
                == class
            &&& t.vm.module_mirrors.get(name) == Some(m->Ok_0)
            &&& module_asked(t, name) == (t, m)
            &&& reference_field(t, m->Ok_0, class, "name"@) is Some && t.vm.strings.get(name) == reference_field(
                t,
                m->Ok_0,
                class,
                "name"@,
            )
        }),
{
    let class = "java/lang/Module"@;
    let c = s.class(class)->0;
    crate::metadata::registry_laws::law_found_classes(s.vm.registry->0, class);
    let (s1, r) = s.alloc_fresh(class);
    assert(s1.object(r) == Some(c.fresh()));
    let s2 = State { vm: Shared { module_mirrors: s1.vm.module_mirrors.insert(name, r), ..s1.vm }, ..s1 };
    assert(interned(s2, name).1 is Ok) by {
        assert(s2.vm.registry == s.vm.registry && s2.vm.initialized == s.vm.initialized && s2.vm.strings
            == s.vm.strings);
    }
    let (s3, text) = (interned(s2, name).0, interned(s2, name).1->Ok_0);
    super::mirror_laws::interned_keeps(s2, name, r);
    assert(s3.vm.module_mirrors == s2.vm.module_mirrors);
    named_write_read(s3, r, class, c, "name"@, Slot::Reference(text), "module"@);
    assert(module_mirror(s, name) == (named_field_written(s3, r, class, "name"@, Slot::Reference(text)), r));
}

/// A class belongs to the module that it names, an array to that of its component; what names none belongs to the unnamed
/// module, of which there is one.
pub proof fn law_modules(s: State, class: Seq<char>)
    ensures
        s.class(class) matches Some(c) ==> (c.module matches Some(m) ==> module_name_for(s, class) == Some(m@)),
        s.class(class) is None ==> module_name_for(s, class) == match component_name(class) {
            Some(c) => module_name_for(s, c),
            None => None,
        },
        s.class(class) matches Some(c) ==> (c.module is None && component_name(class) is None ==> module_name_for(
            s,
            class,
        ) is None),
        ({
            let (t, m) = unnamed_module_mirror(s);
            &&& unnamed_module_mirror(t) == (t, m) || m.0 is None
            &&& s.vm.unnamed_module is None && s.class("java/lang/Module"@) is Some && s.vm.heap.len() < handle_space()
                ==> t.vm.unnamed_module == Some(m) && s.object(m) is None && t.object(m) is Some && t.object(m)->0
                is Instance && t.object(m)->0->Instance_class == "java/lang/Module"@
        }),
{
    if s.vm.registry is Some {
        crate::metadata::registry_laws::law_found_classes(s.vm.registry->0, "java/lang/Module"@);
    }
}

/// A field that is written by name is the field of that name, and reading by name gives it back in its kind.
pub proof fn law_fields_by_name(s: State, r: Reference, class: Seq<char>, field: Seq<char>, i: int, slot: Slot)
    requires
        s.class(class) matches Some(c) && 0 <= i < c.instance_fields@.len() && c.instance_fields@[i].name@ == field
            && forall|j: int| 0 <= j < i ==> (#[trigger] c.instance_fields@[j]).name@ != field,
        s.object(r) matches Some(Object::Instance { fields, .. }) && i < fields.len(),
    ensures
        ({
            let t = named_field_written(s, r, class, field, slot);
            let fields = s.object(r)->0->fields;
            &&& named_field(s, r, class, field) == Some(fields[i])
            &&& t.object(r) == Some(
                (Object::Instance { class: s.object(r)->0->Instance_class, fields: fields.update(i, slot) }),
            )
            &&& reference_field(s, r, class, field) == match fields[i] {
                Slot::Reference(x) => Some(x),
                _ => None,
            }
            &&& int_field(s, r, class, field) == match fields[i] {
                Slot::Int(x) => Some(x),
                _ => None,
            }
        }),
{
    let c = s.class(class)->0;
    crate::metadata::registry_laws::law_field_positions(c, field, field);
    let k = c.ord_of(field)->0;
    if k < i {
        assert(c.instance_fields@[k].name@ == field);
    } else if i < k {
        assert(c.instance_fields@[i].name@ == field);
    }
}

/// A mirror stands for the name that it is bound to, if that is the only one.
pub proof fn law_names_of_mirrors(m: Map<Seq<char>, Reference>, name: Seq<char>, r: Reference)
    requires
        super::class_mirrors::one_to_one(m),
    ensures
        m.get(name) == Some(r) ==> name_of(m, r) == Some(name),
        name_of(m, r) == Some(name) ==> m.get(name) == Some(r),
{
    if m.get(name) == Some(r) {
        assert(m.contains_key(name) && m[name] == r);
        let k = choose|k: Seq<char>| #[trigger] m.contains_key(k) && m[k] == r;
        assert(m.contains_key(k) && m[k] == r);
        assert(m[k] == m[name]);
    }
    if name_of(m, r) is Some {
        let k = choose|k: Seq<char>| #[trigger] m.contains_key(k) && m[k] == r;
        assert(m.contains_key(k) && m[k] == r);
    }
}

/// Handles are given out one after the other, from 0 on, and there are 2 to the power of 32; nothing is allocated once
/// they are used up.
pub proof fn law_handles(heap: Seq<Object>, o: Object, r: Reference)
    ensures
        heap.len() < 0x1_0000_0000 ==> allocated(heap, o) == (heap.push(o), Reference(Some(heap.len() as u32))),
        heap.len() >= 0x1_0000_0000 ==> allocated(heap, o) == (heap, Reference(None)),
        lookup(heap, Reference(None)) is None,
        r.0 matches Some(id) ==> lookup(heap, r) == if id < heap.len() {
            Some(heap[id as int])
        } else {
            None
        },
{
}

/// A write reaches the field or element with its number, of an instance or an array; a write to a place that is not there
/// changes nothing.
pub proof fn law_writes(heap: Seq<Object>, r: Reference, at: int, slot: Slot)
    ensures
        (match lookup(heap, r) {
            Some(Object::Instance { class, fields }) => {
                &&& element_written(heap, r, at, slot) == heap
                &&& 0 <= at < fields.len() ==> field_written(heap, r, at, slot) == heap.update(
                    r.0->0 as int,
                    Object::Instance { class, fields: fields.update(at, slot) },
                )
                &&& !(0 <= at < fields.len()) ==> field_written(heap, r, at, slot) =~= heap
            },
            Some(Object::Array { class, elements }) => {
                &&& field_written(heap, r, at, slot) == heap
                &&& 0 <= at < elements.len() ==> element_written(heap, r, at, slot) == heap.update(
                    r.0->0 as int,
                    Object::Array { class, elements: elements.update(at, slot) },
                )
                &&& !(0 <= at < elements.len()) ==> element_written(heap, r, at, slot) =~= heap
            },
            _ => field_written(heap, r, at, slot) == heap && element_written(heap, r, at, slot) == heap,
        }),
{
}

/// A mirror that is bound already is given at once. For another one the string class has to be initialized first, if
/// the mirror of a named module has to be made for the class or, in an array, for a component; then nothing changes and
/// the class to initialize is named.
pub proof fn law_mirrors_that_wait(s: State, name: Seq<char>, module: Seq<char>, i: int, component: Seq<char>)
    ensures
        s.vm.class_mirrors.contains_key(name) ==> mirror_asked(s, name) == (
            s,
            Ok::<Reference, VmError>(s.vm.class_mirrors[name]),
        ),
        s.vm.module_mirrors.contains_key(module) ==> module_asked(s, module) == (
            s,
            Ok::<Reference, VmError>(s.vm.module_mirrors[module]),
        ),
        !s.vm.module_mirrors.contains_key(module) && s.class("java/lang/Module"@) is Some && text_pending(s, module)
            == Some(i) ==> {
            let stop = (s, Err::<Reference, VmError>(VmError::InitializerPending(i as usize)));
            &&& module_asked(s, module) == stop
            &&& !s.vm.class_mirrors.contains_key(name) && module_name_for(s, name) == Some(module) ==> mirror_asked(
                s,
                name,
            ) == stop
        },
        !s.vm.class_mirrors.contains_key(name) && component_name(name) == Some(component) && (module_name_for(s, name)
            is None || s.class("java/lang/Module"@) is None || s.vm.module_mirrors.contains_key(
            module_name_for(s, name)->0,
        )) && (mirror_asked(s, component).1 is Err) ==> mirror_asked(s, name) == mirror_asked(s, component),
        !s.vm.class_mirrors.contains_key(name) && component_name(name) is None && (module_name_for(s, name) is None
            || s.class("java/lang/Module"@) is None || s.vm.module_mirrors.contains_key(module_name_for(s, name)->0))
            ==> mirror_asked(s, name).1 is Ok,
{
    match component_name(name) {
        Some(c) => super::mirrors::component_shrinks(name),
        None => {},
    }
}

/// What needs the mirror of the own thread, the system thread group or a text waits for the initializer of the string
/// class where that has to run first: nothing changes and the class to initialize is named.
pub proof fn law_requests_that_wait(s: State, obj: Reference, all: bool, millis: i64, i: int, class: Seq<char>, text: Seq<char>)
    ensures
        s.thread.thread_ref is None && s.class("java/lang/Thread"@) is Some && text_pending(s, "main"@) == Some(i) ==> {
            let stop = VmError::InitializerPending(i as usize);
            &&& identity(s) == (s, Err::<Reference, VmError>(stop))
            &&& obj.0 is Some ==> {
                &&& entered(s, obj) == (s, Err::<MonitorStep, VmError>(stop))
                &&& exited(s, obj) == (s, Err::<bool, VmError>(stop))
                &&& lock_held(s, obj) == (s, Err::<bool, VmError>(stop))
                &&& notified(s, obj, all) == (s, Err::<Wakeup, VmError>(stop))
                &&& millis >= 0 ==> wait_begun(s, obj, millis) == (s, Err::<WaitTicket, VmError>(stop))
                &&& terminated(s, obj) == (s, Err::<MonitorStep, VmError>(stop))
            }
            &&& event_lowered(s) == (s, Err::<(), VmError>(stop))
        },
        s.thread.thread_ref is Some || s.class("java/lang/Thread"@) is None || text_pending(s, "main"@) is None
            ==> identity(s) == (own_thread(s).0, Ok::<Reference, VmError>(own_thread(s).1)),
        s.vm.system_group is None && s.class("java/lang/ThreadGroup"@) is Some && text_pending(s, "main"@) == Some(i)
            ==> group_asked(s) == (s, Err::<Reference, VmError>(VmError::InitializerPending(i as usize))),
        text_pending(s, text) == Some(i) ==> message_thrown(s, class, text) == (
            s,
            VmError::InitializerPending(i as usize),
        ),
        text_pending(s, text) == Some(i) ==> interned(s, text) == (
            s,
            Err::<Reference, VmError>(VmError::InitializerPending(i as usize)),
        ),
        s.thread.thread_ref is Some ==> own_thread(s) == (s, s.thread.thread_ref->0),
        s.thread.thread_ref is None && s.class("java/lang/Thread"@) is None ==> own_thread(s) == (s, Reference(None)),
{
}

} // verus!
