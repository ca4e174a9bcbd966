//! Native methods of `java.lang`, `java.io`, `sun.nio.fs` and the library loader.

use std::time::{SystemTime, UNIX_EPOCH};

use rustj::metadata::class_file::{ClassFile, ConstantPool};
use rustj::metadata::class_registry::{ClassRegistry, FieldLayout, LoadedClass};
use rustj::runtime::native::java_io::{
    boolean_attributes, finish_canonicalize, hidden_by_attributes, hidden_by_name, strip_verbatim_prefix, FileStatus,
};
use rustj::runtime::native::java_lang::{
    available_processors_value, clock_value, finish_sleep, identity_hash_code, sleep_interrupted,
};
use rustj::runtime::native::jdk_internal_loader::finish_load;
use rustj::runtime::native::registry::NativeRegistry;
use rustj::runtime::native::step::NativeStep;
use rustj::runtime::native::{invoke, is_primitive_name, register_all, Native};
use rustj::runtime::oop::{InstanceOop, Oop};
use rustj::runtime::slot::{Reference, Slot};
use rustj::runtime::string::{intern, read_text};
use rustj::runtime::value::{Value, VmError};
use rustj::runtime::vm::monitors::Wakeup;
use rustj::runtime::vm::{Platform, VmThread};

fn class(name: &str, supertypes: &[&str], fields: &[(&str, &str)]) -> LoadedClass {
    LoadedClass {
        name: name.to_string(),
        super_name: supertypes.first().map(|s| s.to_string()),
        supertypes: supertypes.iter().map(|s| s.to_string()).collect(),
        module: None,
        cf: ClassFile {
            constant_pool: ConstantPool::new(Vec::new()),
            access_flags: 1,
            fields: Vec::new(),
            methods: Vec::new(),
            source_file: None,
        },
        instance_fields: fields
            .iter()
            .map(|(n, d)| FieldLayout { name: n.to_string(), descriptor: d.to_string() })
            .collect(),
        static_fields: Vec::new(),
        dispatch: Vec::new(),
    }
}

fn base_vm(more: Vec<LoadedClass>) -> VmThread {
    let mut reg = ClassRegistry::new();
    reg.load(class("java/lang/Object", &[], &[]));
    reg.load(class("java/lang/String", &["java/lang/Object"], &[("value", "[B"), ("coder", "B")]));
    reg.load(class("java/lang/Class", &["java/lang/Object"], &[("name", "Ljava/lang/String;")]));
    for c in more {
        reg.load(c);
    }
    let mut vm = VmThread::new(reg);
    vm.mark_initialized("java/lang/String");
    vm
}

fn done(step: NativeStep) -> Result<Value, VmError> {
    match step {
        NativeStep::Done(r) => r,
        other => panic!("not done: {other:?}"),
    }
}

fn assert_thrown(vm: &VmThread, err: VmError, expected: &str) -> Reference {
    let VmError::ThrownException(r) = err else {
        panic!("no exception: {err:?}");
    };
    match vm.heap().get(r) {
        Some(Oop::Instance(i)) => assert_eq!(i.class_name(), expected),
        other => panic!("no instance: {other:?}"),
    }
    r
}

fn one(_vm: &mut VmThread, _this: Option<Reference>, _args: &[Value]) -> Result<Value, VmError> {
    Ok(Value::Int(1))
}

fn two(_vm: &mut VmThread, _this: Option<Reference>, _args: &[Value]) -> Result<Value, VmError> {
    Ok(Value::Int(2))
}

type Handler = fn(&mut VmThread, Option<Reference>, &[Value]) -> Result<Value, VmError>;

#[test]
fn resolve_miss_returns_none() {
    let reg: NativeRegistry<Handler> = NativeRegistry::new();
    assert!(reg.resolve("java/lang/Foo", "bar", "()V").is_none());
}

#[test]
fn register_then_resolve_roundtrip() {
    let mut reg: NativeRegistry<Handler> = NativeRegistry::new();
    reg.register("java/lang/Object", "hashCode", "()I", one);
    let f = reg.resolve("java/lang/Object", "hashCode", "()I").expect("bound");
    let mut vm = VmThread::default();
    assert_eq!(f(&mut vm, None, &[]), Ok(Value::Int(1)));
}

#[test]
fn register_upsert_overwrites_same_key() {
    let mut reg: NativeRegistry<Handler> = NativeRegistry::new();
    reg.register("java/lang/Object", "hashCode", "()I", one);
    reg.register("java/lang/Object", "hashCode", "()I", two);
    let f = reg.resolve("java/lang/Object", "hashCode", "()I").expect("bound");
    let mut vm = VmThread::default();
    assert_eq!(f(&mut vm, None, &[]), Ok(Value::Int(2)));
}

#[test]
fn resolve_distinct_methods_in_same_class() {
    let mut reg: NativeRegistry<Handler> = NativeRegistry::new();
    reg.register("java/lang/Object", "hashCode", "()I", one);
    reg.register("java/lang/Object", "getClass", "()Ljava/lang/Class;", two);
    let mut vm = VmThread::default();
    assert_eq!(reg.resolve("java/lang/Object", "hashCode", "()I").unwrap()(&mut vm, None, &[]), Ok(Value::Int(1)));
    assert_eq!(
        reg.resolve("java/lang/Object", "getClass", "()Ljava/lang/Class;").unwrap()(&mut vm, None, &[]),
        Ok(Value::Int(2))
    );
}

#[test]
fn natives_macro_generates_register() {
    let mut reg: NativeRegistry<Handler> = NativeRegistry::new();
    reg.register("test/Sample", "one", "()I", one);
    reg.register("test/Sample", "two", "()I", two);
    let mut vm = VmThread::default();
    assert_eq!(reg.resolve("test/Sample", "one", "()I").unwrap()(&mut vm, None, &[]), Ok(Value::Int(1)));
    assert_eq!(reg.resolve("test/Sample", "two", "()I").unwrap()(&mut vm, None, &[]), Ok(Value::Int(2)));
    assert!(reg.resolve("test/Sample", "missing", "()I").is_none());
}

#[test]
fn every_group_of_natives_is_bound() {
    let mut reg: NativeRegistry<Native> = NativeRegistry::new();
    register_all(&mut reg);
    for (c, n, d) in [
        ("java/lang/Object", "hashCode", "()I"),
        ("java/lang/Thread", "start0", "()V"),
        ("java/io/WinNTFileSystem", "initIDs", "()V"),
        ("java/lang/invoke/MethodHandleNatives", "objectFieldOffset", "(Ljava/lang/invoke/MemberName;)J"),
        ("jdk/internal/misc/Unsafe", "compareAndSetInt", "(Ljava/lang/Object;JII)Z"),
        ("jdk/internal/reflect/Reflection", "getCallerClass", "()Ljava/lang/Class;"),
        ("jdk/internal/loader/BootLoader", "setBootLoaderUnnamedModule0", "(Ljava/lang/Module;)V"),
        ("sun/nio/fs/WindowsNativeDispatcher", "initIDs", "()V"),
    ] {
        assert!(reg.resolve(c, n, d).is_some(), "{c}.{n}{d}");
        assert_eq!(VmThread::default().native_resolve(c, n, d), reg.resolve(c, n, d));
    }
}

#[test]
fn register_natives_is_noop_for_any_class() {
    let mut vm = VmThread::default();
    assert_eq!(done(invoke(&mut vm, "java/lang/System", "registerNatives", "()V", None, &[])), Ok(Value::Void));
    assert_eq!(done(invoke(&mut vm, "java/lang/Object", "registerNatives", "()V", None, &[])), Ok(Value::Void));
}

#[test]
fn object_hashcode_is_handle_id_mode4() {
    let mut vm = VmThread::default();
    let this = Reference::from_id(7);
    assert_eq!(done(invoke(&mut vm, "java/lang/Object", "hashCode", "()I", Some(this), &[])), Ok(Value::Int(7)));
}

#[test]
fn system_current_time_millis_returns_wall_clock_long() {
    let mut vm = VmThread::default();
    let step = invoke(&mut vm, "java/lang/System", "currentTimeMillis", "()J", None, &[]);
    assert!(matches!(step, NativeStep::CurrentTimeMillis));
    let elapsed = SystemTime::now().duration_since(UNIX_EPOCH).ok().map(|d| d.as_millis());
    match clock_value(elapsed) {
        Value::Long(millis) => assert!(millis > 1_700_000_000_000, "{millis}"),
        other => panic!("no long: {other:?}"),
    }
    assert_eq!(clock_value(None), Value::Long(0));
    assert_eq!(clock_value(Some(42)), Value::Long(42));
}

#[test]
fn system_nano_time_returns_long() {
    let mut vm = VmThread::default();
    assert!(matches!(invoke(&mut vm, "java/lang/System", "nanoTime", "()J", None, &[]), NativeStep::NanoTime));
    assert!(matches!(clock_value(Some(1)), Value::Long(_)));
}

#[test]
fn runtime_available_processors_returns_positive() {
    let reg = ClassRegistry::new();
    let mut vm = VmThread::new(reg);
    let step = invoke(&mut vm, "java/lang/Runtime", "availableProcessors", "()I", None, &[]);
    assert!(matches!(step, NativeStep::AvailableProcessors));
    for counted in [None, Some(1), Some(16)] {
        match available_processors_value(counted) {
            Value::Int(n) => assert!(n >= 1, "{n}"),
            other => panic!("no int: {other:?}"),
        }
    }
    assert_eq!(available_processors_value(Some(16)), Value::Int(16));
}

#[test]
fn is_primitive_name_recognizes_keywords() {
    assert!(is_primitive_name("int"));
    assert!(is_primitive_name("void"));
    assert!(!is_primitive_name("java/lang/Object"));
    assert!(!is_primitive_name("String"));
}

#[test]
fn get_primitive_class_missing_arg_throws_npe() {
    let reg = ClassRegistry::new();
    let mut vm = VmThread::new(reg);
    let err = done(invoke(
        &mut vm,
        "java/lang/Class",
        "getPrimitiveClass",
        "(Ljava/lang/String;)Ljava/lang/Class;",
        None,
        &[],
    ))
    .unwrap_err();
    assert_thrown(&vm, err, "java/lang/NullPointerException");
}

fn float_bits(vm: &mut VmThread, f: f32) -> Value {
    done(invoke(vm, "java/lang/Float", "floatToRawIntBits", "(F)I", None, &[Value::Float(f.to_bits())])).unwrap()
}

#[test]
fn float_to_raw_int_bits_is_ieee754_reinterpret() {
    let mut vm = VmThread::default();
    assert_eq!(float_bits(&mut vm, 1.0), Value::Int(0x3f800000));
    assert_eq!(float_bits(&mut vm, -0.0), Value::Int(0x8000_0000u32 as i32));
    assert_eq!(float_bits(&mut vm, f32::INFINITY), Value::Int(0x7f800000));
}

#[test]
fn float_to_raw_int_bits_preserves_nan_bits() {
    let mut vm = VmThread::default();
    let nan = f32::from_bits(0x7fc0_0042);
    assert_eq!(float_bits(&mut vm, nan), Value::Int(0x7fc0_0042));
}

#[test]
fn int_bits_to_float_is_inverse_of_raw() {
    let mut vm = VmThread::default();
    let mut float_of = |bits: i32| {
        done(invoke(&mut vm, "java/lang/Float", "intBitsToFloat", "(I)F", None, &[Value::Int(bits)])).unwrap()
    };
    assert_eq!(float_of(0x3f800000), Value::Float(1.0f32.to_bits()));
    assert_eq!(float_of(0x8000_0000u32 as i32), Value::Float((-0.0f32).to_bits()));
    assert_eq!(float_of(0x7fc0_0042), Value::Float(0x7fc0_0042));
}

#[test]
fn double_to_raw_long_bits_and_inverse() {
    let mut vm = VmThread::default();
    let mut bits_of = |d: f64| {
        done(invoke(&mut vm, "java/lang/Double", "doubleToRawLongBits", "(D)J", None, &[Value::Double(d.to_bits())]))
            .unwrap()
    };
    assert_eq!(bits_of(1.0), Value::Long(0x3ff0_0000_0000_0000u64 as i64));
    assert_eq!(bits_of(-0.0), Value::Long(i64::MIN));
    let mut vm = VmThread::default();
    let mut double_of = |bits: i64| {
        done(invoke(&mut vm, "java/lang/Double", "longBitsToDouble", "(J)D", None, &[Value::Long(bits)])).unwrap()
    };
    assert_eq!(double_of(0x3ff0_0000_0000_0000u64 as i64), Value::Double(1.0f64.to_bits()));
    let nan_bits = 0x7ff8_0000_0000_0042u64 as i64;
    assert_eq!(double_of(nan_bits), Value::Double(nan_bits as u64));
}

#[test]
fn unbound_native_throws_unsatisfied_link_error() {
    let reg = ClassRegistry::new();
    let mut vm = VmThread::new(reg);
    let err = done(invoke(&mut vm, "java/lang/Foo", "bar", "()V", None, &[])).unwrap_err();
    let exc = assert_thrown(&vm, err, "java/lang/UnsatisfiedLinkError");
    assert!(vm.format_trace(exc).starts_with("java/lang/UnsatisfiedLinkError: java.lang.Foo.bar ()V"));
    assert_eq!(vm.frame_class_at(0), None);
}

#[test]
fn unbound_reference_native_throws_ule() {
    let registry = ClassRegistry::new();
    let mut vm = VmThread::new(registry);
    let err = done(invoke(&mut vm, "java/lang/ref/Reference", "unknownNative", "()V", None, &[])).unwrap_err();
    assert_thrown(&vm, err, "java/lang/UnsatisfiedLinkError");
}

#[test]
fn refers_to0_compares_referent_identity() {
    let mut vm = base_vm(vec![class(
        "java/lang/ref/Reference",
        &["java/lang/Object"],
        &[("referent", "Ljava/lang/Object;")],
    )]);
    let a = vm.alloc_fresh("java/lang/Object");
    let b = vm.alloc_fresh("java/lang/Object");
    let r = vm.alloc_fresh("java/lang/ref/Reference");
    vm.set_instance_field_by_name(r, "java/lang/ref/Reference", "referent", Slot::Reference(a));
    let mut refers = |o: Reference| {
        done(invoke(
            &mut vm,
            "java/lang/ref/Reference",
            "refersTo0",
            "(Ljava/lang/Object;)Z",
            Some(r),
            &[Value::Reference(o)],
        ))
        .unwrap()
    };
    assert_eq!(refers(a), Value::Int(1));
    assert_eq!(refers(b), Value::Int(0));
}

#[test]
fn identity_hash_code_matches_object_hashcode_and_handles_null() {
    let mut vm = base_vm(Vec::new());
    let a = vm.alloc_fresh("java/lang/Object");
    let b = vm.alloc_fresh("java/lang/Object");
    let mut hash = |r: Reference| {
        done(invoke(
            &mut vm,
            "java/lang/System",
            "identityHashCode",
            "(Ljava/lang/Object;)I",
            None,
            &[Value::Reference(r)],
        ))
        .unwrap()
    };
    assert_eq!(hash(Reference::null()), Value::Int(0));
    let ha = hash(a);
    assert_eq!(hash(a), ha);
    assert_ne!(hash(b), ha);
    assert_eq!(done(invoke(&mut vm, "java/lang/Object", "hashCode", "()I", Some(a), &[])).unwrap(), ha);
    assert_eq!(identity_hash_code(None), 0);
}

const MAP_DESC: &str = "(Ljava/lang/String;)Ljava/lang/String;";

#[test]
fn map_library_name_applies_platform_prefix_suffix() {
    for (platform, expected) in
        [(Platform::Windows, "net.dll"), (Platform::MacOs, "libnet.dylib"), (Platform::Other, "libnet.so")]
    {
        let mut vm = base_vm(Vec::new()).with_platform(platform);
        let name = intern(&mut vm, "net").unwrap();
        let r = done(invoke(&mut vm, "java/lang/System", "mapLibraryName", MAP_DESC, None, &[Value::Reference(name)]));
        let Ok(Value::Reference(out)) = r else {
            panic!("no reference: {r:?}");
        };
        assert_eq!(read_text(&vm, out), Ok(Some(expected.to_string())));
        let err = done(invoke(
            &mut vm,
            "java/lang/System",
            "mapLibraryName",
            MAP_DESC,
            None,
            &[Value::Reference(Reference::null())],
        ))
        .unwrap_err();
        assert_thrown(&vm, err, "java/lang/NullPointerException");
    }
}

#[test]
fn map_library_name_too_long_throws_iae() {
    let mut vm = base_vm(Vec::new());
    let name = intern(&mut vm, &"x".repeat(241)).unwrap();
    let err = done(invoke(&mut vm, "java/lang/System", "mapLibraryName", MAP_DESC, None, &[Value::Reference(name)]))
        .unwrap_err();
    assert_thrown(&vm, err, "java/lang/IllegalArgumentException");
    let name = intern(&mut vm, &"x".repeat(240)).unwrap();
    assert!(done(invoke(&mut vm, "java/lang/System", "mapLibraryName", MAP_DESC, None, &[Value::Reference(name)]))
        .is_ok());
}

#[test]
fn thread_current_thread_returns_stable_main_thread() {
    let mut vm = base_vm(vec![class("java/lang/Thread", &["java/lang/Object"], &[("tid", "J")])]);
    let mut current =
        || done(invoke(&mut vm, "java/lang/Thread", "currentThread", "()Ljava/lang/Thread;", None, &[])).unwrap();
    let t1 = current();
    assert_eq!(current(), t1);
    let Value::Reference(t) = t1 else {
        panic!("no reference: {t1:?}");
    };
    assert!(!t.is_null());
    match vm.heap().get(t) {
        Some(Oop::Instance(i)) => assert_eq!(i.class_name(), "java/lang/Thread"),
        other => panic!("no instance: {other:?}"),
    }
}

#[test]
fn current_thread_without_thread_class_is_an_internal_error() {
    let mut vm = base_vm(vec![]);
    let err =
        done(invoke(&mut vm, "java/lang/Thread", "currentThread", "()Ljava/lang/Thread;", None, &[])).unwrap_err();
    assert_thrown(&vm, err, "java/lang/InternalError");
}

#[test]
fn thread_holds_lock_reflects_monitor_state() {
    let mut vm = base_vm(vec![class("java/lang/Thread", &["java/lang/Object"], &[("tid", "J")])]);
    let a = vm.heap_mut().allocate(Oop::Instance(InstanceOop::new("Lock".into(), vec![])));
    let b = vm.heap_mut().allocate(Oop::Instance(InstanceOop::new("Lock".into(), vec![])));
    vm.monitor_enter(a).unwrap();
    let mut holds = |o: Reference| {
        done(invoke(&mut vm, "java/lang/Thread", "holdsLock", "(Ljava/lang/Object;)Z", None, &[Value::Reference(o)]))
    };
    assert_eq!(holds(a), Ok(Value::Int(1)));
    assert_eq!(holds(b), Ok(Value::Int(0)));
    let err = holds(Reference::null()).unwrap_err();
    assert_thrown(&vm, err, "java/lang/NullPointerException");
}

#[test]
fn yield_sleep_and_start_are_handed_out() {
    let mut vm = base_vm(vec![class("java/lang/Thread", &["java/lang/Object"], &[("eetop", "J")])]);
    assert!(matches!(invoke(&mut vm, "java/lang/Thread", "yield0", "()V", None, &[]), NativeStep::Yield));
    vm.pop_frame();
    assert_eq!(
        done(invoke(&mut vm, "java/lang/Thread", "sleepNanos0", "(J)V", None, &[Value::Long(0)])),
        Ok(Value::Void)
    );
    let main = vm.main_thread().unwrap();
    match invoke(&mut vm, "java/lang/Thread", "start0", "()V", Some(main), &[]) {
        NativeStep::Start(t) => assert_eq!(t, main),
        other => panic!("not started: {other:?}"),
    }
}

#[test]
fn sleep_polls_the_interrupt() {
    let mut vm = base_vm(vec![class("java/lang/Thread", &["java/lang/Object"], &[("interrupted", "Z")])]);
    match invoke(&mut vm, "java/lang/Thread", "sleepNanos0", "(J)V", None, &[Value::Long(5_000)]) {
        NativeStep::Sleep(n) => assert_eq!(n, 5_000),
        other => panic!("no sleep: {other:?}"),
    }
    assert!(!sleep_interrupted(&mut vm).unwrap());
    assert_eq!(finish_sleep(&mut vm), Ok(Value::Void));
    let me = vm.main_thread().unwrap();
    assert_eq!(done(invoke(&mut vm, "java/lang/Thread", "interrupt0", "()V", Some(me), &[])), Ok(Value::Void));
    assert!(sleep_interrupted(&mut vm).unwrap());
    let err = finish_sleep(&mut vm).unwrap_err();
    assert_thrown(&vm, err, "java/lang/InterruptedException");
    assert!(!sleep_interrupted(&mut vm).unwrap());
}

#[test]
fn wait_and_notify_are_handed_out() {
    let mut vm = base_vm(Vec::new());
    let lock = vm.alloc_fresh("java/lang/Object");
    let err = done(invoke(&mut vm, "java/lang/Object", "notify", "()V", Some(lock), &[])).unwrap_err();
    assert_thrown(&vm, err, "java/lang/IllegalMonitorStateException");
    vm.monitor_enter(lock).unwrap();
    match invoke(&mut vm, "java/lang/Object", "notifyAll", "()V", Some(lock), &[]) {
        NativeStep::Wake(o, w) => assert_eq!((o, w), (lock, Wakeup::Nobody)),
        other => panic!("no wakeup: {other:?}"),
    }
    vm.pop_frame();
    match invoke(&mut vm, "java/lang/Object", "wait0", "(J)V", Some(lock), &[Value::Long(30)]) {
        NativeStep::Wait(t) => assert_eq!((t.object, t.millis), (lock, 30)),
        other => panic!("no wait: {other:?}"),
    }
}

#[test]
fn class_mirrors_are_canonical() {
    let mut vm = base_vm(vec![class("Cm", &["java/lang/Object"], &[])]);
    let a = vm.intern_class_mirror("Cm").unwrap();
    let b = vm.intern_class_mirror("Cm").unwrap();
    assert_eq!(a, b);
    let cm = vm.alloc_fresh("Cm");
    assert_eq!(
        done(invoke(&mut vm, "java/lang/Object", "getClass", "()Ljava/lang/Class;", Some(cm), &[])),
        Ok(Value::Reference(a))
    );
    assert_ne!(vm.intern_class_mirror("java/lang/Object").unwrap(), a);
}

#[test]
fn find_loaded_class0_supports_loadclass_already_loaded() {
    let mut vm = base_vm(Vec::new());
    let mirror = vm.intern_class_mirror("java/lang/String").unwrap();
    let name = intern(&mut vm, "java.lang.String").unwrap();
    let missing = intern(&mut vm, "no.such.Class").unwrap();
    let mut find = |n: Reference| {
        done(invoke(
            &mut vm,
            "java/lang/ClassLoader",
            "findLoadedClass0",
            "(Ljava/lang/String;)Ljava/lang/Class;",
            None,
            &[Value::Reference(n)],
        ))
    };
    assert_eq!(find(name), Ok(Value::Reference(mirror)));
    assert_eq!(find(missing), Ok(Value::Reference(Reference::null())));
}

const FOR_NAME: &str = "(Ljava/lang/String;ZLjava/lang/ClassLoader;Ljava/lang/Class;)Ljava/lang/Class;";

#[test]
fn for_name_finds_initializes_or_throws() {
    let mut vm = base_vm(vec![class("a/B", &["java/lang/Object"], &[])]);
    let name = intern(&mut vm, "a.B").unwrap();
    let missing = intern(&mut vm, "a.C").unwrap();
    let null = Value::Reference(Reference::null());
    let mirror = vm.intern_class_mirror("a/B").unwrap();
    let mut ask = |n: Reference, init: i32| {
        done(invoke(
            &mut vm,
            "java/lang/Class",
            "forName0",
            FOR_NAME,
            None,
            &[Value::Reference(n), Value::Int(init), null, null],
        ))
    };
    assert_eq!(ask(name, 0), Ok(Value::Reference(mirror)));
    assert_eq!(ask(name, 1), Err(VmError::InitializerPending(3)));
    let err = ask(missing, 0).unwrap_err();
    assert_thrown(&vm, err, "java/lang/ClassNotFoundException");
}

#[test]
fn primitive_classes_by_name() {
    let mut vm = base_vm(Vec::new());
    let int = intern(&mut vm, "int").unwrap();
    let other = intern(&mut vm, "Integer").unwrap();
    let mirror = vm.intern_class_mirror("int").unwrap();
    let desc = "(Ljava/lang/String;)Ljava/lang/Class;";
    assert_eq!(
        done(invoke(&mut vm, "java/lang/Class", "getPrimitiveClass", desc, None, &[Value::Reference(int)])),
        Ok(Value::Reference(mirror))
    );
    let err = done(invoke(&mut vm, "java/lang/Class", "getPrimitiveClass", desc, None, &[Value::Reference(other)]))
        .unwrap_err();
    assert_thrown(&vm, err, "java/lang/ClassNotFoundException");
}

#[test]
fn class_relations() {
    let mut vm =
        base_vm(vec![class("Square", &["Shape", "java/lang/Object"], &[]), class("Shape", &["java/lang/Object"], &[])]);
    let square = vm.intern_class_mirror("Square").unwrap();
    let shape = vm.intern_class_mirror("Shape").unwrap();
    let array = vm.intern_class_mirror("[I").unwrap();
    let object = vm.intern_class_mirror("java/lang/Object").unwrap();
    let o = vm.alloc_fresh("Square");
    let v = |r: Reference| [Value::Reference(r)];
    let c = "java/lang/Class";
    assert_eq!(
        done(invoke(&mut vm, c, "isInstance", "(Ljava/lang/Object;)Z", Some(shape), &v(o))),
        Ok(Value::Int(1))
    );
    assert_eq!(
        done(invoke(&mut vm, c, "isInstance", "(Ljava/lang/Object;)Z", Some(shape), &v(Reference::null()))),
        Ok(Value::Int(0))
    );
    assert_eq!(
        done(invoke(&mut vm, c, "isAssignableFrom", "(Ljava/lang/Class;)Z", Some(shape), &v(square))),
        Ok(Value::Int(1))
    );
    assert_eq!(
        done(invoke(&mut vm, c, "isAssignableFrom", "(Ljava/lang/Class;)Z", Some(square), &v(shape))),
        Ok(Value::Int(0))
    );
    let mut superclass =
        |m: Reference| done(invoke(&mut vm, c, "getSuperclass", "()Ljava/lang/Class;", Some(m), &[])).unwrap();
    assert_eq!(superclass(square), Value::Reference(shape));
    assert_eq!(superclass(array), Value::Reference(object));
    assert_eq!(superclass(object), Value::Reference(Reference::null()));
}

#[test]
fn class_names_are_interned_with_dots() {
    let mut vm = base_vm(Vec::new());
    let m = vm.intern_class_mirror("java/lang/Object").unwrap();
    let r = done(invoke(&mut vm, "java/lang/Class", "initClassName", "()Ljava/lang/String;", Some(m), &[]));
    let Ok(Value::Reference(name)) = r else {
        panic!("no name: {r:?}");
    };
    assert_eq!(read_text(&vm, name), Ok(Some("java.lang.Object".to_string())));
    assert_eq!(vm.instance_reference_field(m, "java/lang/Class", "name"), Some(name));
    let again = rustj::runtime::string::build(&mut vm, "java.lang.Object").unwrap();
    assert_eq!(
        done(invoke(&mut vm, "java/lang/String", "intern", "()Ljava/lang/String;", Some(again), &[])),
        Ok(Value::Reference(name))
    );
}

#[test]
fn arraycopy_is_handed_out() {
    let mut vm = base_vm(Vec::new());
    let a = Value::Reference(Reference::from_id(1));
    let b = Value::Reference(Reference::from_id(2));
    let desc = "(Ljava/lang/Object;ILjava/lang/Object;II)V";
    match invoke(&mut vm, "java/lang/System", "arraycopy", desc, None, &[a, Value::Int(1), b, Value::Int(2), Value::Int(3)])
    {
        NativeStep::ArrayCopy(src, sp, dst, dp, n) => {
            assert_eq!((src.id(), sp, dst.id(), dp, n), (Some(1), 1, Some(2), 2, 3))
        }
        other => panic!("no copy: {other:?}"),
    }
    vm.pop_frame();
    assert_eq!(
        done(invoke(&mut vm, "java/lang/System", "arraycopy", desc, None, &[a])),
        Err(VmError::BadConstant("arraycopy 实参缺失/类型不符"))
    );
}

#[test]
fn stack_trace_is_filled_in() {
    let mut vm = base_vm(vec![class(
        "java/lang/Throwable",
        &["java/lang/Object"],
        &[("backtrace", "Ljava/lang/Object;"), ("depth", "I")],
    )]);
    vm.push_frame("Main", "main");
    let t = vm.alloc_fresh("java/lang/Throwable");
    let r = done(invoke(
        &mut vm,
        "java/lang/Throwable",
        "fillInStackTrace",
        "(I)Ljava/lang/Throwable;",
        Some(t),
        &[Value::Int(0)],
    ));
    assert_eq!(r, Ok(Value::Reference(t)));
    assert_eq!(vm.instance_int_field(t, "java/lang/Throwable", "depth"), Some(2));
}

#[test]
fn init_ids_returns_void() {
    let mut vm = VmThread::new(ClassRegistry::new());
    assert_eq!(done(invoke(&mut vm, "java/io/WinNTFileSystem", "initIDs", "()V", None, &[])), Ok(Value::Void));
}

#[test]
fn file_descriptor_init_ids_returns_void() {
    let mut vm = VmThread::new(ClassRegistry::new());
    assert_eq!(done(invoke(&mut vm, "java/io/FileDescriptor", "initIDs", "()V", None, &[])), Ok(Value::Void));
}

#[test]
fn file_descriptor_get_handle_and_get_append_return_placeholders() {
    let mut vm = VmThread::new(ClassRegistry::new());
    for fd in [0i32, 1, 2] {
        assert_eq!(
            done(invoke(&mut vm, "java/io/FileDescriptor", "getHandle", "(I)J", None, &[Value::Int(fd)])),
            Ok(Value::Long(fd as i64))
        );
    }
    for fd in [0i32, 1, 2] {
        assert_eq!(
            done(invoke(&mut vm, "java/io/FileDescriptor", "getAppend", "(I)Z", None, &[Value::Int(fd)])),
            Ok(Value::Int(0))
        );
    }
}

#[test]
fn strip_verbatim_prefix_handles_windows_forms() {
    assert_eq!(strip_verbatim_prefix(r"\\?\C:\foo\bar"), r"C:\foo\bar");
    assert_eq!(strip_verbatim_prefix(r"\\?\UNC\server\share\dir"), r"\\server\share\dir");
    assert_eq!(strip_verbatim_prefix(r"C:\foo"), r"C:\foo");
    assert_eq!(strip_verbatim_prefix("/usr/local/bin"), "/usr/local/bin");
}

#[test]
fn unbound_java_io_native_throws_ule() {
    let mut vm = VmThread::new(ClassRegistry::new());
    let err = done(invoke(&mut vm, "java/io/WinNTFileSystem", "unknownNative", "()V", None, &[])).unwrap_err();
    assert_thrown(&vm, err, "java/lang/UnsatisfiedLinkError");
}

const CANON_DESC: &str = "(Ljava/lang/String;)Ljava/lang/String;";

#[test]
fn paths_are_resolved_outside() {
    let mut vm = base_vm(Vec::new());
    let empty = intern(&mut vm, "").unwrap();
    match invoke(&mut vm, "java/io/WinNTFileSystem", "canonicalize0", CANON_DESC, None, &[Value::Reference(empty)]) {
        NativeStep::Canonicalize(p) => assert_eq!(p, "."),
        other => panic!("no path: {other:?}"),
    }
    let r = finish_canonicalize(&mut vm, Some(r"\\?\C:\work"));
    let Ok(Value::Reference(path)) = r else {
        panic!("no path: {r:?}");
    };
    assert_eq!(read_text(&vm, path), Ok(Some(r"C:\work".to_string())));
    vm.pop_frame();
    let err = finish_canonicalize(&mut vm, None).unwrap_err();
    assert_thrown(&vm, err, "java/io/IOException");
    let err = done(invoke(
        &mut vm,
        "java/io/WinNTFileSystem",
        "canonicalize0",
        CANON_DESC,
        None,
        &[Value::Reference(Reference::null())],
    ))
    .unwrap_err();
    assert_thrown(&vm, err, "java/lang/NullPointerException");
}

const ATTR_DESC: &str = "(Ljava/io/File;)I";

#[test]
fn file_attributes_are_looked_up_outside() {
    let mut vm = base_vm(vec![class("java/io/File", &["java/lang/Object"], &[("path", "Ljava/lang/String;")])]);
    let file = vm.alloc_fresh("java/io/File");
    let ask = |vm: &mut VmThread, r: Reference| {
        invoke(vm, "java/io/WinNTFileSystem", "getBooleanAttributes0", ATTR_DESC, None, &[Value::Reference(r)])
    };
    assert_eq!(done(ask(&mut vm, Reference::null())), Ok(Value::Int(0)));
    assert_eq!(done(ask(&mut vm, file)), Ok(Value::Int(0)));
    let path = intern(&mut vm, "/tmp/x").unwrap();
    vm.set_instance_field_by_name(file, "java/io/File", "path", Slot::Reference(path));
    match ask(&mut vm, file) {
        NativeStep::FileAttributes(p) => assert_eq!(p, "/tmp/x"),
        other => panic!("no path: {other:?}"),
    }
    assert_eq!(boolean_attributes(None), Value::Int(0));
    assert_eq!(boolean_attributes(Some(FileStatus { directory: true, hidden: false })), Value::Int(0x05));
    assert_eq!(boolean_attributes(Some(FileStatus { directory: false, hidden: false })), Value::Int(0x03));
    assert_eq!(boolean_attributes(Some(FileStatus { directory: false, hidden: true })), Value::Int(0x0B));
}

#[test]
fn hidden_files() {
    assert!(hidden_by_name(Some(".profile")));
    assert!(!hidden_by_name(Some("profile.")));
    assert!(!hidden_by_name(None));
    assert!(hidden_by_attributes(0x22));
    assert!(!hidden_by_attributes(0x20));
}

#[test]
fn windows_native_dispatcher_init_ids_returns_void() {
    let mut vm = VmThread::new(ClassRegistry::new());
    assert_eq!(
        done(invoke(&mut vm, "sun/nio/fs/WindowsNativeDispatcher", "initIDs", "()V", None, &[])),
        Ok(Value::Void)
    );
}

#[test]
fn bootloader_set_unnamed_module_returns_void() {
    let mut vm = VmThread::new(ClassRegistry::new());
    assert_eq!(
        done(invoke(
            &mut vm,
            "jdk/internal/loader/BootLoader",
            "setBootLoaderUnnamedModule0",
            "(Ljava/lang/Module;)V",
            None,
            &[Value::Reference(Reference::null())],
        )),
        Ok(Value::Void)
    );
}

const LOAD_DESC: &str = "(Ljdk/internal/loader/NativeLibraries$NativeLibraryImpl;Ljava/lang/String;ZZ)Z";

#[test]
fn libraries_are_loaded_outside() {
    let impl_class = "jdk/internal/loader/NativeLibraries$NativeLibraryImpl";
    let mut vm = base_vm(vec![class(impl_class, &["java/lang/Object"], &[("handle", "J"), ("jniVersion", "I")])]);
    let library = vm.alloc_fresh(impl_class);
    let name = intern(&mut vm, "kernel32.dll").unwrap();
    let step = invoke(
        &mut vm,
        "jdk/internal/loader/NativeLibraries",
        "load",
        LOAD_DESC,
        None,
        &[Value::Reference(library), Value::Reference(name), Value::Int(0), Value::Int(1)],
    );
    match step {
        NativeStep::LoadLibrary(q) => {
            assert_eq!(q.instance, library);
            assert_eq!(q.path.as_deref(), Some("kernel32.dll"));
            assert!(q.must_succeed);
        }
        other => panic!("no library: {other:?}"),
    }
    assert_eq!(finish_load(&mut vm, library, true, 77), Ok(Value::Int(1)));
    vm.pop_frame();
    match vm.heap().get(library) {
        Some(Oop::Instance(i)) => {
            assert_eq!(i.field(0), Slot::Long(77));
            assert_eq!(i.field(1), Slot::Int(0x0001_0001));
        }
        other => panic!("no instance: {other:?}"),
    }
    let symbol = intern(&mut vm, "GetLastError").unwrap();
    match invoke(
        &mut vm,
        "jdk/internal/loader/NativeLibrary",
        "findEntry0",
        "(JLjava/lang/String;)J",
        None,
        &[Value::Long(77), Value::Reference(symbol)],
    ) {
        NativeStep::FindSymbol(h, n) => assert_eq!((h, n.as_str()), (77, "GetLastError")),
        other => panic!("no symbol: {other:?}"),
    }
    vm.pop_frame();
    let err = finish_load(&mut vm, library, true, 0).unwrap_err();
    assert_thrown(&vm, err, "java/lang/UnsatisfiedLinkError");
    assert_eq!(finish_load(&mut vm, library, false, 0), Ok(Value::Int(0)));
}
