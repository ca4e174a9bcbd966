//! Reflection, `Unsafe`, method handles and declared members.

use rustj::metadata::class_file::{ClassFile, Code, ConstantPool, ConstantPoolEntry, FieldInfo, MethodInfo};
use rustj::metadata::class_registry::{ClassRegistry, DispatchEntry, FieldLayout, LoadedClass};
use rustj::metadata::descriptor::{FieldType, ReturnDescriptor};
use rustj::runtime::invocation::Invocation;
use rustj::runtime::local_vars::LocalVars;
use rustj::runtime::native::invoke;
use rustj::runtime::native::java_lang_members::{field_type_internal, field_type_to_class_name};
use rustj::runtime::native::jdk_internal::{array_index_from_offset, array_scale, byte_index};
use rustj::runtime::native::jdk_internal_reflect::{
    alloc_wrapper, box_return, finish_construct, finish_invoke, primitive_wrapper, set_local_slot, unbox_arg,
};
use rustj::runtime::native::step::NativeStep;
use rustj::runtime::oop::{ArrayOop, Oop};
use rustj::runtime::slot::{Reference, Slot};
use rustj::runtime::string::{intern, read_text};
use rustj::runtime::value::{Value, VmError};
use rustj::runtime::vm::VmThread;

struct Build {
    class: LoadedClass,
    texts: Vec<ConstantPoolEntry>,
}

fn build(name: &str, supertypes: &[&str]) -> Build {
    Build {
        class: LoadedClass {
            name: name.to_string(),
            super_name: supertypes.first().map(|s| s.to_string()),
            supertypes: supertypes.iter().map(|s| s.to_string()).collect(),
            module: None,
            cf: ClassFile {
                constant_pool: ConstantPool::new(Vec::new()),
                access_flags: 0x31,
                fields: Vec::new(),
                methods: Vec::new(),
                source_file: None,
            },
            instance_fields: Vec::new(),
            static_fields: Vec::new(),
            dispatch: Vec::new(),
        },
        texts: Vec::new(),
    }
}

impl Build {
    fn text(&mut self, t: &str) -> u16 {
        self.texts.push(ConstantPoolEntry::Utf8(t.to_string()));
        self.texts.len() as u16
    }

    fn field(mut self, name: &str, descriptor: &str, access_flags: u16) -> Build {
        let (name_index, descriptor_index) = (self.text(name), self.text(descriptor));
        self.class.cf.fields.push(FieldInfo { access_flags, name_index, descriptor_index });
        if access_flags & 8 == 0 {
            self.class
                .instance_fields
                .push(FieldLayout { name: name.to_string(), descriptor: descriptor.to_string() });
        } else {
            self.class.static_fields.push(name.to_string());
        }
        self
    }

    fn method(mut self, name: &str, descriptor: &str, access_flags: u16, max_locals: u16) -> Build {
        let (name_index, descriptor_index) = (self.text(name), self.text(descriptor));
        let code = Some(Code { max_stack: 4, max_locals, code: vec![0xB1], line_number_table: Vec::new() });
        self.class.cf.methods.push(MethodInfo { access_flags, name_index, descriptor_index, code });
        self
    }

    fn runs(mut self, name: &str, descriptor: &str, class: usize, index: usize) -> Build {
        self.class.dispatch.push(DispatchEntry {
            name: name.to_string(),
            descriptor: descriptor.to_string(),
            class,
            index,
        });
        self
    }

    fn done(mut self) -> LoadedClass {
        self.class.cf.constant_pool = ConstantPool::new(self.texts);
        self.class
    }
}

/// 0 Object, 1 String, 2 Class, 3 Integer, then Long and the reflection classes.
fn reflection_vm() -> VmThread {
    let mut reg = ClassRegistry::new();
    let object = ["java/lang/Object"];
    reg.load(build("java/lang/Object", &[]).done());
    reg.load(
        build("java/lang/String", &object)
            .field("value", "[B", 2)
            .field("coder", "B", 2)
            .method("length", "()I", 1, 1)
            .runs("length", "()I", 1, 0)
            .done(),
    );
    reg.load(build("java/lang/Class", &object).field("name", "Ljava/lang/String;", 2).done());
    reg.load(
        build("java/lang/Integer", &object)
            .field("MAX_VALUE", "I", 9)
            .field("value", "I", 2)
            .method("parseInt", "(Ljava/lang/String;I)I", 9, 2)
            .method("parseInt", "(Ljava/lang/String;)I", 9, 1)
            .method("<init>", "(I)V", 1, 2)
            .method("hidden", "()V", 2, 1)
            .done(),
    );
    reg.load(build("java/lang/Long", &object).field("value", "J", 2).done());
    reg.load(
        build("java/lang/reflect/Field", &object)
            .field("clazz", "Ljava/lang/Class;", 2)
            .field("slot", "I", 2)
            .field("name", "Ljava/lang/String;", 2)
            .field("type", "Ljava/lang/Class;", 2)
            .field("modifiers", "I", 2)
            .done(),
    );
    reg.load(
        build("java/lang/reflect/Method", &object)
            .field("clazz", "Ljava/lang/Class;", 2)
            .field("slot", "I", 2)
            .field("name", "Ljava/lang/String;", 2)
            .field("returnType", "Ljava/lang/Class;", 2)
            .field("parameterTypes", "[Ljava/lang/Class;", 2)
            .field("exceptionTypes", "[Ljava/lang/Class;", 2)
            .field("modifiers", "I", 2)
            .done(),
    );
    reg.load(
        build("java/lang/reflect/Constructor", &object)
            .field("clazz", "Ljava/lang/Class;", 2)
            .field("slot", "I", 2)
            .field("parameterTypes", "[Ljava/lang/Class;", 2)
            .field("exceptionTypes", "[Ljava/lang/Class;", 2)
            .field("modifiers", "I", 2)
            .done(),
    );
    reg.load(
        build("java/lang/reflect/InvocationTargetException", &object)
            .field("target", "Ljava/lang/Throwable;", 2)
            .done(),
    );
    reg.load(
        build("java/lang/invoke/MemberName", &object)
            .field("clazz", "Ljava/lang/Class;", 2)
            .field("name", "Ljava/lang/String;", 2)
            .field("flags", "I", 2)
            .done(),
    );
    let mut vm = VmThread::new(reg);
    vm.mark_initialized("java/lang/String");
    vm
}

fn done(step: NativeStep) -> Result<Value, VmError> {
    match step {
        NativeStep::Done(r) => r,
        other => panic!("not done: {other:?}"),
    }
}

fn assert_thrown(vm: &VmThread, err: VmError, expected: &str) -> Reference {
    let VmError::ThrownException(r) = err else {
        panic!("no exception: {err:?}");
    };
    match vm.heap().get(r) {
        Some(Oop::Instance(i)) => assert_eq!(i.class_name(), expected),
        other => panic!("no instance: {other:?}"),
    }
    r
}

fn reference(v: Result<Value, VmError>) -> Reference {
    match v {
        Ok(Value::Reference(r)) => r,
        other => panic!("no reference: {other:?}"),
    }
}

fn elements(vm: &VmThread, arr: Reference) -> Vec<Reference> {
    match vm.heap().get(arr) {
        Some(Oop::Array(a)) => (0..a.length())
            .map(|i| match a.element(i) {
                Slot::Reference(r) => r,
                other => panic!("no reference: {other:?}"),
            })
            .collect(),
        other => panic!("no array: {other:?}"),
    }
}

fn object_array(vm: &mut VmThread, elems: Vec<Reference>) -> Reference {
    let slots: Vec<Slot> = elems.into_iter().map(Slot::Reference).collect();
    vm.heap_mut().allocate(Oop::Array(ArrayOop::new("[Ljava/lang/Object;".to_string(), slots)))
}

fn executable(vm: &mut VmThread, class: &str, clazz: Reference, slot: i32, modifiers: i32) -> Reference {
    let x = vm.alloc_fresh(class);
    vm.set_instance_field_by_name(x, class, "clazz", Slot::Reference(clazz));
    vm.set_instance_field_by_name(x, class, "slot", Slot::Int(slot));
    vm.set_instance_field_by_name(x, class, "modifiers", Slot::Int(modifiers));
    x
}

const METHOD: &str = "java/lang/reflect/Method";
const CONSTRUCTOR: &str = "java/lang/reflect/Constructor";
const NATIVE_ACCESSOR: &str = "jdk/internal/reflect/DirectMethodHandleAccessor$NativeAccessor";
const CTOR_NATIVE_ACCESSOR: &str = "jdk/internal/reflect/DirectConstructorHandleAccessor$NativeAccessor";
const INVOKE0_DESC: &str =
    "(Ljava/lang/reflect/Method;Ljava/lang/Object;[Ljava/lang/Object;)Ljava/lang/Object;";
const NEWINSTANCE0_DESC: &str = "(Ljava/lang/reflect/Constructor;[Ljava/lang/Object;)Ljava/lang/Object;";

fn call(step: NativeStep) -> (Invocation, ReturnDescriptor) {
    match step {
        NativeStep::Invoke(i, t) => (i, t),
        other => panic!("no call: {other:?}"),
    }
}

fn invoke0(vm: &mut VmThread, method: Reference, receiver: Reference, args: Reference) -> NativeStep {
    let args = [Value::Reference(method), Value::Reference(receiver), Value::Reference(args)];
    invoke(vm, NATIVE_ACCESSOR, "invoke0", INVOKE0_DESC, None, &args)
}

#[test]
fn invoke0_static_parseint_returns_42() {
    let mut vm = reflection_vm();
    let clazz = vm.intern_class_mirror("java/lang/Integer").unwrap();
    let method = executable(&mut vm, METHOD, clazz, 1, 9);
    let s42 = intern(&mut vm, "42").unwrap();
    let args = object_array(&mut vm, vec![s42]);
    let (i, result) = call(invoke0(&mut vm, method, Reference::null(), args));
    assert_eq!((i.class, i.method), (3, 1));
    let text = read_text(&vm, i.frame.locals.get_reference(0).unwrap()).unwrap().unwrap();
    let returned = Value::Int(text.parse().unwrap());
    let boxed = reference(finish_invoke(&mut vm, &result, Ok(returned)));
    assert_eq!(vm.instance_int_field(boxed, "java/lang/Integer", "value"), Some(42));
}

#[test]
fn invoke0_instance_string_length_returns_5() {
    let mut vm = reflection_vm();
    let clazz = vm.intern_class_mirror("java/lang/String").unwrap();
    let method = executable(&mut vm, METHOD, clazz, 0, 1);
    let receiver = intern(&mut vm, "hello").unwrap();
    let args = object_array(&mut vm, vec![]);
    let (i, result) = call(invoke0(&mut vm, method, receiver, args));
    assert_eq!((i.class, i.method), (1, 0));
    let text = read_text(&vm, i.frame.locals.get_reference(0).unwrap()).unwrap().unwrap();
    let boxed = reference(finish_invoke(&mut vm, &result, Ok(Value::Int(text.len() as i32))));
    assert_eq!(vm.instance_int_field(boxed, "java/lang/Integer", "value"), Some(5));
}

#[test]
fn invoke0_overload_unbox_returns_255() {
    let mut vm = reflection_vm();
    let clazz = vm.intern_class_mirror("java/lang/Integer").unwrap();
    let method = executable(&mut vm, METHOD, clazz, 0, 9);
    let s_ff = intern(&mut vm, "ff").unwrap();
    let radix16 = alloc_wrapper(&mut vm, "java/lang/Integer", Slot::Int(16)).unwrap();
    let args = object_array(&mut vm, vec![s_ff, radix16]);
    let (i, result) = call(invoke0(&mut vm, method, Reference::null(), args));
    assert_eq!((i.class, i.method), (3, 0));
    let text = read_text(&vm, i.frame.locals.get_reference(0).unwrap()).unwrap().unwrap();
    let radix = i.frame.locals.get_int(1).unwrap();
    let returned = Value::Int(i32::from_str_radix(&text, radix as u32).unwrap());
    let boxed = reference(finish_invoke(&mut vm, &result, Ok(returned)));
    assert_eq!(vm.instance_int_field(boxed, "java/lang/Integer", "value"), Some(255));
}

#[test]
fn invoke0_wraps_target_exception_in_ite() {
    let mut vm = reflection_vm();
    let clazz = vm.intern_class_mirror("java/lang/Integer").unwrap();
    let method = executable(&mut vm, METHOD, clazz, 1, 9);
    let s_bad = intern(&mut vm, "xyz").unwrap();
    let args = object_array(&mut vm, vec![s_bad]);
    let (_, result) = call(invoke0(&mut vm, method, Reference::null(), args));
    let nfe = vm.throw_exception("java/lang/NumberFormatException");
    let err = finish_invoke(&mut vm, &result, Err(nfe)).unwrap_err();
    let ite = assert_thrown(&vm, err, "java/lang/reflect/InvocationTargetException");
    let target =
        vm.instance_reference_field(ite, "java/lang/reflect/InvocationTargetException", "target").unwrap();
    assert_thrown(&vm, VmError::ThrownException(target), "java/lang/NumberFormatException");
}

#[test]
fn new_instance0_runs_init_sets_value() {
    let mut vm = reflection_vm();
    let clazz = vm.intern_class_mirror("java/lang/Integer").unwrap();
    vm.mark_initialized("java/lang/Integer");
    let ctor = executable(&mut vm, CONSTRUCTOR, clazz, 2, 1);
    let arg7 = alloc_wrapper(&mut vm, "java/lang/Integer", Slot::Int(7)).unwrap();
    let args = object_array(&mut vm, vec![arg7]);
    let step = invoke(
        &mut vm,
        CTOR_NATIVE_ACCESSOR,
        "newInstance0",
        NEWINSTANCE0_DESC,
        None,
        &[Value::Reference(ctor), Value::Reference(args)],
    );
    let (i, instance) = match step {
        NativeStep::Construct(i, r) => (i, r),
        other => panic!("no construction: {other:?}"),
    };
    assert_eq!((i.class, i.method), (3, 2));
    assert_eq!(i.frame.locals.get_reference(0), Ok(instance));
    let v = i.frame.locals.get_int(1).unwrap();
    vm.set_instance_field_by_name(instance, "java/lang/Integer", "value", Slot::Int(v));
    let made = reference(finish_construct(&mut vm, instance, Ok(Value::Void)));
    assert_eq!(vm.instance_int_field(made, "java/lang/Integer", "value"), Some(7));
}

#[test]
fn reflective_calls_refuse_bad_arguments() {
    let mut vm = reflection_vm();
    let clazz = vm.intern_class_mirror("java/lang/Integer").unwrap();
    let method = executable(&mut vm, METHOD, clazz, 0, 9);
    let none = object_array(&mut vm, vec![]);
    let err = done(invoke0(&mut vm, Reference::null(), Reference::null(), none)).unwrap_err();
    assert_thrown(&vm, err, "java/lang/NullPointerException");
    let err = done(invoke0(&mut vm, method, Reference::null(), none)).unwrap_err();
    assert_thrown(&vm, err, "java/lang/IllegalArgumentException");
    let nulls = object_array(&mut vm, vec![Reference::null(), Reference::null()]);
    let err = done(invoke0(&mut vm, method, Reference::null(), nulls)).unwrap_err();
    assert_thrown(&vm, err, "java/lang/NullPointerException");
    let strings = vm.intern_class_mirror("java/lang/String").unwrap();
    let length = executable(&mut vm, METHOD, strings, 0, 1);
    let err = done(invoke0(&mut vm, length, Reference::null(), none)).unwrap_err();
    assert_thrown(&vm, err, "java/lang/NullPointerException");
    let object = vm.alloc_fresh("java/lang/Object");
    let err = done(invoke0(&mut vm, length, object, none)).unwrap_err();
    assert_thrown(&vm, err, "java/lang/AbstractMethodError");
    let past = executable(&mut vm, METHOD, clazz, 99, 9);
    assert_eq!(
        done(invoke0(&mut vm, past, Reference::null(), none)),
        Err(VmError::BadConstant("invoke0:slot 越界"))
    );
}

#[test]
fn boxing_and_unboxing_are_inverse() {
    let mut vm = reflection_vm();
    for (t, slot, v) in [
        (FieldType::Int, Slot::Int(-3), Value::Int(-3)),
        (FieldType::Long, Slot::Long(1 << 40), Value::Long(1 << 40)),
    ] {
        let wrapper = primitive_wrapper(&t).unwrap();
        let r = alloc_wrapper(&mut vm, wrapper, slot).unwrap();
        assert_eq!(unbox_arg(&mut vm, r, &t), Ok(slot));
        let b = box_return(&mut vm, &ReturnDescriptor::FieldType(t), v).unwrap();
        match vm.heap().get(b) {
            Some(Oop::Instance(i)) => assert_eq!(i.class_name(), wrapper),
            other => panic!("no wrapper: {other:?}"),
        }
    }
    assert_eq!(primitive_wrapper(&FieldType::Class("x".into())), None);
    assert_eq!(box_return(&mut vm, &ReturnDescriptor::Void, Value::Void), Ok(Reference::null()));
    assert_eq!(
        box_return(&mut vm, &ReturnDescriptor::FieldType(FieldType::Int), Value::Long(1)),
        Err(VmError::BadConstant("原语返回值类型不符"))
    );
    assert_eq!(
        alloc_wrapper(&mut vm, "java/lang/Short", Slot::Int(1)),
        Err(VmError::BadConstant("包装类未加载"))
    );
}

#[test]
fn local_slots_advance_by_their_width() {
    let mut locals = LocalVars::new(4);
    assert_eq!(set_local_slot(&mut locals, 0, Slot::Int(1)), Ok(1));
    assert_eq!(set_local_slot(&mut locals, 1, Slot::Long(2)), Ok(3));
    assert_eq!(set_local_slot(&mut locals, 3, Slot::Double(0)), Err(VmError::BadConstant("locals 写 Double 失败")));
    assert_eq!(set_local_slot(&mut locals, 3, Slot::Top), Ok(4));
}

const GET_CALLER: (&str, &str, &str) = ("jdk/internal/reflect/Reflection", "getCallerClass", "()Ljava/lang/Class;");

#[test]
fn get_caller_class_returns_caller_of_caller() {
    let mut vm = reflection_vm();
    vm.push_frame("java/lang/Object", "testCaller");
    vm.push_frame("java/lang/String", "run");
    let r = done(invoke(&mut vm, GET_CALLER.0, GET_CALLER.1, GET_CALLER.2, None, &[]));
    let mirror = reference(r);
    assert!(!mirror.is_null());
    assert_eq!(vm.mirror_internal_name(mirror).as_deref(), Some("java/lang/Object"));
}

#[test]
fn get_caller_class_insufficient_depth_returns_null() {
    let mut vm = reflection_vm();
    vm.push_frame("java/lang/String", "run");
    let r = done(invoke(&mut vm, GET_CALLER.0, GET_CALLER.1, GET_CALLER.2, None, &[]));
    assert!(reference(r).is_null());
}

fn access_flags(vm: &mut VmThread, mirror: Reference) -> Result<Value, VmError> {
    done(invoke(
        vm,
        "jdk/internal/reflect/Reflection",
        "getClassAccessFlags",
        "(Ljava/lang/Class;)I",
        None,
        &[Value::Reference(mirror)],
    ))
}

#[test]
fn get_class_access_flags_regular_class() {
    let mut vm = reflection_vm();
    let mirror = vm.intern_class_mirror("java/lang/Integer").unwrap();
    assert_eq!(access_flags(&mut vm, mirror), Ok(Value::Int(0x31)));
}

#[test]
fn get_class_access_flags_array_returns_zero() {
    let mut vm = reflection_vm();
    let mirror = vm.intern_class_mirror("[B").unwrap();
    assert_eq!(access_flags(&mut vm, mirror), Ok(Value::Int(0)));
}

#[test]
fn get_class_access_flags_primitive_returns_modifiers() {
    let mut vm = reflection_vm();
    let mirror = vm.intern_class_mirror("int").unwrap();
    assert_eq!(access_flags(&mut vm, mirror), Ok(Value::Int(0x0411)));
}

#[test]
fn get_class_access_flags_null_arg_throws_npe() {
    let mut vm = VmThread::new(ClassRegistry::new());
    let err = access_flags(&mut vm, Reference::null()).unwrap_err();
    assert_thrown(&vm, err, "java/lang/NullPointerException");
}

#[test]
fn unbound_reflection_native_throws_ule() {
    let mut vm = VmThread::new(ClassRegistry::new());
    let err =
        done(invoke(&mut vm, "jdk/internal/reflect/Reflection", "unknownNative", "()V", None, &[])).unwrap_err();
    assert_thrown(&vm, err, "java/lang/UnsatisfiedLinkError");
}

const UNSAFE: &str = "jdk/internal/misc/Unsafe";

fn unsafe_call(vm: &mut VmThread, name: &str, desc: &str, args: &[Value]) -> Result<Value, VmError> {
    done(invoke(vm, UNSAFE, name, desc, None, args))
}

fn field_offset(vm: &mut VmThread, class: &str, field: &str) -> i64 {
    let mirror = vm.intern_class_mirror(class).unwrap();
    let name = intern(vm, field).unwrap();
    let args = [Value::Reference(mirror), Value::Reference(name)];
    match unsafe_call(vm, "objectFieldOffset1", "(Ljava/lang/Class;Ljava/lang/String;)J", &args) {
        Ok(Value::Long(ord)) => ord,
        other => panic!("no offset: {other:?}"),
    }
}

fn field(vm: &VmThread, r: Reference, ord: i64) -> Slot {
    match vm.heap().get(r) {
        Some(Oop::Instance(i)) => i.field(ord as usize),
        other => panic!("no instance: {other:?}"),
    }
}

#[test]
fn compare_and_set_int_cas_semantics() {
    let mut vm = reflection_vm();
    let inst = vm.alloc_fresh("java/lang/Integer");
    let ord = field_offset(&mut vm, "java/lang/Integer", "value");
    assert!(ord >= 0);
    let mut cas = |expected: i32, x: i32| {
        let args = [Value::Reference(inst), Value::Long(ord), Value::Int(expected), Value::Int(x)];
        unsafe_call(&mut vm, "compareAndSetInt", "(Ljava/lang/Object;JII)Z", &args)
    };
    assert_eq!(cas(0, 42), Ok(Value::Int(1)));
    assert_eq!(cas(0, 99), Ok(Value::Int(0)));
    assert_eq!(field(&vm, inst, ord), Slot::Int(42));
    assert_eq!(field_offset(&mut vm, "java/lang/Integer", "missing"), -1);
}

const PUT_REF: &str = "(Ljava/lang/Object;JLjava/lang/Object;)V";
const GET_REF: &str = "(Ljava/lang/Object;J)Ljava/lang/Object;";
const CAS_REF: &str = "(Ljava/lang/Object;JLjava/lang/Object;Ljava/lang/Object;)Z";

fn four_nulls(vm: &mut VmThread) -> (Reference, Reference) {
    let arr = object_array(vm, vec![Reference::null(); 4]);
    let x = object_array(vm, Vec::new());
    assert!(!x.is_null());
    (arr, x)
}

#[test]
fn get_put_reference_volatile_object_array() {
    let mut vm = VmThread::new(ClassRegistry::new());
    let (arr, x) = four_nulls(&mut vm);
    let at = |o: i64| [Value::Reference(arr), Value::Long(o)];
    let put = [Value::Reference(arr), Value::Long(18), Value::Reference(x)];
    assert_eq!(unsafe_call(&mut vm, "putReferenceVolatile", PUT_REF, &put), Ok(Value::Void));
    assert_eq!(unsafe_call(&mut vm, "getReferenceVolatile", GET_REF, &at(18)), Ok(Value::Reference(x)));
    assert_eq!(
        unsafe_call(&mut vm, "getReferenceVolatile", GET_REF, &at(16)),
        Ok(Value::Reference(Reference::null()))
    );
}

#[test]
fn compare_and_set_reference_object_array() {
    let mut vm = VmThread::new(ClassRegistry::new());
    let (arr, x) = four_nulls(&mut vm);
    let cas = [
        Value::Reference(arr),
        Value::Long(18),
        Value::Reference(Reference::null()),
        Value::Reference(x),
    ];
    assert_eq!(unsafe_call(&mut vm, "compareAndSetReference", CAS_REF, &cas), Ok(Value::Int(1)));
    let at = [Value::Reference(arr), Value::Long(18)];
    assert_eq!(unsafe_call(&mut vm, "getReferenceVolatile", GET_REF, &at), Ok(Value::Reference(x)));
    assert_eq!(unsafe_call(&mut vm, "compareAndSetReference", CAS_REF, &cas), Ok(Value::Int(0)));
}

#[test]
fn get_put_int_volatile_instance() {
    let mut vm = reflection_vm();
    let inst = vm.alloc_fresh("java/lang/Integer");
    let ord = field_offset(&mut vm, "java/lang/Integer", "value");
    let at = [Value::Reference(inst), Value::Long(ord)];
    assert_eq!(unsafe_call(&mut vm, "getIntVolatile", "(Ljava/lang/Object;J)I", &at), Ok(Value::Int(0)));
    let put = [Value::Reference(inst), Value::Long(ord), Value::Int(42)];
    assert_eq!(unsafe_call(&mut vm, "putIntVolatile", "(Ljava/lang/Object;JI)V", &put), Ok(Value::Void));
    assert_eq!(unsafe_call(&mut vm, "getIntVolatile", "(Ljava/lang/Object;J)I", &at), Ok(Value::Int(42)));
}

#[test]
fn compare_and_set_long_instance() {
    let mut vm = reflection_vm();
    let inst = vm.alloc_fresh("java/lang/Long");
    let ord = field_offset(&mut vm, "java/lang/Long", "value");
    let mut cas = |expected: i64, x: i64| {
        let args = [Value::Reference(inst), Value::Long(ord), Value::Long(expected), Value::Long(x)];
        unsafe_call(&mut vm, "compareAndSetLong", "(Ljava/lang/Object;JJJ)Z", &args)
    };
    assert_eq!(cas(0, 42), Ok(Value::Int(1)));
    assert_eq!(cas(0, 99), Ok(Value::Int(0)));
    assert_eq!(field(&vm, inst, ord), Slot::Long(42));
}

#[test]
fn compare_and_exchange_int_instance() {
    let mut vm = reflection_vm();
    let inst = vm.alloc_fresh("java/lang/Integer");
    let ord = field_offset(&mut vm, "java/lang/Integer", "value");
    let mut exchange = |expected: i32, x: i32| {
        let args = [Value::Reference(inst), Value::Long(ord), Value::Int(expected), Value::Int(x)];
        unsafe_call(&mut vm, "compareAndExchangeInt", "(Ljava/lang/Object;JII)I", &args)
    };
    assert_eq!(exchange(0, 42), Ok(Value::Int(0)));
    assert_eq!(exchange(0, 99), Ok(Value::Int(42)));
    assert_eq!(field(&vm, inst, ord), Slot::Int(42));
}

#[test]
fn unbound_unsafe_native_throws_ule() {
    let mut vm = VmThread::new(ClassRegistry::new());
    let err = unsafe_call(&mut vm, "unknownNative", "()V", &[]).unwrap_err();
    assert_thrown(&vm, err, "java/lang/UnsatisfiedLinkError");
}

#[test]
fn thread_counter_behind_a_null_object() {
    let mut vm = reflection_vm();
    let offset = match done(invoke(&mut vm, "java/lang/Thread", "getNextThreadIdOffset", "()J", None, &[])) {
        Ok(Value::Long(o)) => o,
        other => panic!("no offset: {other:?}"),
    };
    let null = Value::Reference(Reference::null());
    let get = |vm: &mut VmThread| unsafe_call(vm, "getLongVolatile", "(Ljava/lang/Object;J)J", &[null, Value::Long(offset)]);
    assert_eq!(get(&mut vm), Ok(Value::Long(1)));
    let mut cas = |e: i64, x: i64| {
        let args = [null, Value::Long(offset), Value::Long(e), Value::Long(x)];
        unsafe_call(&mut vm, "compareAndSetLong", "(Ljava/lang/Object;JJJ)Z", &args)
    };
    assert_eq!(cas(1, 5), Ok(Value::Int(1)));
    assert_eq!(cas(1, 9), Ok(Value::Int(0)));
    assert_eq!(get(&mut vm), Ok(Value::Long(5)));
    assert_eq!(vm.next_thread_tid(), 5);
}

#[test]
fn array_offsets() {
    assert_eq!(array_scale("[B"), 1);
    assert_eq!(array_scale("[C"), 2);
    assert_eq!(array_scale("[I"), 4);
    assert_eq!(array_scale("[J"), 8);
    assert_eq!(array_scale("[Ljava/lang/Object;"), 1);
    assert_eq!(array_index_from_offset("[I", 16 + 4 * 3), Some(3));
    assert_eq!(array_index_from_offset("[J", 16 + 8), Some(1));
    assert_eq!(array_index_from_offset("[I", 0), None);
    assert_eq!(byte_index(16), Some(0));
    assert_eq!(byte_index(20), Some(4));
    assert_eq!(byte_index(15), None);
}

#[test]
fn bytes_are_put_and_got() {
    let mut vm = reflection_vm();
    let arr = vm.alloc_object(Oop::Array(ArrayOop::new("[B".into(), vec![Slot::Int(0); 2])));
    let put = |i: i64, b: i32| [Value::Reference(arr), Value::Long(16 + i), Value::Int(b)];
    assert_eq!(unsafe_call(&mut vm, "putByte", "(Ljava/lang/Object;JB)V", &put(1, -7)), Ok(Value::Void));
    let at = [Value::Reference(arr), Value::Long(17)];
    assert_eq!(unsafe_call(&mut vm, "getByte", "(Ljava/lang/Object;J)B", &at), Ok(Value::Int(-7)));
    let err = unsafe_call(&mut vm, "putByte", "(Ljava/lang/Object;JB)V", &put(2, 1)).unwrap_err();
    assert_thrown(&vm, err, "java/lang/ArrayIndexOutOfBoundsException");
}

fn declared(vm: &mut VmThread, name: &str, desc: &str, class: &str, public_only: i32) -> Vec<Reference> {
    let mirror = vm.intern_class_mirror(class).unwrap();
    let r = done(invoke(vm, "java/lang/Class", name, desc, Some(mirror), &[Value::Int(public_only)]));
    let arr = reference(r);
    elements(vm, arr)
}

fn text_field(vm: &VmThread, x: Reference, class: &str, field: &str) -> String {
    let r = vm.instance_reference_field(x, class, field).unwrap();
    read_text(vm, r).unwrap().unwrap()
}

#[test]
fn declared_fields_are_described() {
    let mut vm = reflection_vm();
    let desc = "(Z)[Ljava/lang/reflect/Field;";
    let all = declared(&mut vm, "getDeclaredFields0", desc, "java/lang/Integer", 0);
    let c = "java/lang/reflect/Field";
    assert_eq!(all.len(), 2);
    assert_eq!(text_field(&vm, all[0], c, "name"), "MAX_VALUE");
    assert_eq!(text_field(&vm, all[1], c, "name"), "value");
    assert_eq!(vm.instance_int_field(all[1], c, "slot"), Some(1));
    assert_eq!(vm.instance_int_field(all[1], c, "modifiers"), Some(2));
    let int = vm.intern_class_mirror("int").unwrap();
    let integer = vm.intern_class_mirror("java/lang/Integer").unwrap();
    assert_eq!(vm.instance_reference_field(all[1], c, "type"), Some(int));
    assert_eq!(vm.instance_reference_field(all[1], c, "clazz"), Some(integer));
    let public = declared(&mut vm, "getDeclaredFields0", desc, "java/lang/Integer", 1);
    assert_eq!(public.len(), 1);
    assert_eq!(text_field(&vm, public[0], c, "name"), "MAX_VALUE");
}

#[test]
fn slot_of_a_public_field_counts_all_fields() {
    let mut reg = ClassRegistry::new();
    reg.load(build("java/lang/String", &[]).field("value", "[B", 2).field("coder", "B", 2).done());
    reg.load(
        build("java/lang/reflect/Field", &[])
            .field("clazz", "Ljava/lang/Class;", 2)
            .field("slot", "I", 2)
            .field("name", "Ljava/lang/String;", 2)
            .field("type", "Ljava/lang/Class;", 2)
            .field("modifiers", "I", 2)
            .done(),
    );
    reg.load(build("java/lang/Class", &[]).done());
    reg.load(build("Mixed", &[]).field("hidden", "I", 2).field("shown", "J", 1).done());
    let mut vm = VmThread::new(reg);
    vm.mark_initialized("java/lang/String");
    let public = declared(&mut vm, "getDeclaredFields0", "(Z)[Ljava/lang/reflect/Field;", "Mixed", 1);
    assert_eq!(public.len(), 1);
    assert_eq!(vm.instance_int_field(public[0], "java/lang/reflect/Field", "slot"), Some(1));
}

#[test]
fn declared_methods_are_described() {
    let mut vm = reflection_vm();
    let desc = "(Z)[Ljava/lang/reflect/Method;";
    let all = declared(&mut vm, "getDeclaredMethods0", desc, "java/lang/Integer", 0);
    assert_eq!(all.len(), 4);
    for (i, m) in all.iter().enumerate() {
        assert_eq!(vm.instance_int_field(*m, METHOD, "slot"), Some(i as i32));
    }
    assert_eq!(text_field(&vm, all[0], METHOD, "name"), "parseInt");
    let string = vm.intern_class_mirror("java/lang/String").unwrap();
    let int = vm.intern_class_mirror("int").unwrap();
    let void = vm.intern_class_mirror("void").unwrap();
    let params = vm.instance_reference_field(all[0], METHOD, "parameterTypes").unwrap();
    assert_eq!(elements(&vm, params), vec![string, int]);
    assert_eq!(vm.instance_reference_field(all[0], METHOD, "returnType"), Some(int));
    assert_eq!(vm.instance_reference_field(all[3], METHOD, "returnType"), Some(void));
    let thrown = vm.instance_reference_field(all[0], METHOD, "exceptionTypes").unwrap();
    assert_eq!(elements(&vm, thrown), Vec::new());
    assert_eq!(declared(&mut vm, "getDeclaredMethods0", desc, "java/lang/Integer", 1).len(), 3);
}

#[test]
fn declared_constructors_are_described() {
    let mut vm = reflection_vm();
    let desc = "(Z)[Ljava/lang/reflect/Constructor;";
    let all = declared(&mut vm, "getDeclaredConstructors0", desc, "java/lang/Integer", 0);
    assert_eq!(all.len(), 1);
    let int = vm.intern_class_mirror("int").unwrap();
    let params = vm.instance_reference_field(all[0], CONSTRUCTOR, "parameterTypes").unwrap();
    assert_eq!(elements(&vm, params), vec![int]);
    assert_eq!(vm.instance_int_field(all[0], CONSTRUCTOR, "modifiers"), Some(1));
    assert_eq!(vm.instance_int_field(all[0], CONSTRUCTOR, "slot"), Some(2));
}

fn new_instance0(vm: &mut VmThread, constructor: Reference, args: Reference) -> NativeStep {
    let args = [Value::Reference(constructor), Value::Reference(args)];
    invoke(vm, CTOR_NATIVE_ACCESSOR, "newInstance0", NEWINSTANCE0_DESC, None, &args)
}

#[test]
fn a_declared_constructor_runs_its_init() {
    let mut vm = reflection_vm();
    let desc = "(Z)[Ljava/lang/reflect/Constructor;";
    let all = declared(&mut vm, "getDeclaredConstructors0", desc, "java/lang/Integer", 0);
    let seven = alloc_wrapper(&mut vm, "java/lang/Integer", Slot::Int(7)).unwrap();
    let args = object_array(&mut vm, vec![seven]);
    match new_instance0(&mut vm, all[0], args) {
        NativeStep::Construct(i, instance) => {
            assert_eq!((i.class, i.method), (3, 2));
            assert_eq!(i.frame.locals.get_reference(0), Ok(instance));
            assert_eq!(i.frame.locals.get_int(1), Ok(7));
        }
        other => panic!("no construction: {other:?}"),
    }
}

#[test]
fn a_method_that_is_no_constructor_makes_no_instance() {
    let mut vm = reflection_vm();
    let clazz = vm.intern_class_mirror("java/lang/Integer").unwrap();
    let bad = executable(&mut vm, CONSTRUCTOR, clazz, 0, 9);
    let none = object_array(&mut vm, vec![]);
    assert_eq!(done(new_instance0(&mut vm, bad, none)), Err(VmError::BadConstant("newInstance0:slot 非 <init>")));
}

#[test]
fn a_public_method_behind_a_hidden_one_runs_itself() {
    let mut reg = ClassRegistry::new();
    reg.load(build("java/lang/String", &[]).field("value", "[B", 2).field("coder", "B", 2).done());
    reg.load(build("java/lang/Class", &[]).done());
    reg.load(
        build("java/lang/reflect/Method", &[])
            .field("clazz", "Ljava/lang/Class;", 2)
            .field("slot", "I", 2)
            .field("name", "Ljava/lang/String;", 2)
            .field("returnType", "Ljava/lang/Class;", 2)
            .field("parameterTypes", "[Ljava/lang/Class;", 2)
            .field("exceptionTypes", "[Ljava/lang/Class;", 2)
            .field("modifiers", "I", 2)
            .done(),
    );
    reg.load(build("Mixed", &[]).method("hidden", "()V", 10, 0).method("shown", "()V", 9, 0).done());
    let mut vm = VmThread::new(reg);
    vm.mark_initialized("java/lang/String");
    let public = declared(&mut vm, "getDeclaredMethods0", "(Z)[Ljava/lang/reflect/Method;", "Mixed", 1);
    assert_eq!(public.len(), 1);
    assert_eq!(vm.instance_int_field(public[0], METHOD, "slot"), Some(1));
    let none = object_array(&mut vm, vec![]);
    let (i, _) = call(invoke0(&mut vm, public[0], Reference::null(), none));
    assert_eq!((i.class, i.method), (3, 1));
}

#[test]
fn declared_members_wait_for_the_string_class() {
    let mut reg = ClassRegistry::new();
    reg.load(build("java/lang/Class", &[]).done());
    reg.load(build("java/lang/String", &[]).field("value", "[B", 2).field("coder", "B", 2).done());
    reg.load(
        build("java/lang/reflect/Field", &[])
            .field("clazz", "Ljava/lang/Class;", 2)
            .field("slot", "I", 2)
            .field("name", "Ljava/lang/String;", 2)
            .field("type", "Ljava/lang/Class;", 2)
            .field("modifiers", "I", 2)
            .done(),
    );
    reg.load(build("Mixed", &[]).field("shown", "J", 1).done());
    let mut vm = VmThread::new(reg);
    let mirror = vm.intern_class_mirror("Mixed").unwrap();
    let desc = "(Z)[Ljava/lang/reflect/Field;";
    let step = invoke(&mut vm, "java/lang/Class", "getDeclaredFields0", desc, Some(mirror), &[Value::Int(0)]);
    assert_eq!(done(step), Err(VmError::InitializerPending(1)));
    vm.mark_initialized("java/lang/String");
    let fields = declared(&mut vm, "getDeclaredFields0", desc, "Mixed", 0);
    assert_eq!(text_field(&vm, fields[0], "java/lang/reflect/Field", "name"), "shown");
}

#[test]
fn mirror_names_of_types() {
    assert_eq!(field_type_internal("I"), "int");
    assert_eq!(field_type_internal("V"), "void");
    assert_eq!(field_type_internal("Ljava/lang/String;"), "java/lang/String");
    assert_eq!(field_type_internal("[I"), "[I");
    assert_eq!(field_type_to_class_name(&FieldType::Long), "long");
    assert_eq!(field_type_to_class_name(&FieldType::Array(Box::new(FieldType::Class("a/B".into())))), "[La/B;");
}

const NATIVES: &str = "java/lang/invoke/MethodHandleNatives";
const MEMBER: &str = "java/lang/invoke/MemberName";

#[test]
fn member_names_are_filled_and_resolved() {
    let mut vm = reflection_vm();
    let fields =
        declared(&mut vm, "getDeclaredFields0", "(Z)[Ljava/lang/reflect/Field;", "java/lang/Integer", 0);
    let member = vm.alloc_fresh(MEMBER);
    let init = "(Ljava/lang/invoke/MemberName;Ljava/lang/Object;)V";
    let mut start = |f: Reference| {
        let args = [Value::Reference(member), Value::Reference(f)];
        assert_eq!(done(invoke(&mut vm, NATIVES, "init", init, None, &args)), Ok(Value::Void));
        vm.instance_int_field(member, MEMBER, "flags").unwrap()
    };
    // A field (0x40000) with reference kind getField (1) or getStatic (2) in bits 24 to 27.
    assert_eq!(start(fields[1]), 0x2 | 0x40000 | (1 << 24));
    assert_eq!(start(fields[0]), 0x9 | 0x40000 | (2 << 24));
    let integer = vm.intern_class_mirror("java/lang/Integer").unwrap();
    assert_eq!(vm.instance_reference_field(member, MEMBER, "clazz"), Some(integer));
    let name = intern(&mut vm, "MAX_VALUE").unwrap();
    vm.set_instance_field_by_name(member, MEMBER, "name", Slot::Reference(name));
    let arg = [Value::Reference(member)];
    let offset = "(Ljava/lang/invoke/MemberName;)J";
    assert_eq!(done(invoke(&mut vm, NATIVES, "staticFieldOffset", offset, None, &arg)), Ok(Value::Long(0)));
    assert_eq!(done(invoke(&mut vm, NATIVES, "objectFieldOffset", offset, None, &arg)), Ok(Value::Long(-1)));
    assert_eq!(
        done(invoke(
            &mut vm,
            NATIVES,
            "staticFieldBase",
            "(Ljava/lang/invoke/MemberName;)Ljava/lang/Object;",
            None,
            &arg
        )),
        Ok(Value::Reference(integer))
    );
    // invokeStatic (6) makes a static method.
    vm.set_instance_field_by_name(member, MEMBER, "flags", Slot::Int(6 << 24));
    let resolve = "(Ljava/lang/invoke/MemberName;Ljava/lang/Class;IZ)Ljava/lang/invoke/MemberName;";
    let args = [Value::Reference(member), Value::Reference(Reference::null()), Value::Int(0), Value::Int(0)];
    assert_eq!(done(invoke(&mut vm, NATIVES, "resolve", resolve, None, &args)), Ok(Value::Reference(member)));
    assert_eq!(vm.instance_int_field(member, MEMBER, "flags"), Some((6 << 24) | 0x10000 | 0x8));
}

#[test]
fn stack_trace_elements_are_filled_from_the_top() {
    let mut reg = ClassRegistry::new();
    reg.load(build("java/lang/String", &[]).field("value", "[B", 2).field("coder", "B", 2).done());
    reg.load(build("java/lang/Class", &[]).done());
    reg.load(
        build("java/lang/StackTraceElement", &[])
            .field("declaringClassObject", "Ljava/lang/Class;", 2)
            .field("declaringClass", "Ljava/lang/String;", 2)
            .field("methodName", "Ljava/lang/String;", 2)
            .field("fileName", "Ljava/lang/String;", 2)
            .field("lineNumber", "I", 2)
            .done(),
    );
    let mut vm = VmThread::new(reg);
    vm.mark_initialized("java/lang/String");
    vm.push_frame("a/Outer", "main");
    vm.push_frame("a/Inner", "go");
    let exc = vm.alloc_fresh("java/lang/Class");
    vm.record_trace(exc);
    let ste = "java/lang/StackTraceElement";
    let es: Vec<Reference> = (0..2).map(|_| vm.alloc_fresh(ste)).collect();
    let arr = object_array(&mut vm, es.clone());
    let args = [Value::Reference(arr), Value::Reference(exc), Value::Int(2)];
    let desc = "([Ljava/lang/StackTraceElement;Ljava/lang/Object;I)V";
    assert_eq!(done(invoke(&mut vm, ste, "initStackTraceElements", desc, None, &args)), Ok(Value::Void));
    assert_eq!(text_field(&vm, es[0], ste, "declaringClass"), "a.Inner");
    assert_eq!(text_field(&vm, es[0], ste, "methodName"), "go");
    assert_eq!(text_field(&vm, es[1], ste, "declaringClass"), "a.Outer");
    let mirror = vm.intern_class_mirror("a/Outer").unwrap();
    assert_eq!(vm.instance_reference_field(es[1], ste, "declaringClassObject"), Some(mirror));
    assert_eq!(vm.instance_int_field(es[1], ste, "lineNumber"), Some(0));
    let fresh: Vec<Reference> = (0..2).map(|_| vm.alloc_fresh(ste)).collect();
    let arr = object_array(&mut vm, fresh.clone());
    let args = [Value::Reference(arr), Value::Reference(exc), Value::Int(1)];
    assert_eq!(done(invoke(&mut vm, ste, "initStackTraceElements", desc, None, &args)), Ok(Value::Void));
    assert_eq!(text_field(&vm, fresh[0], ste, "methodName"), "go");
    assert_eq!(vm.instance_reference_field(fresh[1], ste, "methodName"), Some(Reference::null()));
    assert_eq!(vm.instance_reference_field(fresh[1], ste, "declaringClassObject"), Some(Reference::null()));
}
