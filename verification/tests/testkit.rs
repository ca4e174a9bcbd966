//! Helpers for running single methods.

use rustj::metadata::class_file::{ClassFile, Code, ConstantPool, ConstantPoolEntry, MethodInfo};
use rustj::metadata::class_registry::{ClassRegistry, LoadedClass};
use rustj::runtime::frame::Frame;
use rustj::runtime::slot::{Reference, Slot};
use rustj::runtime::value::{Value, VmError};
use rustj::runtime::vm::VmThread;
use rustj::testkit::compile::{class_file, is_class_file, source_file, unique_dir};
use rustj::testkit::lookup::method_place;
use rustj::testkit::runner::Unprepared;
use rustj::testkit::{
    as_int, find_method, prepare_raw, prepare_static_in, probe, set_args, set_value_args, static_int, utf8, Arg,
};

fn runner_class() -> ClassFile {
    let texts = ["seven", "()I", "add", "(II)I", "gone"];
    let code = |max_locals: u16| {
        Some(Code { max_stack: 2, max_locals, code: vec![0xAC], line_number_table: Vec::new() })
    };
    ClassFile {
        constant_pool: ConstantPool::new(texts.iter().map(|t| ConstantPoolEntry::Utf8(t.to_string())).collect()),
        access_flags: 1,
        fields: Vec::new(),
        methods: vec![
            MethodInfo { access_flags: 9, name_index: 1, descriptor_index: 2, code: code(0) },
            MethodInfo { access_flags: 9, name_index: 3, descriptor_index: 4, code: code(2) },
            MethodInfo { access_flags: 9, name_index: 5, descriptor_index: 2, code: None },
        ],
        source_file: None,
    }
}

fn runner_vm() -> VmThread {
    let mut reg = ClassRegistry::new();
    reg.load(LoadedClass {
        name: "RunnerProbe".to_string(),
        super_name: None,
        supertypes: Vec::new(),
        module: None,
        cf: runner_class(),
        instance_fields: Vec::new(),
        static_fields: Vec::new(),
        dispatch: Vec::new(),
    });
    VmThread::new(reg)
}

#[test]
fn feature_and_macro_visible_from_integration_test() {
    assert!(probe());
}

#[test]
fn arguments_take_one_or_two_locals() {
    let mut frame = Frame::new(6, 0);
    set_args(&mut frame, &[Arg::I(1), Arg::L(2), Arg::F(3.0f32.to_bits()), Arg::D(4.0f64.to_bits())]);
    assert_eq!(frame.locals.get_int(0), Ok(1));
    assert_eq!(frame.locals.get_long(1), Ok(2));
    assert_eq!(frame.locals.get_float(3), Ok(3.0f32.to_bits()));
    assert_eq!(frame.locals.get_double(4), Ok(4.0f64.to_bits()));
    assert_eq!(frame.locals.slot(5), Ok(&Slot::Top));
}

#[test]
fn value_arguments_may_be_references() {
    let mut frame = Frame::new(4, 0);
    let r = Reference::from_id(3);
    set_value_args(&mut frame, &[Value::Reference(r), Value::Double(5.0f64.to_bits()), Value::Int(6)]);
    assert_eq!(frame.locals.get_reference(0), Ok(r));
    assert_eq!(frame.locals.get_double(1), Ok(5.0f64.to_bits()));
    assert_eq!(frame.locals.get_int(3), Ok(6));
    let mut wide = Frame::new(4, 0);
    wide.locals.set_int(2, 9).unwrap();
    set_value_args(&mut wide, &[Value::Long(7)]);
    assert_eq!(wide.locals.get_long(0), Ok(7));
    assert_eq!(wide.locals.slot(1), Ok(&Slot::Top));
    assert_eq!(wide.locals.get_int(2), Ok(9));
}

#[test]
fn ints_are_taken_out() {
    assert_eq!(as_int(Value::Int(7)), 7);
    assert_eq!(static_int(Ok(Value::Int(7))), Ok(7));
    assert_eq!(static_int(Ok(Value::Void)), Err(VmError::BadConstant("run_static_int 期望 int 返回")));
    let e = VmError::ThrownException(Reference::from_id(1));
    assert_eq!(static_int(Err(e)), Err(e));
}

#[test]
fn methods_are_found_by_name_and_descriptor() {
    let cf = runner_class();
    assert_eq!(utf8(&cf, 3), "add");
    assert_eq!(find_method(&cf, "add", "(II)I").name_index, 3);
    assert_eq!(method_place(&cf, "seven", "()I"), Some(0));
    assert_eq!(method_place(&cf, "seven", "()V"), None);
}

#[test]
fn raw_calls_hold_their_arguments() {
    let frame = prepare_raw(&runner_class(), "add", "(II)I", &[Arg::I(3), Arg::I(4)]);
    assert_eq!(frame.locals.get_int(0), Ok(3));
    assert_eq!(frame.locals.get_int(1), Ok(4));
    assert!(frame.operands.is_empty());
}

#[test]
fn static_calls_are_prepared() {
    let vm = runner_vm();
    let args = [Value::Int(3), Value::Int(4)];
    let call = prepare_static_in(&vm, "RunnerProbe", "add", "(II)I", &args).unwrap();
    assert_eq!((call.class, call.method), (0, 1));
    assert_eq!(call.frame.locals.get_int(1), Ok(4));
}

#[test]
fn static_calls_say_what_is_missing() {
    let vm = runner_vm();
    let why = |vm: &VmThread, class: &str, name: &str, args: &[Value]| {
        prepare_static_in(vm, class, name, "()I", args).unwrap_err()
    };
    assert_eq!(why(&VmThread::default(), "RunnerProbe", "seven", &[]), Unprepared::NoRegistry);
    assert_eq!(why(&vm, "Missing", "seven", &[]), Unprepared::ClassNotLoaded);
    assert_eq!(why(&vm, "RunnerProbe", "missing", &[]), Unprepared::MethodNotFound);
    assert_eq!(why(&vm, "RunnerProbe", "gone", &[]), Unprepared::NoCode);
    assert_eq!(why(&vm, "RunnerProbe", "seven", &[Value::Int(1)]), Unprepared::BadArguments);
    assert_eq!(why(&vm, "RunnerProbe", "seven", &[Value::Void]), Unprepared::BadArguments);
}

#[test]
fn compilation_files_are_named() {
    assert_eq!(unique_dir("Probe", 12, 345), "rustj-test-Probe-12-345");
    assert_ne!(unique_dir("Probe", 12, 345), unique_dir("Probe", 1, 2345));
    assert_eq!(source_file("Probe"), "Probe.java");
    assert_eq!(class_file("Probe"), "Probe.class");
    assert!(is_class_file("Probe.class"));
    assert!(is_class_file("a.b.class"));
    assert!(!is_class_file(".class"));
    assert!(!is_class_file("Probe.java"));
}
