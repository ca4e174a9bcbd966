//! `checkcast` and `instanceof`.

use rustj::metadata::class_file::{ClassFile, ConstantPool, ConstantPoolEntry};
use rustj::metadata::class_registry::{ClassRegistry, LoadedClass};
use rustj::runtime::frame::{Frame, FrameError};
use rustj::runtime::oop::{ArrayOop, LambdaOop, Oop};
use rustj::runtime::slot::Reference;
use rustj::runtime::type_check::{array_instanceof, check_cast, class_of_obj_desc, instance_of};
use rustj::runtime::value::VmError;
use rustj::runtime::vm::VmThread;

fn class(name: &str, supertypes: &[&str]) -> LoadedClass {
    LoadedClass {
        name: name.to_string(),
        super_name: supertypes.first().map(|s| s.to_string()),
        supertypes: supertypes.iter().map(|s| s.to_string()).collect(),
        module: None,
        cf: ClassFile {
            constant_pool: ConstantPool::new(Vec::new()),
            access_flags: 0,
            fields: Vec::new(),
            methods: Vec::new(),
            source_file: None,
        },
        instance_fields: Vec::new(),
        static_fields: Vec::new(),
        dispatch: Vec::new(),
    }
}

/// Texts 1 to 6, then the classes they name: 7 Object, 8 Shape, 9 Square, 10 Drawable, 11 Circle, 12 `Shape[]`.
fn pool() -> ConstantPool {
    let names = ["java/lang/Object", "Shape", "Square", "Drawable", "Circle", "[LShape;"];
    let mut entries: Vec<ConstantPoolEntry> = names.iter().map(|n| ConstantPoolEntry::Utf8(n.to_string())).collect();
    for i in 1..=names.len() {
        entries.push(ConstantPoolEntry::Class(i as u16));
    }
    ConstantPool::new(entries)
}

const SHAPE: u16 = 8;
const SQUARE: u16 = 9;
const DRAWABLE: u16 = 10;
const CIRCLE: u16 = 11;

fn registry() -> ClassRegistry {
    let mut reg = ClassRegistry::new();
    reg.load(class("Square", &["Shape", "java/lang/Object"]));
    reg.load(class("Shape", &["java/lang/Object"]));
    reg.load(class("Circle", &["Shape", "java/lang/Object", "Drawable"]));
    reg
}

fn instance_test(vm: &VmThread, r: Reference, index: u16) -> Result<i32, VmError> {
    let mut frame = Frame::new(0, 2);
    frame.operands.push_reference(r).unwrap();
    instance_of(&pool(), &mut frame, vm, index)?;
    Ok(frame.operands.pop_int().unwrap())
}

fn cast(vm: &mut VmThread, r: Reference, index: u16) -> Result<Reference, VmError> {
    let mut frame = Frame::new(0, 2);
    frame.operands.push_reference(r).unwrap();
    check_cast(&pool(), &mut frame, vm, index)?;
    Ok(frame.operands.pop_reference().unwrap())
}

#[test]
fn instanceof_shape_on_square_returns_one() {
    let mut vm = VmThread::new(registry());
    let inst = vm.alloc_fresh("Square");
    assert_eq!(instance_test(&vm, inst, SHAPE), Ok(1));
}

#[test]
fn instanceof_null_returns_zero() {
    let vm = VmThread::new(registry());
    assert_eq!(instance_test(&vm, Reference::null(), SHAPE), Ok(0));
}

#[test]
fn checkcast_shape_on_square_passes() {
    let mut vm = VmThread::new(registry());
    let inst = vm.alloc_fresh("Square");
    assert_eq!(cast(&mut vm, inst, SHAPE), Ok(inst));
}

#[test]
fn checkcast_own_class_passes() {
    let mut vm = VmThread::new(registry());
    let inst = vm.alloc_fresh("Square");
    assert_eq!(cast(&mut vm, inst, SQUARE), Ok(inst));
}

#[test]
fn instanceof_class_match() {
    let mut vm = VmThread::new(registry());
    let o = vm.alloc_fresh("Square");
    assert_eq!(instance_test(&vm, o, SHAPE), Ok(1));
}

#[test]
fn instanceof_interface_match() {
    let mut vm = VmThread::new(registry());
    let o = vm.alloc_fresh("Circle");
    assert_eq!(instance_test(&vm, o, DRAWABLE), Ok(1));
}

#[test]
fn instanceof_no_match() {
    let mut vm = VmThread::new(registry());
    let o = vm.alloc_fresh("Square");
    assert_eq!(instance_test(&vm, o, CIRCLE), Ok(0));
}

#[test]
fn instanceof_null_is_zero() {
    let vm = VmThread::new(registry());
    assert_eq!(instance_test(&vm, Reference::null(), SHAPE), Ok(0));
}

#[test]
fn checkcast_passes() {
    let mut vm = VmThread::new(registry());
    let o = vm.alloc_fresh("Square");
    assert!(cast(&mut vm, o, SQUARE).is_ok());
}

#[test]
fn checkcast_fails_with_classcastexception() {
    let mut vm = VmThread::new(registry());
    let o = vm.alloc_fresh("Square");
    let err = cast(&mut vm, o, CIRCLE).unwrap_err();
    let VmError::ThrownException(r) = err else {
        panic!("no exception: {err:?}");
    };
    match vm.heap().get(r) {
        Some(Oop::Instance(i)) => assert_eq!(i.class_name(), "java/lang/ClassCastException"),
        other => panic!("no instance: {other:?}"),
    }
}

#[test]
fn null_passes_every_cast() {
    let mut vm = VmThread::new(registry());
    assert_eq!(cast(&mut vm, Reference::null(), CIRCLE), Ok(Reference::null()));
}

#[test]
fn arrays_are_tested_by_their_components() {
    let reg = registry();
    assert!(array_instanceof("[I", "java/lang/Object", &reg));
    assert!(array_instanceof("[I", "java/lang/Cloneable", &reg));
    assert!(array_instanceof("[[I", "[Ljava/lang/Cloneable;", &reg));
    assert!(array_instanceof("[[Ljava/lang/String;", "[Ljava/io/Serializable;", &reg));
    assert!(array_instanceof("[[[I", "[[Ljava/lang/Cloneable;", &reg));
    assert!(!array_instanceof("[I", "[Ljava/lang/Cloneable;", &reg));
    assert!(!array_instanceof("[[I", "[Ljava/lang/Comparable;", &reg));
    assert!(array_instanceof("[I", "java/io/Serializable", &reg));
    assert!(array_instanceof("[I", "[I", &reg));
    assert!(!array_instanceof("[I", "[J", &reg));
    assert!(!array_instanceof("[I", "[Ljava/lang/Object;", &reg));
    assert!(array_instanceof("[[I", "[Ljava/lang/Object;", &reg));
    assert!(array_instanceof("[LSquare;", "[Ljava/lang/Object;", &reg));
    assert!(array_instanceof("[LSquare;", "[LShape;", &reg));
    assert!(!array_instanceof("[LShape;", "[LSquare;", &reg));
    assert!(array_instanceof("[[LSquare;", "[[LShape;", &reg));
    assert!(!array_instanceof("[LSquare;", "LShape;", &reg));
}

#[test]
fn arrays_and_closures_on_the_heap() {
    let mut vm = VmThread::new(registry());
    let a = vm.alloc_object(Oop::Array(ArrayOop::new("[LSquare;".into(), Vec::new())));
    assert_eq!(instance_test(&vm, a, 12), Ok(1));
    assert_eq!(instance_test(&vm, a, 7), Ok(1));
    assert_eq!(instance_test(&vm, a, SHAPE), Ok(0));
    let l = vm.alloc_object(Oop::Lambda(LambdaOop::new("Drawable".into())));
    assert_eq!(instance_test(&vm, l, DRAWABLE), Ok(1));
    assert_eq!(instance_test(&vm, l, SHAPE), Ok(0));
}

#[test]
fn component_descriptors() {
    assert_eq!(class_of_obj_desc("Ljava/lang/String;"), Some("java/lang/String".to_string()));
    assert_eq!(class_of_obj_desc("I"), None);
    assert_eq!(class_of_obj_desc("L"), None);
    assert_eq!(class_of_obj_desc("[I"), None);
}

#[test]
fn type_checks_report_what_is_missing() {
    let mut vm = VmThread::new(registry());
    let o = vm.alloc_fresh("Square");
    assert_eq!(
        instance_test(&vm, Reference::from_id(99), SHAPE),
        Err(VmError::BadConstant("checkcast/instanceof 引用悬空"))
    );
    assert!(instance_test(&vm, o, 1).is_err());
    let mut bare = VmThread::default();
    let l = bare.alloc_object(Oop::Array(ArrayOop::new("[I".into(), Vec::new())));
    assert_eq!(instance_test(&bare, l, SHAPE), Err(VmError::BadConstant("checkcast/instanceof 需类注册表")));
    let mut frame = Frame::new(0, 2);
    assert_eq!(instance_of(&pool(), &mut frame, &vm, SHAPE), Err(VmError::Frame(FrameError::Underflow)));
    frame.operands.push_int(1).unwrap();
    assert_eq!(check_cast(&pool(), &mut frame, &mut vm, SHAPE), Err(VmError::Frame(FrameError::TypeMismatch)));
}
