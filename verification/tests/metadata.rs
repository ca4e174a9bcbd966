//! Class files, descriptors and the class registry.

use rustj::metadata::class_file::{ClassFile, ConstantPool, ConstantPoolEntry, MethodInfo};
use rustj::metadata::class_registry::{ClassRegistry, DispatchEntry, FieldLayout, LoadedClass};
use rustj::metadata::descriptor::{parse_method_descriptor, FieldType, ReturnDescriptor};
use rustj::runtime::slot::{Reference, Slot};

fn class(name: &str, supertypes: &[&str], fields: &[(&str, &str)]) -> LoadedClass {
    LoadedClass {
        name: name.to_string(),
        super_name: supertypes.first().map(|s| s.to_string()),
        supertypes: supertypes.iter().map(|s| s.to_string()).collect(),
        module: None,
        cf: ClassFile {
            constant_pool: ConstantPool::new(Vec::new()),
            access_flags: 1,
            fields: Vec::new(),
            methods: Vec::new(),
            source_file: None,
        },
        instance_fields: fields
            .iter()
            .map(|(n, d)| FieldLayout { name: n.to_string(), descriptor: d.to_string() })
            .collect(),
        static_fields: Vec::new(),
        dispatch: Vec::new(),
    }
}

#[test]
fn constant_pool_counts_from_one() {
    let cp = ConstantPool::new(vec![
        ConstantPoolEntry::Utf8("Shape".to_string()),
        ConstantPoolEntry::Class(1),
        ConstantPoolEntry::Class(2),
    ]);
    assert!(cp.get(0).is_none());
    assert_eq!(cp.utf8(1), Some("Shape"));
    assert_eq!(cp.utf8(2), None);
    assert_eq!(cp.class_name(2), Some("Shape"));
    assert_eq!(cp.class_name(3), None);
    assert_eq!(cp.class_name(1), None);
    assert!(cp.get(4).is_none());
}

#[test]
fn method_descriptors_are_read() {
    let d = parse_method_descriptor("(IJ[[Ljava/lang/String;Z)V").unwrap();
    assert_eq!(d.parameters.len(), 4);
    assert!(matches!(d.parameters[0], FieldType::Int));
    assert!(matches!(d.parameters[1], FieldType::Long));
    assert_eq!(d.parameters[2].to_descriptor(), "[[Ljava/lang/String;");
    assert!(matches!(d.parameters[3], FieldType::Boolean));
    assert!(matches!(d.return_type, ReturnDescriptor::Void));
    let e = parse_method_descriptor("()[D").unwrap();
    assert!(e.parameters.is_empty());
    match e.return_type {
        ReturnDescriptor::FieldType(t) => assert_eq!(t.to_descriptor(), "[D"),
        other => panic!("no type: {other:?}"),
    }
}

#[test]
fn written_types_are_read_again() {
    for t in ["B", "C", "D", "F", "I", "J", "S", "Z", "Ljava/lang/Object;", "[I", "[[Lx/Y;"] {
        let d = parse_method_descriptor(&format!("({t})V")).unwrap();
        assert_eq!(d.parameters.len(), 1);
        assert_eq!(d.parameters[0].to_descriptor(), t);
    }
}

#[test]
fn malformed_descriptors_are_refused() {
    for t in ["", "I", "(", "()", "(V)V", "(I)", "()VV", "(Ljava/lang/Object)V", "([)V", "(Q)V", ")V"] {
        assert!(parse_method_descriptor(t).is_none(), "{t}");
    }
}

#[test]
fn registry_finds_classes_by_name() {
    let mut reg = ClassRegistry::new();
    assert_eq!(reg.len(), 0);
    let i = reg.load(class("Square", &["Shape", "java/lang/Object"], &[]));
    let j = reg.load(class("Shape", &["java/lang/Object"], &[]));
    assert_eq!((i, j, reg.len()), (0, 1, 2));
    assert_eq!(reg.position("Shape"), Some(1));
    assert_eq!(reg.position("Circle"), None);
    assert_eq!(reg.get("Square").map(|c| c.name.as_str()), Some("Square"));
    assert_eq!(reg.class_at(1).map(|c| c.name.as_str()), Some("Shape"));
    assert!(reg.class_at(2).is_none());
}

#[test]
fn subtypes_are_reflexive_and_follow_supertypes() {
    let mut reg = ClassRegistry::new();
    reg.load(class("Square", &["Shape", "java/lang/Object"], &[]));
    assert!(reg.is_instance("Square", "Square"));
    assert!(reg.is_instance("Square", "Shape"));
    assert!(reg.is_instance("Square", "java/lang/Object"));
    assert!(!reg.is_instance("Square", "Circle"));
    let c = reg.get("Square").unwrap();
    assert!(c.is_subtype_of("Shape"));
    assert!(!c.is_subtype_of("Circle"));
}

#[test]
fn new_instances_have_default_fields() {
    let c = class("All", &[], &[("i", "I"), ("j", "J"), ("f", "F"), ("d", "D"), ("r", "Lx/Y;"), ("a", "[I"), ("z", "Z")]);
    let o = c.new_instance();
    assert_eq!(o.class_name(), "All");
    assert_eq!(o.field_count(), 7);
    assert_eq!(o.field(0), Slot::Int(0));
    assert_eq!(o.field(1), Slot::Long(0));
    assert_eq!(o.field(2), Slot::Float(0));
    assert_eq!(o.field(3), Slot::Double(0));
    assert_eq!(o.field(4), Slot::Reference(Reference::null()));
    assert_eq!(o.field(5), Slot::Reference(Reference::null()));
    assert_eq!(o.field(6), Slot::Int(0));
}

#[test]
fn fields_are_found_by_name_and_type() {
    let mut c = class("Pair", &[], &[("x", "I"), ("x", "J"), ("y", "I")]);
    c.static_fields = vec!["count".to_string(), "limit".to_string()];
    assert_eq!(c.field_index("x"), Some(0));
    assert_eq!(c.field_index("y"), Some(2));
    assert_eq!(c.field_index("z"), None);
    assert_eq!(c.typed_field_index("x", "J"), Some(1));
    assert_eq!(c.typed_field_index("x", "D"), None);
    assert_eq!(c.static_field_index("limit"), Some(1));
    assert_eq!(c.static_field_index("x"), None);
}

fn entry_without_a_method() -> LoadedClass {
    let mut c = class("Empty", &[], &[]);
    c.dispatch = vec![DispatchEntry { name: "run".to_string(), descriptor: "()V".to_string(), class: 1, index: 0 }];
    c
}

#[test]
fn dispatch_takes_the_first_entry() {
    let mut c = class("Worker", &["java/lang/Thread"], &[]);
    c.dispatch = vec![
        DispatchEntry { name: "run".to_string(), descriptor: "()V".to_string(), class: 0, index: 3 },
        DispatchEntry { name: "run".to_string(), descriptor: "()V".to_string(), class: 1, index: 8 },
    ];
    assert_eq!(c.select("run", "()V"), Some((0, 3)));
    assert_eq!(c.select("run", "()I"), None);
    c.cf.methods = (0..4)
        .map(|_| MethodInfo { access_flags: 1, name_index: 0, descriptor_index: 0, code: None })
        .collect();
    let mut reg = ClassRegistry::new();
    reg.load(c);
    reg.load(entry_without_a_method());
    assert_eq!(reg.resolve_dispatch("Worker", "run", "()V"), Some((0, 3)));
    assert_eq!(reg.resolve_dispatch("Empty", "run", "()V"), None);
    assert_eq!(reg.resolve_dispatch("Missing", "run", "()V"), None);
}

#[test]
fn modules_of_classes() {
    let mut c = class("java/lang/Object", &[], &[]);
    c.module = Some("java.base".to_string());
    let mut reg = ClassRegistry::new();
    reg.load(c);
    reg.load(class("Main", &[], &[]));
    assert_eq!(reg.class_module("java/lang/Object"), Some("java.base".to_string()));
    assert_eq!(reg.class_module("Main"), None);
    assert_eq!(reg.class_module("Missing"), None);
}
