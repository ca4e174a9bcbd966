//! Texts, the string pool and Java strings.

use rustj::metadata::class_file::{ClassFile, ConstantPool};
use rustj::metadata::class_registry::{ClassRegistry, FieldLayout, LoadedClass};
use rustj::runtime::oop::Oop;
use rustj::runtime::slot::{Reference, Slot};
use rustj::runtime::string::{build, intern, read_text};
use rustj::runtime::string_pool::StringPool;
use rustj::runtime::text::{chars_of, decimal_text, join, replace_char, slice, starts_with_char, without_prefix};
use rustj::runtime::utf16::{decode, encode, utf16_len};
use rustj::runtime::value::VmError;
use rustj::runtime::vm::VmThread;

fn class(name: &str, fields: &[(&str, &str)]) -> LoadedClass {
    LoadedClass {
        name: name.to_string(),
        super_name: None,
        supertypes: Vec::new(),
        module: None,
        cf: ClassFile {
            constant_pool: ConstantPool::new(Vec::new()),
            access_flags: 1,
            fields: Vec::new(),
            methods: Vec::new(),
            source_file: None,
        },
        instance_fields: fields
            .iter()
            .map(|(n, d)| FieldLayout { name: n.to_string(), descriptor: d.to_string() })
            .collect(),
        static_fields: Vec::new(),
        dispatch: Vec::new(),
    }
}

fn string_vm() -> VmThread {
    let mut reg = ClassRegistry::new();
    reg.load(class("java/lang/String", &[("hash", "I"), ("value", "[B"), ("coder", "B")]));
    let mut vm = VmThread::new(reg);
    vm.mark_initialized("java/lang/String");
    vm
}

#[test]
fn get_miss_returns_none() {
    let pool = StringPool::new();
    assert!(pool.get("hi").is_none());
}

#[test]
fn insert_then_get_hits() {
    let mut pool = StringPool::new();
    let r = Reference::from_id(7);
    pool.insert("hi".to_string(), r);
    assert_eq!(pool.get("hi"), Some(&r));
}

#[test]
fn distinct_text_distinct_entry() {
    let mut pool = StringPool::new();
    let a = Reference::from_id(0);
    let b = Reference::from_id(1);
    pool.insert("a".to_string(), a);
    pool.insert("b".to_string(), b);
    assert_eq!(pool.get("a"), Some(&a));
    assert_eq!(pool.get("b"), Some(&b));
}

#[test]
fn default_pool_is_empty() {
    assert!(StringPool::default().get("").is_none());
}

#[test]
fn encode_ascii_is_latin1() {
    let (bytes, coder) = encode("abc");
    assert_eq!(coder, 0);
    assert_eq!(bytes, vec![b'a', b'b', b'c']);
}

#[test]
fn encode_supplementary_is_utf16() {
    let (bytes, coder) = encode("𝄞");
    assert_eq!(coder, 1);
    assert_eq!(bytes, vec![0xD8, 0x34, 0xDD, 0x1E]);
}

#[test]
fn encode_high_latin1_stays_latin1() {
    let (bytes, coder) = encode("ÿ");
    assert_eq!(coder, 0);
    assert_eq!(bytes, vec![0xFF]);
}

#[test]
fn decode_undoes_encode() {
    for text in ["", "abc", "ÿ", "Ā", "中文 mixed", "𝄞 clef", "\u{10FFFF}"] {
        let (bytes, coder) = encode(text);
        assert_eq!(decode(&bytes, coder), text);
    }
}

#[test]
fn lone_surrogates_decode_to_the_replacement() {
    assert_eq!(decode(&vec![0xD8, 0x34, 0x00, 0x41], 1), "\u{FFFD}A");
    assert_eq!(decode(&vec![0xDD, 0x1E], 1), "\u{FFFD}");
    assert_eq!(decode(&vec![0xD8, 0x34], 1), "\u{FFFD}");
}

#[test]
fn utf16_length_counts_code_units() {
    assert_eq!(utf16_len("abc"), 3);
    assert_eq!(utf16_len("𝄞"), 2);
    assert_eq!(utf16_len(""), 0);
}

#[test]
fn text_helpers() {
    assert_eq!(chars_of("aé"), vec!['a', 'é']);
    assert_eq!(replace_char("java/lang/Object", '/', '.'), "java.lang.Object");
    assert!(starts_with_char("[I", '['));
    assert!(!starts_with_char("", '['));
    assert_eq!(slice("Ljava/lang/Object;", 1, 17), "java/lang/Object");
    assert_eq!(without_prefix("libnet.so", "lib"), Some("net.so".to_string()));
    assert_eq!(without_prefix("net.so", "lib"), None);
    assert_eq!(join("ab", "cd"), "abcd");
    assert_eq!(decimal_text(0), "0");
    assert_eq!(decimal_text(18446744073709551615), "18446744073709551615");
}

#[test]
fn built_string_reads_back() {
    let mut vm = string_vm();
    for text in ["hello", "中文", ""] {
        let r = build(&mut vm, text).unwrap();
        assert_eq!(read_text(&vm, r), Ok(Some(text.to_string())));
    }
}

#[test]
fn built_string_holds_bytes_and_coder() {
    let mut vm = string_vm();
    let r = build(&mut vm, "ÿ").unwrap();
    match vm.heap().get(r) {
        Some(Oop::Instance(i)) => {
            assert_eq!(i.class_name(), "java/lang/String");
            assert_eq!(i.field(2), Slot::Int(0));
            match i.field(1) {
                Slot::Reference(value) => match vm.heap().get(value) {
                    Some(Oop::Array(a)) => {
                        assert_eq!(a.class_name(), "[B");
                        assert_eq!(a.element(0), Slot::Int(-1));
                    }
                    other => panic!("no array: {other:?}"),
                },
                other => panic!("no reference: {other:?}"),
            }
        }
        other => panic!("no instance: {other:?}"),
    }
}

#[test]
fn interned_strings_are_shared() {
    let mut vm = string_vm();
    let a = intern(&mut vm, "same").unwrap();
    let b = intern(&mut vm, "same").unwrap();
    let c = build(&mut vm, "same").unwrap();
    assert_eq!(a, b);
    assert_ne!(a, c);
    assert_eq!(vm.pooled("same"), Some(a));
    assert_eq!(read_text(&vm, c), Ok(Some("same".to_string())));
}

#[test]
fn strings_need_the_string_class() {
    let mut none = VmThread::default();
    assert_eq!(build(&mut none, "x"), Err(VmError::BadConstant("构造 String 需类注册表")));
    let mut empty = VmThread::new(ClassRegistry::new());
    assert_eq!(
        build(&mut empty, "x"),
        Err(VmError::BadConstant("java/lang/String 未加载(原始类须预载)"))
    );
    let mut reg = ClassRegistry::new();
    reg.load(class("java/lang/String", &[("value", "[B"), ("coder", "B")]));
    let mut fresh = VmThread::new(reg);
    assert_eq!(build(&mut fresh, "x"), Err(VmError::InitializerPending(0)));
    let mut reg = ClassRegistry::new();
    reg.load(class("java/lang/String", &[("value", "[C"), ("coder", "B")]));
    let mut old = VmThread::new(reg);
    old.mark_initialized("java/lang/String");
    assert_eq!(build(&mut old, "x"), Err(VmError::BadConstant("String.value 字段未找到")));
    let mut reg = ClassRegistry::new();
    reg.load(class("java/lang/String", &[("value", "[B")]));
    let mut bare = VmThread::new(reg);
    bare.mark_initialized("java/lang/String");
    assert_eq!(build(&mut bare, "x"), Err(VmError::BadConstant("String.coder 字段未找到")));
}

#[test]
fn only_strings_have_a_text() {
    let mut vm = string_vm();
    assert_eq!(read_text(&vm, Reference::null()), Ok(None));
    let other = vm.alloc_object(Oop::Instance(rustj::runtime::oop::InstanceOop::new("Other".to_string(), Vec::new())));
    assert_eq!(read_text(&vm, other), Ok(None));
}
