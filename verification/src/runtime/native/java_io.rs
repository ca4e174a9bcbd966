//! Native methods of `java.io`.

use vstd::prelude::*;

use super::java_lang::reference_outcome;
use super::registry::{Key, NativeRegistry};
use super::step::{
    done, error, get_int, get_object, get_reference, int_arg, object_arg, reference_arg, require_text, stopped,
    text_behind, throw, throws, value, NativeStep, Step,
};
use super::Native;
use crate::runtime::oop::{slot_or_top, Object, Oop};
use crate::runtime::slot::{Reference, Slot};
use crate::runtime::string::{intern, interned, read_text, text_at, text_result};
use crate::runtime::text::{begins_with, join, starts_with_char, str_eq, without_prefix};
use crate::runtime::value::{Value, VmError};
use crate::runtime::vm::{State, VmThread};

verus! {

broadcast use crate::runtime::oop::oop_variant;

/// `FileSystem.BA_EXISTS`: the file exists.
pub const BA_EXISTS: i32 = 0x01;

/// `FileSystem.BA_REGULAR`: it is a file.
pub const BA_REGULAR: i32 = 0x02;

/// `FileSystem.BA_DIRECTORY`: it is a directory.
pub const BA_DIRECTORY: i32 = 0x04;

/// `FileSystem.BA_HIDDEN`: it is hidden.
pub const BA_HIDDEN: i32 = 0x08;

/// Attribute bit of a hidden file on Windows.
pub const FILE_ATTRIBUTE_HIDDEN: u32 = 0x2;

/// The native methods of `java.io`.
#[derive(Debug, Clone, Copy, PartialEq, Eq, Structural)]
pub enum JavaIo {
    InitIds,
    GetHandle,
    GetAppend,
    Canonicalize,
    GetFinalPath,
    GetBooleanAttributes,
}

/// What was found of a file.
#[derive(Debug, Clone, Copy, PartialEq, Eq, Structural)]
pub struct FileStatus {
    pub directory: bool,
    pub hidden: bool,
}

/// The handle of a standard stream: its number; -1 without argument.
pub open spec fn stream_handle(args: Seq<Value>) -> i64 {
    match int_arg(args, 0) {
        Some(fd) => fd as i64,
        None => (-1) as i64,
    }
}

/// What `WinNTFileSystem.canonicalize0` comes to: the path to resolve, the current directory for an empty
/// one.
pub open spec fn canonicalize_step(s: State, args: Seq<Value>) -> (State, Step) {
    match text_behind(s, object_arg(args, 0)) {
        Err(e) => done(stopped(e)),
        Ok(path) => (
            s,
            Step::Canonicalize(
                if path.len() == 0 {
                    "."@
                } else {
                    path
                },
            ),
        ),
    }
}

/// The usual form of a path: without the prefix that marks a verbatim path.
pub open spec fn plain_path(s: Seq<char>) -> Seq<char> {
    if "\\\\?\\UNC\\"@.is_prefix_of(s) {
        "\\\\"@ + s.skip("\\\\?\\UNC\\"@.len() as int)
    } else if "\\\\?\\"@.is_prefix_of(s) {
        s.skip("\\\\?\\"@.len() as int)
    } else {
        s
    }
}

/// Outcome of `WinNTFileSystem.canonicalize0` for the resolved path; an `IOException` without one.
pub open spec fn canonicalized(s: State, resolved: Option<Seq<char>>) -> (State, Result<Value, VmError>) {
    match resolved {
        None => throws(s, "java/io/IOException"@),
        Some(p) => reference_outcome(interned(s, plain_path(p))),
    }
}

/// `WinNTFileSystem.getFinalPath0`: the argument itself, `null` if it is no reference.
pub open spec fn final_path(args: Seq<Value>) -> Value {
    match reference_arg(args, 0) {
        Some(r) => Value::Reference(r),
        None => Value::Reference(Reference(None)),
    }
}

/// The path of a `File`; `None` if it is no `File` or has no path.
pub open spec fn path_of_file(s: State, file: Reference) -> Result<Option<Seq<char>>, VmError> {
    match s.object(file) {
        Some(Object::Instance { class, fields }) => if class == "java/io/File"@ {
            if s.vm.registry is None {
                Err(VmError::BadConstant("file_path_text 需类注册表"))
            } else {
                match s.class("java/io/File"@) {
                    None => Err(VmError::BadConstant("file_path_text:java/io/File 须预载")),
                    Some(c) => match c.ord_of("path"@) {
                        None => Ok(None),
                        Some(ord) => match slot_or_top(fields, ord) {
                            Slot::Reference(path) => if path.0 is None {
                                Ok(None)
                            } else {
                                text_at(s, path)
                            },
                            _ => Ok(None),
                        },
                    },
                }
            }
        } else {
            Ok(None)
        },
        _ => Ok(None),
    }
}

/// What `WinNTFileSystem.getBooleanAttributes0` comes to: the path to look up; 0 without one.
pub open spec fn attributes_step(s: State, args: Seq<Value>) -> (State, Step) {
    match object_arg(args, 0) {
        None => done(value(s, Value::Int(0))),
        Some(file) => match path_of_file(s, file) {
            Err(e) => done(error(s, e)),
            Ok(None) => done(value(s, Value::Int(0))),
            Ok(Some(path)) => (s, Step::FileAttributes(path)),
        },
    }
}

/// The attribute bits of a file; 0 if it does not exist.
pub open spec fn attribute_bits(found: Option<FileStatus>) -> i32 {
    match found {
        None => 0,
        Some(f) => {
            let kind = BA_EXISTS | if f.directory {
                BA_DIRECTORY
            } else {
                BA_REGULAR
            };
            if f.hidden {
                kind | BA_HIDDEN
            } else {
                kind
            }
        },
    }
}

/// What a native method of `java.io` comes to.
pub open spec fn outcome(s: State, native: JavaIo, args: Seq<Value>) -> (State, Step) {
    match native {
        JavaIo::InitIds => done(value(s, Value::Void)),
        JavaIo::GetHandle => done(value(s, Value::Long(stream_handle(args)))),
        JavaIo::GetAppend => done(value(s, Value::Int(0))),
        JavaIo::Canonicalize => canonicalize_step(s, args),
        JavaIo::GetFinalPath => done(value(s, final_path(args))),
        JavaIo::GetBooleanAttributes => attributes_step(s, args),
    }
}

fn get_handle(args: &[Value]) -> (r: i64)
    ensures
        r == stream_handle(args@),
{
    match get_int(args, 0) {
        Some(fd) => fd as i64,
        None => -1,
    }
}

/// `WinNTFileSystem.canonicalize0`, up to the file system.
pub fn canonicalize0(vm: &mut VmThread, args: &[Value]) -> (r: NativeStep)
    ensures
        (final(vm)@, r@) == canonicalize_step(old(vm)@, args@),
{
    match require_text(vm, get_object(args, 0)) {
        Err(e) => NativeStep::Done(Err(e)),
        Ok(path) => if path.as_str().unicode_len() == 0 {
            NativeStep::Canonicalize(".".to_owned())
        } else {
            NativeStep::Canonicalize(path)
        },
    }
}

/// `WinNTFileSystem.canonicalize0`, with what the file system resolved the path to.
pub fn finish_canonicalize(vm: &mut VmThread, resolved: Option<&str>) -> (r: Result<Value, VmError>)
    ensures
        (final(vm)@, r) == canonicalized(
            old(vm)@,
            match resolved {
                Some(p) => Some(p@),
                None => None,
            },
        ),
{
    match resolved {
        None => throw(vm, "java/io/IOException"),
        Some(p) => {
            let plain: String = strip_verbatim_prefix(p);
            match intern(vm, plain.as_str()) {
                Ok(r) => Ok(Value::Reference(r)),
                Err(e) => Err(e),
            }
        },
    }
}

/// A path without the prefix that marks a verbatim path: `\\?\C:\…` becomes `C:\…`, `\\?\UNC\server\…`
/// becomes `\\server\…`.
pub fn strip_verbatim_prefix(s: &str) -> (r: String)
    ensures
        r@ == plain_path(s@),
{
    match without_prefix(s, "\\\\?\\UNC\\") {
        Some(rest) => {
            assert(s@.skip("\\\\?\\UNC\\"@.len() as int) =~= rest@);
            return join("\\\\", rest.as_str());
        },
        None => {},
    }
    match without_prefix(s, "\\\\?\\") {
        Some(rest) => {
            assert(s@.skip("\\\\?\\"@.len() as int) =~= rest@);
            rest
        },
        None => s.to_owned(),
    }
}

fn get_final_path_0(args: &[Value]) -> (r: Value)
    ensures
        r == final_path(args@),
{
    match get_reference(args, 0) {
        Some(r) => Value::Reference(r),
        None => Value::Reference(Reference(None)),
    }
}

/// The path of a `File`; `None` if it is no `File` or has no path.
pub fn file_path_text(vm: &VmThread, file_ref: Reference) -> (r: Result<Option<String>, VmError>)
    ensures
        text_result(r) == path_of_file(vm@, file_ref),
{
    match vm.heap().get(file_ref) {
        Some(Oop::Instance(i)) => {
            if !str_eq(i.class_name(), "java/io/File") {
                return Ok(None);
            }
            match vm.registry() {
                None => Err(VmError::BadConstant("file_path_text 需类注册表")),
                Some(reg) => match reg.get("java/io/File") {
                    None => Err(VmError::BadConstant("file_path_text:java/io/File 须预载")),
                    Some(c) => match c.field_index("path") {
                        None => Ok(None),
                        Some(ord) => match i.field(ord) {
                            Slot::Reference(path) => if path.is_null() {
                                Ok(None)
                            } else {
                                read_text(vm, path)
                            },
                            _ => Ok(None),
                        },
                    },
                },
            }
        },
        _ => Ok(None),
    }
}

/// `WinNTFileSystem.getBooleanAttributes0`, up to the file system.
pub fn get_boolean_attributes_0(vm: &VmThread, args: &[Value]) -> (r: NativeStep)
    ensures
        (vm@, r@) == attributes_step(vm@, args@),
{
    match get_object(args, 0) {
        None => NativeStep::Done(Ok(Value::Int(0))),
        Some(file) => match file_path_text(vm, file) {
            Err(e) => NativeStep::Done(Err(e)),
            Ok(None) => NativeStep::Done(Ok(Value::Int(0))),
            Ok(Some(path)) => NativeStep::FileAttributes(path),
        },
    }
}

/// `WinNTFileSystem.getBooleanAttributes0`, with what the file system found; `None` if there is no such file.
pub fn boolean_attributes(found: Option<FileStatus>) -> (r: Value)
    ensures
        r == Value::Int(attribute_bits(found)),
{
    match found {
        None => Value::Int(0),
        Some(f) => {
            let kind: i32 = BA_EXISTS | if f.directory {
                BA_DIRECTORY
            } else {
                BA_REGULAR
            };
            if f.hidden {
                Value::Int(kind | BA_HIDDEN)
            } else {
                Value::Int(kind)
            }
        },
    }
}

/// Whether a file with this name is hidden where a leading dot says so; a path without a file name is not.
pub fn hidden_by_name(name: Option<&str>) -> (r: bool)
    ensures
        r == (name matches Some(n) && begins_with(n@, '.')),
{
    match name {
        Some(n) => starts_with_char(n, '.'),
        None => false,
    }
}

/// Whether a file with these attributes is hidden where an attribute bit says so.
pub fn hidden_by_attributes(attributes: u32) -> (r: bool)
    ensures
        r == (attributes & FILE_ATTRIBUTE_HIDDEN != 0),
{
    attributes & FILE_ATTRIBUTE_HIDDEN != 0
}

/// Runs a native method of `java.io`.
pub fn run(vm: &mut VmThread, native: JavaIo, args: &[Value]) -> (r: NativeStep)
    ensures
        (final(vm)@, r@) == outcome(old(vm)@, native, args@),
{
    match native {
        JavaIo::InitIds => NativeStep::Done(Ok(Value::Void)),
        JavaIo::GetHandle => NativeStep::Done(Ok(Value::Long(get_handle(args)))),
        JavaIo::GetAppend => NativeStep::Done(Ok(Value::Int(0))),
        JavaIo::Canonicalize => canonicalize0(vm, args),
        JavaIo::GetFinalPath => NativeStep::Done(Ok(get_final_path_0(args))),
        JavaIo::GetBooleanAttributes => get_boolean_attributes_0(vm, args),
    }
}

/// The bindings of a registry after the native methods of `java.io` were added.
pub open spec fn registered(m: Map<Key, Native>) -> Map<Key, Native> {
    m.insert(
        ("java/io/WinNTFileSystem"@, "initIDs"@, "()V"@),
        Native::JavaIo(JavaIo::InitIds),
    ).insert(
        ("java/io/FileDescriptor"@, "initIDs"@, "()V"@),
        Native::JavaIo(JavaIo::InitIds),
    ).insert(
        ("java/io/FileDescriptor"@, "getHandle"@, "(I)J"@),
        Native::JavaIo(JavaIo::GetHandle),
    ).insert(
        ("java/io/FileDescriptor"@, "getAppend"@, "(I)Z"@),
        Native::JavaIo(JavaIo::GetAppend),
    ).insert(
        ("java/io/WinNTFileSystem"@, "canonicalize0"@, "(Ljava/lang/String;)Ljava/lang/String;"@),
        Native::JavaIo(JavaIo::Canonicalize),
    ).insert(
        ("java/io/WinNTFileSystem"@, "getFinalPath0"@, "(Ljava/lang/String;)Ljava/lang/String;"@),
        Native::JavaIo(JavaIo::GetFinalPath),
    ).insert(
        ("java/io/WinNTFileSystem"@, "getBooleanAttributes0"@, "(Ljava/io/File;)I"@),
        Native::JavaIo(JavaIo::GetBooleanAttributes),
    )
}

/// Binds the native methods of `java.io`.
pub fn register(reg: &mut NativeRegistry<Native>)
    ensures
        final(reg)@ == registered(old(reg)@),
{
    reg.register(
        "java/io/WinNTFileSystem",
        "initIDs",
        "()V",
        Native::JavaIo(JavaIo::InitIds),
    );
    reg.register(
        "java/io/FileDescriptor",
        "initIDs",
        "()V",
        Native::JavaIo(JavaIo::InitIds),
    );
    reg.register(
        "java/io/FileDescriptor",
        "getHandle",
        "(I)J",
        Native::JavaIo(JavaIo::GetHandle),
    );
    reg.register(
        "java/io/FileDescriptor",
        "getAppend",
        "(I)Z",
        Native::JavaIo(JavaIo::GetAppend),
    );
    reg.register(
        "java/io/WinNTFileSystem",
        "canonicalize0",
        "(Ljava/lang/String;)Ljava/lang/String;",
        Native::JavaIo(JavaIo::Canonicalize),
    );
    reg.register(
        "java/io/WinNTFileSystem",
        "getFinalPath0",
        "(Ljava/lang/String;)Ljava/lang/String;",
        Native::JavaIo(JavaIo::GetFinalPath),
    );
    reg.register(
        "java/io/WinNTFileSystem",
        "getBooleanAttributes0",
        "(Ljava/io/File;)I",
        Native::JavaIo(JavaIo::GetBooleanAttributes),
    );
}

/// A path without the verbatim prefix stays as it is; a verbatim path loses exactly the prefix.
pub proof fn law_plain_path(s: Seq<char>)
    ensures
        !"\\\\?\\"@.is_prefix_of(s) ==> plain_path(s) == s,
        !"UNC\\"@.is_prefix_of(s) ==> plain_path("\\\\?\\"@ + s) == s,
        plain_path("\\\\?\\UNC\\"@ + s) == "\\\\"@ + s,
{
    reveal_strlit("\\\\?\\UNC\\");
    reveal_strlit("\\\\?\\");
    reveal_strlit("UNC\\");
    let long = "\\\\?\\UNC\\"@;
    let short = "\\\\?\\"@;
    let unc = "UNC\\"@;
    assert(long =~= short + unc);
    if !short.is_prefix_of(s) {
        if long.is_prefix_of(s) {
            assert(s.subrange(0, short.len() as int) =~= s.subrange(0, long.len() as int).subrange(
                0,
                short.len() as int,
            ));
            assert(short =~= long.subrange(0, short.len() as int));
            assert(short.is_prefix_of(s));
        }
    }
    if !unc.is_prefix_of(s) {
        let v = short + s;
        assert(short =~= v.subrange(0, short.len() as int));
        assert(v.skip(short.len() as int) =~= s);
        if long.is_prefix_of(v) {
            assert(unc =~= long.subrange(short.len() as int, long.len() as int));
            assert(unc =~= s.subrange(0, unc.len() as int));
            assert(unc.is_prefix_of(s));
        }
    }
    let w = long + s;
    assert(long =~= w.subrange(0, long.len() as int));
    assert(w.skip(long.len() as int) =~= s);
}

/// A file is a directory or a regular file, never both; one that does not exist has no bit set.
pub proof fn law_attribute_bits(f: FileStatus)
    ensures
        attribute_bits(None) == 0,
        attribute_bits(Some(f)) & BA_EXISTS != 0,
        (attribute_bits(Some(f)) & BA_DIRECTORY != 0) == f.directory,
        (attribute_bits(Some(f)) & BA_REGULAR != 0) == !f.directory,
        (attribute_bits(Some(f)) & BA_HIDDEN != 0) == f.hidden,
{
    assert((0x01i32 | 0x04i32) & 0x01i32 != 0 && (0x01i32 | 0x04i32) & 0x04i32 != 0 && (0x01i32 | 0x04i32) & 0x02i32
        == 0 && (0x01i32 | 0x04i32) & 0x08i32 == 0) by (bit_vector);
    assert((0x01i32 | 0x02i32) & 0x01i32 != 0 && (0x01i32 | 0x02i32) & 0x04i32 == 0 && (0x01i32 | 0x02i32) & 0x02i32
        != 0 && (0x01i32 | 0x02i32) & 0x08i32 == 0) by (bit_vector);
    assert(((0x01i32 | 0x04i32) | 0x08i32) & 0x01i32 != 0 && ((0x01i32 | 0x04i32) | 0x08i32) & 0x04i32 != 0 && ((
    0x01i32 | 0x04i32) | 0x08i32) & 0x02i32 == 0 && ((0x01i32 | 0x04i32) | 0x08i32) & 0x08i32 != 0) by (bit_vector);
    assert(((0x01i32 | 0x02i32) | 0x08i32) & 0x01i32 != 0 && ((0x01i32 | 0x02i32) | 0x08i32) & 0x04i32 == 0 && ((
    0x01i32 | 0x02i32) | 0x08i32) & 0x02i32 != 0 && ((0x01i32 | 0x02i32) | 0x08i32) & 0x08i32 != 0) by (bit_vector);
}

} // verus!
