//! What the native methods of `java.io` and of the library loader hand out and answer.

use vstd::prelude::*;

use super::java_io::{self, attribute_bits, canonicalized, FileStatus, JavaIo};
use super::jdk_internal_loader::{self, library_loaded, JdkInternalLoader};
use super::lang_laws::{giving, plain, raising};
use super::step::Step;
use crate::runtime::oop::Object;
use crate::runtime::slot::{Reference, Slot};
use crate::runtime::string::{interned, text_at};
use crate::runtime::value::{Value, VmError};
use crate::runtime::vm::mirror_laws::named_write_read;
use crate::runtime::vm::mirrors::{int_field, named_field, named_field_written, reference_field};
use crate::runtime::vm::State;

verus! {

/// A library is loaded by its path, a built-in one from the process itself; whether it has to succeed is handed on.
/// Unloading does nothing for a built-in library and hands the handle out for any other; a symbol is looked up by its
/// name in the library with the handle.
pub proof fn law_library_requests(
    s: State,
    library: Reference,
    name: Reference,
    text: Seq<char>,
    builtin: i32,
    must: i32,
    handle: i64,
)
    requires
        text_at(s, name) == Ok::<Option<Seq<char>>, VmError>(Some(text)),
    ensures
        jdk_internal_loader::outcome(
            s,
            JdkInternalLoader::Load,
            seq![Value::Reference(library), Value::Reference(name), Value::Int(builtin), Value::Int(must)],
        ) == (
            s,
            Step::LoadLibrary(
                library,
                if builtin == 0 {
                    Some(text)
                } else {
                    None
                },
                must != 0,
            ),
        ),
        jdk_internal_loader::outcome(
            s,
            JdkInternalLoader::Unload,
            seq![Value::Reference(name), Value::Int(builtin), Value::Long(handle)],
        ) == if builtin == 0 {
            (s, Step::UnloadLibrary(handle))
        } else {
            plain(s, Value::Void)
        },
        jdk_internal_loader::outcome(
            s,
            JdkInternalLoader::FindEntry,
            seq![Value::Long(handle), Value::Reference(name)],
        ) == (s, Step::FindSymbol(handle, text)),
        jdk_internal_loader::outcome(s, JdkInternalLoader::FindBuiltinLib, seq![Value::Reference(name)]) == plain(
            s,
            Value::Reference(Reference(None)),
        ),
{
}

/// A library that was loaded has its handle and the JNI version 1.1, and the answer is true; one that could not be loaded
/// is an `UnsatisfiedLinkError` if it had to succeed, and the answer false otherwise.
pub proof fn law_loaded_libraries(s: State, library: Reference, class: Seq<char>, must: bool, handle: i64)
    requires
        s.object(library) matches Some(Object::Instance { class: c, .. }) && c == class,
        s.class(class) matches Some(c) && s.object(library)->0->fields.len() == c.instance_fields@.len() && c.ord_of(
            "handle"@,
        ) is Some && c.ord_of("jniVersion"@) is Some,
    ensures
        ({
            let (t, r) = library_loaded(s, library, must, handle);
            &&& handle != 0 ==> r == Ok::<Value, VmError>(Value::Int(1)) && named_field(t, library, class, "handle"@)
                == Some(Slot::Long(handle)) && int_field(t, library, class, "jniVersion"@) == Some(0x0001_0001i32)
            &&& handle == 0 && !must ==> t == s && r == Ok::<Value, VmError>(Value::Int(0))
            &&& handle == 0 && must ==> (t, Step::Done(r)) == raising(s, "java/lang/UnsatisfiedLinkError"@)
        }),
{
    reveal_strlit("handle");
    reveal_strlit("jniVersion");
    assert("handle"@.len() == 6 && "jniVersion"@.len() == 10);
    let c = s.class(class)->0;
    if handle != 0 {
        let s1 = named_field_written(s, library, class, "handle"@, Slot::Long(handle));
        named_write_read(s, library, class, c, "handle"@, Slot::Long(handle), "jniVersion"@);
        named_write_read(s1, library, class, c, "jniVersion"@, Slot::Int(0x0001_0001), "handle"@);
    }
}

/// The handle of a standard stream is its number, and nothing is appended to.
pub proof fn law_streams(s: State, fd: i32, args: Seq<Value>)
    ensures
        java_io::outcome(s, JavaIo::GetHandle, seq![Value::Int(fd)]) == plain(s, Value::Long(fd as i64)),
        java_io::outcome(s, JavaIo::GetAppend, args) == plain(s, Value::Int(0)),
        java_io::outcome(s, JavaIo::InitIds, args) == plain(s, Value::Void),
{
}

/// A path is resolved outside, the current directory for an empty one; what it was resolved to comes back as an interned
/// string, without the prefix of a verbatim path, and an `IOException` if it could not be resolved. The final path of a
/// path is the path.
pub proof fn law_paths(s: State, name: Reference, text: Seq<char>, path: Seq<char>)
    requires
        name.0 is Some,
        text_at(s, name) == Ok::<Option<Seq<char>>, VmError>(Some(text)),
    ensures
        java_io::outcome(s, JavaIo::Canonicalize, seq![Value::Reference(name)]) == (
            s,
            Step::Canonicalize(
                if text.len() == 0 {
                    "."@
                } else {
                    text
                },
            ),
        ),
        java_io::outcome(s, JavaIo::Canonicalize, seq![Value::Reference(Reference(None))]) == raising(
            s,
            "java/lang/NullPointerException"@,
        ),
        java_io::outcome(s, JavaIo::GetFinalPath, seq![Value::Reference(name)]) == plain(s, Value::Reference(name)),
        (canonicalized(s, None).0, Step::Done(canonicalized(s, None).1)) == raising(s, "java/io/IOException"@),
        !"\\\\?\\"@.is_prefix_of(path) ==> (canonicalized(s, Some(path)).0, Step::Done(canonicalized(s, Some(path)).1))
            == giving(interned(s, path)),
        ({
            let verbatim = canonicalized(s, Some("\\\\?\\"@ + path));
            !"UNC\\"@.is_prefix_of(path) ==> (verbatim.0, Step::Done(verbatim.1)) == giving(interned(s, path))
        }),
        ({
            let share = canonicalized(s, Some("\\\\?\\UNC\\"@ + path));
            (share.0, Step::Done(share.1)) == giving(interned(s, "\\\\"@ + path))
        }),
{
    java_io::law_plain_path(path);
}

/// The attributes of a `File` are looked up by its path; there are none for anything else. A file that exists has bit 1,
/// and bit 2 if it is a file, 4 if it is a directory, 8 if it is hidden.
pub proof fn law_file_attributes(s: State, file: Reference, path: Reference, text: Seq<char>, found: FileStatus)
    requires
        s.object(file) matches Some(Object::Instance { class, .. }) && class == "java/io/File"@,
        reference_field(s, file, "java/io/File"@, "path"@) == Some(path),
        path.0 is Some,
        text_at(s, path) == Ok::<Option<Seq<char>>, VmError>(Some(text)),
    ensures
        java_io::outcome(s, JavaIo::GetBooleanAttributes, seq![Value::Reference(file)]) == (
            s,
            Step::FileAttributes(text),
        ),
        java_io::outcome(s, JavaIo::GetBooleanAttributes, seq![Value::Reference(Reference(None))]) == plain(
            s,
            Value::Int(0),
        ),
        attribute_bits(None) == 0,
        attribute_bits(Some(found)) == 1 + (if found.directory {
            4int
        } else {
            2int
        }) + (if found.hidden {
            8int
        } else {
            0int
        }),
{
    assert((0x01i32 | 0x04i32) == 5 && (0x01i32 | 0x02i32) == 3 && ((0x01i32 | 0x04i32) | 0x08i32) == 13 && ((0x01i32
        | 0x02i32) | 0x08i32) == 11) by (bit_vector);
}

/// Without its arguments a request to the library loader is a `NullPointerException`, a stream has the handle -1, the
/// final path is `null`, and there are no attributes.
pub proof fn law_missing_requests(s: State, args: Seq<Value>)
    ensures
        ({
            let none = Seq::<Value>::empty();
            let missing = raising(s, "java/lang/NullPointerException"@);
            &&& jdk_internal_loader::outcome(s, JdkInternalLoader::Load, none) == missing
            &&& jdk_internal_loader::outcome(s, JdkInternalLoader::Unload, none) == missing
            &&& jdk_internal_loader::outcome(s, JdkInternalLoader::FindEntry, none) == missing
            &&& java_io::outcome(s, JavaIo::GetHandle, none) == plain(s, Value::Long((-1) as i64))
            &&& java_io::outcome(s, JavaIo::GetFinalPath, none) == plain(s, Value::Reference(Reference(None)))
            &&& java_io::outcome(s, JavaIo::GetBooleanAttributes, none) == plain(s, Value::Int(0))
            &&& java_io::outcome(s, JavaIo::Canonicalize, none) == missing
        }),
        jdk_internal_loader::outcome(s, JdkInternalLoader::SetBootLoaderUnnamedModule, args) == plain(s, Value::Void),
{
}

/// A name without a text is a `NullPointerException` for what has to load, look up or resolve it, and is not looked at
/// when a library is unloaded; a text that cannot be read yet stops each of them with that error and without change.
pub proof fn law_names_without_text(
    s: State,
    library: Reference,
    name: Reference,
    builtin: i32,
    must: i32,
    handle: i64,
    e: VmError,
)
    requires
        name.0 is Some,
    ensures
        ({
            let load = jdk_internal_loader::outcome(
                s,
                JdkInternalLoader::Load,
                seq![Value::Reference(library), Value::Reference(name), Value::Int(builtin), Value::Int(must)],
            );
            let unload = jdk_internal_loader::outcome(
                s,
                JdkInternalLoader::Unload,
                seq![Value::Reference(name), Value::Int(builtin), Value::Long(handle)],
            );
            let find = jdk_internal_loader::outcome(
                s,
                JdkInternalLoader::FindEntry,
                seq![Value::Long(handle), Value::Reference(name)],
            );
            let resolve = java_io::outcome(s, JavaIo::Canonicalize, seq![Value::Reference(name)]);
            let missing = raising(s, "java/lang/NullPointerException"@);
            let stop = (s, Step::Done(Err::<Value, VmError>(e)));
            &&& text_at(s, name) == Ok::<Option<Seq<char>>, VmError>(None) ==> load == missing && find == missing
                && resolve == missing && unload == if builtin == 0 {
                (s, Step::UnloadLibrary(handle))
            } else {
                plain(s, Value::Void)
            }
            &&& text_at(s, name) == Err::<Option<Seq<char>>, VmError>(e) ==> load == stop && find == stop && resolve
                == stop && unload == stop
        }),
{
}

/// What is not an instance, or lacks one of the two fields, cannot take a handle, which is named, and nothing changes.
pub proof fn law_libraries_that_take_no_handle(s: State, library: Reference, must: bool, handle: i64)
    requires
        handle != 0,
    ensures
        ({
            let r = library_loaded(s, library, must, handle);
            match s.object(library) {
                Some(Object::Instance { class, .. }) => {
                    &&& s.field_ord(class, "handle"@) is None ==> r == (
                        s,
                        Err::<Value, VmError>(VmError::BadConstant("NativeLibraryImpl:缺 handle 字段")),
                    )
                    &&& s.field_ord(class, "handle"@) is Some && s.field_ord(class, "jniVersion"@) is None ==> r == (
                        s,
                        Err::<Value, VmError>(VmError::BadConstant("NativeLibraryImpl:缺 jniVersion 字段")),
                    )
                },
                _ => r == (s, Err::<Value, VmError>(VmError::BadConstant("NativeLibraryImpl:非实例"))),
            }
        }),
{
}

/// There are no attributes for what is no `File` and for a `File` without a path; without the classes, and with a path
/// that cannot be read yet, the request stops with an error and without change.
pub proof fn law_files_without_attributes(s: State, file: Reference, path: Reference, e: VmError)
    requires
        file.0 is Some,
    ensures
        ({
            let r = java_io::outcome(s, JavaIo::GetBooleanAttributes, seq![Value::Reference(file)]);
            let class = "java/io/File"@;
            let is_file = s.object(file) matches Some(Object::Instance { class: c, .. }) && c == class;
            &&& !is_file ==> r == plain(s, Value::Int(0))
            &&& is_file && s.vm.registry is None ==> r == (
                s,
                Step::Done(Err::<Value, VmError>(VmError::BadConstant("file_path_text 需类注册表"))),
            )
            &&& is_file && s.vm.registry is Some && s.class(class) is None ==> r == (
                s,
                Step::Done(Err::<Value, VmError>(VmError::BadConstant("file_path_text:java/io/File 须预载"))),
            )
            &&& is_file && s.class(class) is Some && s.class(class)->0.ord_of("path"@) is None ==> r == plain(
                s,
                Value::Int(0),
            )
            &&& is_file && reference_field(s, file, class, "path"@) == Some(Reference(None)) ==> r == plain(
                s,
                Value::Int(0),
            )
            &&& is_file && path.0 is Some && reference_field(s, file, class, "path"@) == Some(path) && text_at(s, path)
                == Err::<Option<Seq<char>>, VmError>(e) ==> r == (s, Step::Done(Err::<Value, VmError>(e)))
            &&& is_file && path.0 is Some && reference_field(s, file, class, "path"@) == Some(path) && text_at(s, path)
                == Ok::<Option<Seq<char>>, VmError>(None) ==> r == plain(s, Value::Int(0))
        }),
{
}

} // verus!
