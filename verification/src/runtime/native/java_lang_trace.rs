//! `StackTraceElement.initStackTraceElements`.

use vstd::prelude::*;

use crate::metadata::class_registry::LoadedClass;
use crate::runtime::oop::{slot_or_top, Object, Oop};
use crate::runtime::slot::{Reference, Slot};
use crate::runtime::string::{held_up, intern, interned};
use crate::runtime::text::{replace_char, replaced};
use crate::runtime::value::VmError;
use crate::runtime::vm::exceptions::{info_of, source_of};
use crate::runtime::vm::mirrors::class_mirror;
use crate::runtime::vm::{frames_view, CallFrame, FrameInfo, State, VmThread};

verus! {

broadcast use crate::runtime::oop::oop_variant;

/// Positions of the fields of a `StackTraceElement`.
#[derive(Debug, Clone, Copy, PartialEq, Eq, Structural)]
pub struct ElementOrds {
    pub declaring_class: usize,
    pub method_name: usize,
    pub file_name: usize,
    pub line_number: usize,
    pub declaring_class_object: usize,
}

/// Positions of the fields of a `StackTraceElement`, or the error for the first one that is missing.
pub open spec fn element_ords(s: State) -> Result<ElementOrds, VmError> {
    if s.vm.registry is None {
        Err(VmError::BadConstant("initStackTraceElements 需注册表"))
    } else {
        match s.class("java/lang/StackTraceElement"@) {
            None => Err(VmError::BadConstant("StackTraceElement 未预载")),
            Some(c) => match c.typed_ord_of("declaringClass"@, "Ljava/lang/String;"@) {
                None => Err(VmError::BadConstant("STE.declaringClass 未找到")),
                Some(dc) => match c.typed_ord_of("methodName"@, "Ljava/lang/String;"@) {
                    None => Err(VmError::BadConstant("STE.methodName 未找到")),
                    Some(mn) => match c.typed_ord_of("fileName"@, "Ljava/lang/String;"@) {
                        None => Err(VmError::BadConstant("STE.fileName 未找到")),
                        Some(fname) => match c.typed_ord_of("lineNumber"@, "I"@) {
                            None => Err(VmError::BadConstant("STE.lineNumber 未找到")),
                            Some(ln) => match c.typed_ord_of("declaringClassObject"@, "Ljava/lang/Class;"@) {
                                None => Err(VmError::BadConstant("STE.declaringClassObject 未找到")),
                                Some(dco) => Ok(
                                    ElementOrds {
                                        declaring_class: dc as usize,
                                        method_name: mn as usize,
                                        file_name: fname as usize,
                                        line_number: ln as usize,
                                        declaring_class_object: dco as usize,
                                    },
                                ),
                            },
                        },
                    },
                },
            },
        }
    }
}

/// The element that stands at `i` of the array, if it is a reference.
pub open spec fn element_at(s: State, elements: Reference, i: int) -> Option<Reference> {
    match s.object(elements) {
        Some(Object::Array { elements: es, .. }) => match slot_or_top(es, i) {
            Slot::Reference(r) => Some(r),
            _ => None,
        },
        _ => None,
    }
}

/// The fields of one element for the frame `f`: class in dotted form, method, file if known, line and class
/// mirror.
pub open spec fn element_filled(s: State, element: Reference, f: FrameInfo, ords: ElementOrds) -> (
    State,
    Result<(), VmError>,
) {
    let source = source_of(s, f);
    match interned(s, replaced(f.class, '/', '.')) {
        (s1, Err(e)) => (s1, Err(e)),
        (s1, Ok(dc)) => match interned(s1, f.method) {
            (s2, Err(e)) => (s2, Err(e)),
            (s2, Ok(mn)) => match source {
                Some((file, line)) => match interned(s2, file) {
                    (s3, Err(e)) => (s3, Err(e)),
                    (s3, Ok(text)) => {
                        let (s4, mirror) = class_mirror(s3, f.class);
                        let t1 = s4.write_field(element, ords.declaring_class as int, Slot::Reference(dc));
                        let t2 = t1.write_field(element, ords.method_name as int, Slot::Reference(mn));
                        let t3 = t2.write_field(element, ords.file_name as int, Slot::Reference(text));
                        let t4 = t3.write_field(element, ords.line_number as int, Slot::Int(line as i32));
                        (
                            t4.write_field(element, ords.declaring_class_object as int, Slot::Reference(mirror)),
                            Ok(()),
                        )
                    },
                },
                None => {
                    let (s4, mirror) = class_mirror(s2, f.class);
                    let t1 = s4.write_field(element, ords.declaring_class as int, Slot::Reference(dc));
                    let t2 = t1.write_field(element, ords.method_name as int, Slot::Reference(mn));
                    let t4 = t2.write_field(element, ords.line_number as int, Slot::Int(0));
                    (
                        t4.write_field(element, ords.declaring_class_object as int, Slot::Reference(mirror)),
                        Ok(()),
                    )
                },
            },
        },
    }
}

/// The elements `i..n` for the captured frames, the innermost frame at index 0; an array place that holds no
/// reference is left out.
pub open spec fn elements_filled(
    s: State,
    elements: Reference,
    frames: Seq<FrameInfo>,
    ords: ElementOrds,
    i: int,
    n: int,
) -> (State, Result<(), VmError>)
    decreases n - i,
{
    if i >= n {
        (s, Ok(()))
    } else {
        match element_at(s, elements, i) {
            None => elements_filled(s, elements, frames, ords, i + 1, n),
            Some(e) => match element_filled(s, e, frames[frames.len() - 1 - i], ords) {
                (t, Ok(_)) => elements_filled(t, elements, frames, ords, i + 1, n),
                (t, Err(err)) => (t, Err(err)),
            },
        }
    }
}

/// Outcome of `initStackTraceElements`.
pub open spec fn trace_elements(s: State, elements: Reference, backtrace: Reference, depth: i32) -> (
    State,
    Result<(), VmError>,
) {
    let frames = info_of(s, backtrace).frames;
    if depth <= 0 || frames.len() == 0 {
        (s, Ok(()))
    } else {
        match element_ords(s) {
            Err(e) => (s, Err(e)),
            Ok(ords) => match s.pending_initializer("java/lang/String"@) {
                Some(i) => held_up(s, i),
                None => elements_filled(
                    s,
                    elements,
                    frames,
                    ords,
                    0,
                    if depth < frames.len() {
                        depth as int
                    } else {
                        frames.len() as int
                    },
                ),
            },
        }
    }
}

fn find_element_ords(vm: &VmThread) -> (r: Result<ElementOrds, VmError>)
    ensures
        r == element_ords(vm@),
{
    let c: &LoadedClass = match vm.registry() {
        None => {
            return Err(VmError::BadConstant("initStackTraceElements 需注册表"));
        },
        Some(reg) => match reg.get("java/lang/StackTraceElement") {
            None => {
                return Err(VmError::BadConstant("StackTraceElement 未预载"));
            },
            Some(c) => c,
        },
    };
    let declaring_class: usize = match c.typed_field_index("declaringClass", "Ljava/lang/String;") {
        None => {
            return Err(VmError::BadConstant("STE.declaringClass 未找到"));
        },
        Some(i) => i,
    };
    let method_name: usize = match c.typed_field_index("methodName", "Ljava/lang/String;") {
        None => {
            return Err(VmError::BadConstant("STE.methodName 未找到"));
        },
        Some(i) => i,
    };
    let file_name: usize = match c.typed_field_index("fileName", "Ljava/lang/String;") {
        None => {
            return Err(VmError::BadConstant("STE.fileName 未找到"));
        },
        Some(i) => i,
    };
    let line_number: usize = match c.typed_field_index("lineNumber", "I") {
        None => {
            return Err(VmError::BadConstant("STE.lineNumber 未找到"));
        },
        Some(i) => i,
    };
    let declaring_class_object: usize = match c.typed_field_index("declaringClassObject", "Ljava/lang/Class;") {
        None => {
            return Err(VmError::BadConstant("STE.declaringClassObject 未找到"));
        },
        Some(i) => i,
    };
    Ok(ElementOrds { declaring_class, method_name, file_name, line_number, declaring_class_object })
}

fn fill_element(vm: &mut VmThread, element: Reference, f: &CallFrame, ords: ElementOrds) -> (r: Result<(), VmError>)
    ensures
        (final(vm)@, r) == element_filled(old(vm)@, element, f@, ords),
{
    let source: Option<(String, u16)> = vm.frame_source(f);
    let dotted: String = replace_char(f.class.as_str(), '/', '.');
    let dc: Reference = match intern(vm, dotted.as_str()) {
        Ok(r) => r,
        Err(e) => {
            return Err(e);
        },
    };
    let mn: Reference = match intern(vm, f.method.as_str()) {
        Ok(r) => r,
        Err(e) => {
            return Err(e);
        },
    };
    let (file, line): (Option<Reference>, u16) = match source {
        Some((name, line)) => match intern(vm, name.as_str()) {
            Ok(r) => (Some(r), line),
            Err(e) => {
                return Err(e);
            },
        },
        None => (None, 0),
    };
    let mirror: Reference = vm.make_class_mirror(f.class.as_str());
    vm.write_field(element, ords.declaring_class, Slot::Reference(dc));
    vm.write_field(element, ords.method_name, Slot::Reference(mn));
    match file {
        Some(r) => vm.write_field(element, ords.file_name, Slot::Reference(r)),
        None => {},
    }
    vm.write_field(element, ords.line_number, Slot::Int(line as i32));
    vm.write_field(element, ords.declaring_class_object, Slot::Reference(mirror));
    Ok(())
}

/// `StackTraceElement.initStackTraceElements`: fills `depth` elements from the call chain that was captured
/// for the exception `backtrace`, the innermost frame first.
pub fn init_stack_trace_elements(
    vm: &mut VmThread,
    elements: Reference,
    backtrace: Reference,
    depth: i32,
) -> (r: Result<(), VmError>)
    ensures
        (final(vm)@, r) == trace_elements(old(vm)@, elements, backtrace, depth),
{
    if depth <= 0 {
        return Ok(());
    }
    let frames: Vec<CallFrame> = match vm.exception_frames(backtrace) {
        Some(fs) => fs,
        None => Vec::new(),
    };
    let ghost all = frames_view(frames@);
    assert(all =~= info_of(vm@, backtrace).frames);
    if frames.len() == 0 {
        return Ok(());
    }
    let ords: ElementOrds = match find_element_ords(vm) {
        Ok(o) => o,
        Err(e) => {
            return Err(e);
        },
    };
    match vm.ensure_class_initialized("java/lang/String") {
        Ok(_) => {},
        Err(e) => {
            return Err(e);
        },
    }
    let len: usize = frames.len();
    let n: usize = if (depth as usize) < len {
        depth as usize
    } else {
        len
    };
    let ghost goal = elements_filled(vm@, elements, all, ords, 0, n as int);
    let mut i: usize = 0;
    while i < n
        invariant
            i <= n <= len,
            len == frames@.len(),
            all == frames_view(frames@),
            elements_filled(vm@, elements, all, ords, i as int, n as int) == goal,
            goal == trace_elements(old(vm)@, elements, backtrace, depth),
        decreases n - i,
    {
        let f: &CallFrame = &frames[len - 1 - i];
        assert(all[len - 1 - i] == f@);
        let element: Option<Reference> = match vm.heap().get(elements) {
            Some(Oop::Array(a)) => match a.element(i) {
                Slot::Reference(r) => Some(r),
                _ => None,
            },
            _ => None,
        };
        match element {
            Some(e) => match fill_element(vm, e, f, ords) {
                Ok(_) => {},
                Err(err) => {
                    return Err(err);
                },
            },
            None => {},
        }
        i = i + 1;
    }
    Ok(())
}

} // verus!
