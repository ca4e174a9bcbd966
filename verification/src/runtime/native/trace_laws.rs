//! What the elements of a stack trace hold.

use vstd::prelude::*;

use super::executable_laws::{interned_is_kept, is_mirror, kept, kept_trans, mirror_keeps};
use super::java_lang_trace::{element_at, element_filled, element_ords, elements_filled, trace_elements, ElementOrds};
use crate::metadata::class_registry::{is_field, is_typed_first, LoadedClass};
use crate::runtime::oop::{slot_or_top, Object};
use crate::runtime::slot::{Reference, Slot};
use crate::runtime::string::interned;
use crate::runtime::text::replaced;
use crate::runtime::value::VmError;
use crate::runtime::vm::exceptions::{info_of, source_of};
use crate::runtime::vm::growth::{sound, tables_kept, tables_kept_trans};
use crate::runtime::vm::mirrors::class_mirror;
use crate::runtime::vm::{FrameInfo, State};

verus! {

/// Whether `e` is the interned string `text`.
pub open spec fn is_text(s: State, e: Slot, text: Seq<char>) -> bool {
    e matches Slot::Reference(r) && s.vm.strings.get(text) == Some(r)
}

/// Whether the fields of a `StackTraceElement`, which were `before`, describe the frame `f`: the class in dotted
/// form, the method, the class mirror, and file and line. Where these are not known the line is 0 and the file
/// stays what it was.
pub open spec fn frame_fields(s: State, before: Seq<Slot>, fields: Seq<Slot>, f: FrameInfo, ords: ElementOrds) -> bool {
    &&& is_text(s, slot_or_top(fields, ords.declaring_class as int), replaced(f.class, '/', '.'))
    &&& is_text(s, slot_or_top(fields, ords.method_name as int), f.method)
    &&& is_mirror(s, slot_or_top(fields, ords.declaring_class_object as int), f.class)
    &&& match source_of(s, f) {
        Some((file, line)) => is_text(s, slot_or_top(fields, ords.file_name as int), file) && slot_or_top(
            fields,
            ords.line_number as int,
        ) == Slot::Int(line as i32),
        None => slot_or_top(fields, ords.file_name as int) == slot_or_top(before, ords.file_name as int)
            && slot_or_top(fields, ords.line_number as int) == Slot::Int(0),
    }
}

/// Whether `e`, an instance in `s`, describes the frame `f` in `t`.
pub open spec fn describes(s: State, t: State, e: Reference, f: FrameInfo, ords: ElementOrds) -> bool {
    match (s.object(e), t.object(e)) {
        (
            Some(Object::Instance { class: c, fields: before }),
            Some(Object::Instance { class: d, fields }),
        ) => c == d && frame_fields(t, before, fields, f, ords),
        _ => false,
    }
}

/// Whether `e` is an instance with the fields of a `StackTraceElement`.
pub open spec fn is_element(s: State, e: Reference) -> bool {
    match (s.object(e), s.class("java/lang/StackTraceElement"@)) {
        (Some(Object::Instance { fields, .. }), Some(c)) => fields.len() == c.instance_fields@.len(),
        _ => false,
    }
}

/// How many elements are filled.
pub open spec fn filled_count(s: State, backtrace: Reference, depth: i32) -> int {
    let frames = info_of(s, backtrace).frames;
    if depth <= 0 {
        0
    } else if depth < frames.len() {
        depth as int
    } else {
        frames.len() as int
    }
}

proof fn kept_tables(s: State, t: State)
    requires
        kept(s, t),
    ensures
        tables_kept(s, t),
        sound(t),
{
    reveal(kept);
    reveal(tables_kept);
}

proof fn text_stays(s: State, t: State, e: Slot, text: Seq<char>)
    requires
        tables_kept(s, t),
        is_text(s, e, text),
    ensures
        is_text(t, e, text),
{
    reveal(tables_kept);
    assert(s.vm.strings.contains_key(text));
    assert(t.vm.strings.contains_key(text));
}

proof fn class_mirror_stays(s: State, t: State, e: Slot, name: Seq<char>)
    requires
        tables_kept(s, t),
        is_mirror(s, e, name),
    ensures
        is_mirror(t, e, name),
{
    reveal(tables_kept);
    if e->Reference_0.0 is Some {
        assert(s.vm.class_mirrors.contains_key(name));
        assert(t.vm.class_mirrors.contains_key(name));
    }
}

/// An element stays described as long as it is not written.
proof fn described_stays(s: State, t: State, u: State, e: Reference, f: FrameInfo, ords: ElementOrds)
    requires
        describes(s, t, e, f, ords),
        tables_kept(t, u),
        u.object(e) == t.object(e),
    ensures
        describes(s, u, e, f, ords),
{
    let fields = t.object(e)->0->fields;
    assert(source_of(u, f) == source_of(t, f)) by {
        reveal(tables_kept);
    }
    text_stays(t, u, slot_or_top(fields, ords.declaring_class as int), replaced(f.class, '/', '.'));
    text_stays(t, u, slot_or_top(fields, ords.method_name as int), f.method);
    class_mirror_stays(t, u, slot_or_top(fields, ords.declaring_class_object as int), f.class);
    if source_of(t, f) is Some {
        text_stays(t, u, slot_or_top(fields, ords.file_name as int), (source_of(t, f)->0).0);
    }
}

/// Whether the positions are those of different fields of `n`.
pub open spec fn ords_apart(ords: ElementOrds, n: int) -> bool {
    &&& ords.declaring_class < n && ords.method_name < n && ords.file_name < n && ords.line_number < n
        && ords.declaring_class_object < n
    &&& ords.declaring_class != ords.method_name && ords.declaring_class != ords.file_name && ords.declaring_class
        != ords.line_number && ords.declaring_class != ords.declaring_class_object
    &&& ords.method_name != ords.file_name && ords.method_name != ords.line_number && ords.method_name
        != ords.declaring_class_object
    &&& ords.file_name != ords.line_number && ords.file_name != ords.declaring_class_object
    &&& ords.line_number != ords.declaring_class_object
}

/// Whether `e` is an instance that has these different fields.
pub open spec fn wide(s: State, e: Reference, ords: ElementOrds) -> bool {
    match s.object(e) {
        Some(Object::Instance { fields, .. }) => ords_apart(ords, fields.len() as int),
        _ => false,
    }
}

proof fn typed_ord_names(c: LoadedClass, name: Seq<char>, descriptor: Seq<char>)
    ensures
        c.typed_ord_of(name, descriptor) matches Some(i) ==> 0 <= i < c.instance_fields@.len() && is_field(
            c.instance_fields@[i],
            name,
            descriptor,
        ),
{
    let fs = c.instance_fields@;
    if exists|i: int| is_typed_first(fs, name, descriptor, i) {
        let i = choose|i: int| is_typed_first(fs, name, descriptor, i);
        assert(is_typed_first(fs, name, descriptor, i));
    }
}

proof fn ords_are_apart(s: State)
    requires
        element_ords(s) is Ok,
    ensures
        s.class("java/lang/StackTraceElement"@) matches Some(c) && ords_apart(
            element_ords(s)->Ok_0,
            c.instance_fields@.len() as int,
        ),
{
    let c = s.class("java/lang/StackTraceElement"@)->0;
    assert(c.instance_fields.len() == c.instance_fields@.len());
    reveal_strlit("declaringClass");
    reveal_strlit("methodName");
    reveal_strlit("fileName");
    reveal_strlit("lineNumber");
    reveal_strlit("declaringClassObject");
    assert("declaringClass"@[0] == 'd' && "methodName"@[0] == 'm' && "fileName"@[0] == 'f' && "lineNumber"@[0] == 'l');
    assert("declaringClassObject"@[0] == 'd' && "declaringClassObject"@.len() == 20 && "declaringClass"@.len() == 14);
    typed_ord_names(c, "declaringClass"@, "Ljava/lang/String;"@);
    typed_ord_names(c, "methodName"@, "Ljava/lang/String;"@);
    typed_ord_names(c, "fileName"@, "Ljava/lang/String;"@);
    typed_ord_names(c, "lineNumber"@, "I"@);
    typed_ord_names(c, "declaringClassObject"@, "Ljava/lang/Class;"@);
}

/// State after the fields of an element were written.
pub open spec fn element_written(
    s: State,
    e: Reference,
    ords: ElementOrds,
    dc: Reference,
    mn: Reference,
    file: Option<Reference>,
    line: i32,
    mirror: Reference,
) -> State {
    let t1 = s.write_field(e, ords.declaring_class as int, Slot::Reference(dc));
    let t2 = t1.write_field(e, ords.method_name as int, Slot::Reference(mn));
    let t3 = match file {
        Some(text) => t2.write_field(e, ords.file_name as int, Slot::Reference(text)),
        None => t2,
    };
    let t4 = t3.write_field(e, ords.line_number as int, Slot::Int(line));
    t4.write_field(e, ords.declaring_class_object as int, Slot::Reference(mirror))
}

proof fn written_fields(
    s: State,
    e: Reference,
    ords: ElementOrds,
    dc: Reference,
    mn: Reference,
    file: Option<Reference>,
    line: i32,
    mirror: Reference,
)
    ensures
        ({
            let t = element_written(s, e, ords, dc, mn, file, line, mirror);
            &&& t.vm.strings == s.vm.strings
            &&& t.vm.class_mirrors == s.vm.class_mirrors
            &&& t.vm.registry == s.vm.registry
            &&& t.vm.heap.len() == s.vm.heap.len()
            &&& forall|y: Reference| y != e ==> #[trigger] t.object(y) == s.object(y)
            &&& !(s.object(e) is Some && s.object(e)->0 is Instance) ==> t.vm.heap == s.vm.heap
            &&& wide(s, e, ords) ==> {
                let before = s.object(e)->0->fields;
                let fields = t.object(e)->0->fields;
                &&& t.object(e) is Some
                &&& t.object(e)->0 is Instance
                &&& t.object(e)->0->Instance_class == s.object(e)->0->Instance_class
                &&& slot_or_top(fields, ords.declaring_class as int) == Slot::Reference(dc)
                &&& slot_or_top(fields, ords.method_name as int) == Slot::Reference(mn)
                &&& slot_or_top(fields, ords.file_name as int) == match file {
                    Some(text) => Slot::Reference(text),
                    None => slot_or_top(before, ords.file_name as int),
                }
                &&& slot_or_top(fields, ords.line_number as int) == Slot::Int(line)
                &&& slot_or_top(fields, ords.declaring_class_object as int) == Slot::Reference(mirror)
            }
        }),
{
    let t1 = s.write_field(e, ords.declaring_class as int, Slot::Reference(dc));
    let t2 = t1.write_field(e, ords.method_name as int, Slot::Reference(mn));
    let t3 = match file {
        Some(text) => t2.write_field(e, ords.file_name as int, Slot::Reference(text)),
        None => t2,
    };
    let t4 = t3.write_field(e, ords.line_number as int, Slot::Int(line));
    let t = t4.write_field(e, ords.declaring_class_object as int, Slot::Reference(mirror));
    assert forall|y: Reference| y != e implies #[trigger] t.object(y) == s.object(y) by {
        assert(t1.object(y) == s.object(y));
        assert(t2.object(y) == t1.object(y));
        assert(t3.object(y) == t2.object(y));
        assert(t4.object(y) == t3.object(y));
    }
    if wide(s, e, ords) {
        let class = s.object(e)->0->Instance_class;
        let f = s.object(e)->0->fields;
        let f1 = f.update(ords.declaring_class as int, Slot::Reference(dc));
        assert(t1.object(e) == Some(Object::Instance { class, fields: f1 }));
        let f2 = f1.update(ords.method_name as int, Slot::Reference(mn));
        assert(t2.object(e) == Some(Object::Instance { class, fields: f2 }));
        let f3 = match file {
            Some(text) => f2.update(ords.file_name as int, Slot::Reference(text)),
            None => f2,
        };
        assert(t3.object(e) == Some(Object::Instance { class, fields: f3 }));
        let f4 = f3.update(ords.line_number as int, Slot::Int(line));
        assert(t4.object(e) == Some(Object::Instance { class, fields: f4 }));
        let f5 = f4.update(ords.declaring_class_object as int, Slot::Reference(mirror));
        assert(t.object(e) == Some(Object::Instance { class, fields: f5 }));
    }
}

/// Whether `t` has the tables of `s` and every object of `s` but the instance `e` unchanged.
pub open spec fn only_written(s: State, t: State, e: Reference) -> bool {
    &&& tables_kept(s, t)
    &&& forall|y: Reference|
        s.object(y) is Some && (y != e || !(s.object(y)->0 is Instance)) ==> #[trigger] t.object(y) == s.object(y)
}

/// The last part of filling an element, once everything that it refers to is there.
proof fn write_step(
    s: State,
    u: State,
    e: Reference,
    f: FrameInfo,
    ords: ElementOrds,
    dc: Reference,
    mn: Reference,
    file: Option<Reference>,
    mirror: Reference,
)
    requires
        kept(s, u),
        is_text(u, Slot::Reference(dc), replaced(f.class, '/', '.')),
        is_text(u, Slot::Reference(mn), f.method),
        is_mirror(u, Slot::Reference(mirror), f.class),
        (file is Some) == (source_of(s, f) is Some),
        file matches Some(text) ==> is_text(u, Slot::Reference(text), (source_of(s, f)->0).0),
    ensures
        ({
            let line = match source_of(s, f) {
                Some((_, line)) => line as i32,
                None => 0i32,
            };
            let t = element_written(u, e, ords, dc, mn, file, line, mirror);
            &&& only_written(s, t, e)
            &&& wide(s, e, ords) ==> describes(s, t, e, f, ords)
        }),
{
    let line = match source_of(s, f) {
        Some((_, line)) => line as i32,
        None => 0i32,
    };
    let t = element_written(u, e, ords, dc, mn, file, line, mirror);
    written_fields(u, e, ords, dc, mn, file, line, mirror);
    kept_tables(s, u);
    assert(tables_kept(u, t)) by {
        reveal(tables_kept);
        assert forall|n: Seq<char>| #[trigger] t.vm.class_mirrors.contains_key(n) implies (
        t.vm.class_mirrors[n].0 matches Some(id) ==> id < t.vm.heap.len()) by {
            assert(u.vm.class_mirrors.contains_key(n));
        }
    }
    tables_kept_trans(s, u, t);
    assert forall|y: Reference|
        s.object(y) is Some && (y != e || !(s.object(y)->0 is Instance)) implies #[trigger] t.object(y) == s.object(y) by {
        reveal(kept);
        assert(u.object(y) == s.object(y));
    }
    if wide(s, e, ords) {
        assert(u.object(e) == s.object(e)) by {
            reveal(kept);
        }
        assert(source_of(t, f) == source_of(s, f)) by {
            reveal(tables_kept);
        }
        text_stays(u, t, Slot::Reference(dc), replaced(f.class, '/', '.'));
        text_stays(u, t, Slot::Reference(mn), f.method);
        class_mirror_stays(u, t, Slot::Reference(mirror), f.class);
        if file is Some {
            text_stays(u, t, Slot::Reference(file->0), (source_of(s, f)->0).0);
        }
    }
}

proof fn kept_only(s: State, t: State, e: Reference)
    requires
        kept(s, t),
    ensures
        only_written(s, t, e),
{
    kept_tables(s, t);
    reveal(kept);
}

/// Filling one element.
proof fn element_step(s: State, e: Reference, f: FrameInfo, ords: ElementOrds)
    requires
        sound(s),
    ensures
        only_written(s, element_filled(s, e, f, ords).0, e),
        element_filled(s, e, f, ords).1 is Ok && wide(s, e, ords) ==> describes(
            s,
            element_filled(s, e, f, ords).0,
            e,
            f,
            ords,
        ),
{
    let name = replaced(f.class, '/', '.');
    let (s1, a) = interned(s, name);
    interned_is_kept(s, name);
    kept_tables(s, s1);
    kept_only(s, s1, e);
    if a is Ok {
        let (s2, b) = interned(s1, f.method);
        interned_is_kept(s1, f.method);
        kept_tables(s1, s2);
        kept_trans(s, s1, s2);
        kept_only(s, s2, e);
        text_stays(s1, s2, Slot::Reference(a->Ok_0), name);
        if b is Ok {
            match source_of(s, f) {
                Some((file, line)) => {
                    let (s3, c) = interned(s2, file);
                    interned_is_kept(s2, file);
                    kept_tables(s2, s3);
                    kept_trans(s, s2, s3);
                    kept_only(s, s3, e);
                    if c is Ok {
                        let (s4, mirror) = class_mirror(s3, f.class);
                        mirror_keeps(s3, f.class);
                        kept_tables(s3, s4);
                        kept_trans(s, s3, s4);
                        tables_kept_trans(s2, s3, s4);
                        text_stays(s2, s4, Slot::Reference(a->Ok_0), name);
                        text_stays(s2, s4, Slot::Reference(b->Ok_0), f.method);
                        text_stays(s3, s4, Slot::Reference(c->Ok_0), file);
                        write_step(s, s4, e, f, ords, a->Ok_0, b->Ok_0, Some(c->Ok_0), mirror);
                        assert(element_filled(s, e, f, ords).0 == element_written(
                            s4,
                            e,
                            ords,
                            a->Ok_0,
                            b->Ok_0,
                            Some(c->Ok_0),
                            line as i32,
                            mirror,
                        ));
                    }
                },
                None => {
                    let (s4, mirror) = class_mirror(s2, f.class);
                    mirror_keeps(s2, f.class);
                    kept_tables(s2, s4);
                    kept_trans(s, s2, s4);
                    text_stays(s2, s4, Slot::Reference(a->Ok_0), name);
                    text_stays(s2, s4, Slot::Reference(b->Ok_0), f.method);
                    write_step(s, s4, e, f, ords, a->Ok_0, b->Ok_0, None, mirror);
                    assert(element_filled(s, e, f, ords).0 == element_written(
                        s4,
                        e,
                        ords,
                        a->Ok_0,
                        b->Ok_0,
                        None,
                        0,
                        mirror,
                    ));
                },
            }
        }
    }
}

/// Whether the element at `i` is the only one among `k..n` that is `e`.
pub open spec fn alone(s: State, elements: Reference, e: Reference, i: int, k: int, n: int) -> bool {
    forall|j: int| k <= j < n && j != i ==> #[trigger] element_at(s, elements, j) != Some(e)
}

/// Whether no element among `k..n` is `x`.
pub open spec fn absent(s: State, elements: Reference, x: Reference, k: int, n: int) -> bool {
    forall|j: int| k <= j < n ==> #[trigger] element_at(s, elements, j) != Some(x)
}

/// The array is not written while its elements are filled.
proof fn elements_stay(s: State, t: State, e: Reference, elements: Reference)
    requires
        only_written(s, t, e),
        s.object(elements) is Some,
        s.object(elements)->0 is Array,
    ensures
        t.object(elements) == s.object(elements),
        forall|j: int| #[trigger] element_at(t, elements, j) == element_at(s, elements, j),
{
    assert(t.object(elements) == s.object(elements));
}

/// Filling elements writes only these.
proof fn range_leaves(
    s: State,
    elements: Reference,
    frames: Seq<FrameInfo>,
    ords: ElementOrds,
    k: int,
    n: int,
    x: Reference,
)
    requires
        sound(s),
        s.object(x) is Some,
        absent(s, elements, x, k, n),
    ensures
        elements_filled(s, elements, frames, ords, k, n).0.object(x) == s.object(x),
        tables_kept(s, elements_filled(s, elements, frames, ords, k, n).0),
    decreases n - k,
{
    if k >= n {
        reveal(tables_kept);
    } else {
        match element_at(s, elements, k) {
            None => range_leaves(s, elements, frames, ords, k + 1, n, x),
            Some(e) => {
                let f = frames[frames.len() - 1 - k];
                element_step(s, e, f, ords);
                let (t, r) = element_filled(s, e, f, ords);
                assert(t.object(x) == s.object(x));
                if r is Ok {
                    elements_stay(s, t, e, elements);
                    assert(sound(t)) by {
                        reveal(tables_kept);
                    }
                    range_leaves(t, elements, frames, ords, k + 1, n, x);
                    tables_kept_trans(s, t, elements_filled(s, elements, frames, ords, k, n).0);
                }
            },
        }
    }
}

/// Filling elements leaves each with its frame.
proof fn range_describes(
    s: State,
    elements: Reference,
    frames: Seq<FrameInfo>,
    ords: ElementOrds,
    k: int,
    n: int,
    i: int,
    e: Reference,
)
    requires
        sound(s),
        k <= i < n,
        element_at(s, elements, i) == Some(e),
        alone(s, elements, e, i, k, n),
        wide(s, e, ords),
        elements_filled(s, elements, frames, ords, k, n).1 is Ok,
    ensures
        describes(
            s,
            elements_filled(s, elements, frames, ords, k, n).0,
            e,
            frames[frames.len() - 1 - i],
            ords,
        ),
    decreases n - k,
{
    let u = elements_filled(s, elements, frames, ords, k, n).0;
    match element_at(s, elements, k) {
        None => range_describes(s, elements, frames, ords, k + 1, n, i, e),
        Some(d) => {
            let f = frames[frames.len() - 1 - k];
            element_step(s, d, f, ords);
            let t = element_filled(s, d, f, ords).0;
            elements_stay(s, t, d, elements);
            assert(sound(t)) by {
                reveal(tables_kept);
            }
            if k == i {
                assert(absent(t, elements, e, k + 1, n));
                range_leaves(t, elements, frames, ords, k + 1, n, e);
                described_stays(s, t, u, e, f, ords);
            } else {
                assert(t.object(e) == s.object(e));
                range_describes(t, elements, frames, ords, k + 1, n, i, e);
            }
        },
    }
}

/// Element `i` of a filled stack trace describes the frame that lies `i` frames below the innermost one.
pub proof fn law_trace_elements_describe_frames(
    s: State,
    elements: Reference,
    backtrace: Reference,
    depth: i32,
    i: int,
    e: Reference,
)
    requires
        sound(s),
        trace_elements(s, elements, backtrace, depth).1 is Ok,
        0 <= i < filled_count(s, backtrace, depth),
        element_at(s, elements, i) == Some(e),
        is_element(s, e),
        alone(s, elements, e, i, 0, filled_count(s, backtrace, depth)),
    ensures
        ({
            let frames = info_of(s, backtrace).frames;
            element_ords(s) matches Ok(ords) && describes(
                s,
                trace_elements(s, elements, backtrace, depth).0,
                e,
                frames[frames.len() - 1 - i],
                ords,
            )
        }),
{
    let n = filled_count(s, backtrace, depth);
    let frames = info_of(s, backtrace).frames;
    let ords = element_ords(s)->Ok_0;
    ords_are_apart(s);
    range_describes(s, elements, frames, ords, 0, n, i, e);
}

/// Filling a stack trace changes no object but the elements that it fills: later elements keep their fields.
pub proof fn law_trace_elements_leave_others_alone(
    s: State,
    elements: Reference,
    backtrace: Reference,
    depth: i32,
    x: Reference,
)
    requires
        sound(s),
        s.object(x) is Some,
        absent(s, elements, x, 0, filled_count(s, backtrace, depth)),
    ensures
        trace_elements(s, elements, backtrace, depth).0.object(x) == s.object(x),
{
    let n = filled_count(s, backtrace, depth);
    let frames = info_of(s, backtrace).frames;
    if element_ords(s) is Ok {
        range_leaves(s, elements, frames, element_ords(s)->Ok_0, 0, n, x);
    }
}

/// The fields of a `StackTraceElement` are found by their names and types.
pub proof fn law_element_positions(s: State)
    requires
        s.class("java/lang/StackTraceElement"@) matches Some(c) ==> c.instance_fields@.len() <= usize::MAX,
    ensures
        element_ords(s) matches Ok(o) ==> {
            let c = s.class("java/lang/StackTraceElement"@)->0;
            &&& c.typed_ord_of("declaringClass"@, "Ljava/lang/String;"@) == Some(o.declaring_class as int)
            &&& c.typed_ord_of("methodName"@, "Ljava/lang/String;"@) == Some(o.method_name as int)
            &&& c.typed_ord_of("fileName"@, "Ljava/lang/String;"@) == Some(o.file_name as int)
            &&& c.typed_ord_of("lineNumber"@, "I"@) == Some(o.line_number as int)
            &&& c.typed_ord_of("declaringClassObject"@, "Ljava/lang/Class;"@) == Some(o.declaring_class_object as int)
        },
{
    if element_ords(s) is Ok {
        let c = s.class("java/lang/StackTraceElement"@)->0;
        typed_ord_names(c, "declaringClass"@, "Ljava/lang/String;"@);
        typed_ord_names(c, "methodName"@, "Ljava/lang/String;"@);
        typed_ord_names(c, "fileName"@, "Ljava/lang/String;"@);
        typed_ord_names(c, "lineNumber"@, "I"@);
        typed_ord_names(c, "declaringClassObject"@, "Ljava/lang/Class;"@);
    }
}

/// Nothing is filled for a depth of 0 or less, or where no call chain was captured; otherwise the string class has to be
/// initialized first, and nothing changes until it is.
pub proof fn law_traces_that_are_not_filled(s: State, elements: Reference, backtrace: Reference, depth: i32)
    ensures
        depth <= 0 || info_of(s, backtrace).frames.len() == 0 ==> trace_elements(s, elements, backtrace, depth) == (
            s,
            Ok::<(), VmError>(()),
        ),
        depth > 0 && info_of(s, backtrace).frames.len() > 0 && element_ords(s) is Ok && s.class("java/lang/String"@) is Some
            && !s.vm.initialized.contains_key("java/lang/String"@) ==> trace_elements(s, elements, backtrace, depth) == (
            s,
            Err::<(), VmError>(
                VmError::InitializerPending(s.vm.registry->0.index_of("java/lang/String"@)->0 as usize),
            ),
        ),
{
    if s.vm.registry is Some {
        crate::metadata::registry_laws::law_found_classes(s.vm.registry->0, "java/lang/String"@);
    }
}

/// Without the classes, or with a class of the elements that lacks a field, nothing is filled and what is missing is
/// named.
pub proof fn law_traces_without_fields(s: State, elements: Reference, backtrace: Reference, depth: i32, c: LoadedClass)
    requires
        depth > 0,
        info_of(s, backtrace).frames.len() > 0,
    ensures
        ({
            let (t, r) = trace_elements(s, elements, backtrace, depth);
            let kind = "java/lang/StackTraceElement"@;
            &&& element_ords(s) is Err ==> t == s && r == Err::<(), VmError>(element_ords(s)->Err_0)
            &&& s.vm.registry is None ==> r == Err::<(), VmError>(
                VmError::BadConstant("initStackTraceElements 需注册表"),
            )
            &&& s.vm.registry is Some && s.class(kind) is None ==> r == Err::<(), VmError>(
                VmError::BadConstant("StackTraceElement 未预载"),
            )
            &&& s.class(kind) == Some(c) && c.typed_ord_of("declaringClass"@, "Ljava/lang/String;"@) is None ==> r == Err::<(), VmError>(
                VmError::BadConstant("STE.declaringClass 未找到"),
            )
            &&& s.class(kind) == Some(c) && c.typed_ord_of("declaringClass"@, "Ljava/lang/String;"@) is Some && c.typed_ord_of("methodName"@, "Ljava/lang/String;"@) is None ==> r == Err::<(), VmError>(
                VmError::BadConstant("STE.methodName 未找到"),
            )
            &&& s.class(kind) == Some(c) && c.typed_ord_of("declaringClass"@, "Ljava/lang/String;"@) is Some && c.typed_ord_of("methodName"@, "Ljava/lang/String;"@) is Some && c.typed_ord_of("fileName"@, "Ljava/lang/String;"@) is None ==> r == Err::<(), VmError>(
                VmError::BadConstant("STE.fileName 未找到"),
            )
            &&& s.class(kind) == Some(c) && c.typed_ord_of("declaringClass"@, "Ljava/lang/String;"@) is Some && c.typed_ord_of("methodName"@, "Ljava/lang/String;"@) is Some && c.typed_ord_of("fileName"@, "Ljava/lang/String;"@) is Some && c.typed_ord_of("lineNumber"@, "I"@) is None ==> r == Err::<(), VmError>(
                VmError::BadConstant("STE.lineNumber 未找到"),
            )
            &&& s.class(kind) == Some(c) && c.typed_ord_of("declaringClass"@, "Ljava/lang/String;"@) is Some && c.typed_ord_of("methodName"@, "Ljava/lang/String;"@) is Some && c.typed_ord_of("fileName"@, "Ljava/lang/String;"@) is Some && c.typed_ord_of("lineNumber"@, "I"@) is Some && c.typed_ord_of("declaringClassObject"@, "Ljava/lang/Class;"@) is None ==> r == Err::<(), VmError>(
                VmError::BadConstant("STE.declaringClassObject 未找到"),
            )
        }),
{
}

} // verus!
