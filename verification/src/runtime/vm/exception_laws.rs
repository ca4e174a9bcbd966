//! What is known of an exception, and how a stack trace shows it.

use vstd::prelude::*;

use super::exceptions::{
    backtrace_captured, chain_text, first_line, frame_lines, hop_text, info_of, line_entry, message_thrown,
    method_line, source_of, thrown, trace_text,
};
use super::mirrors::{int_field, reference_field};
use super::{FrameInfo, State};
use crate::metadata::class_file::{ClassFile, LineNumberEntry};
use crate::metadata::registry_laws::law_found_classes;
use crate::runtime::heap::handle_space;
use crate::runtime::oop::Object;
use crate::runtime::slot::{Reference, Slot};
use crate::runtime::string::text_pending;
use crate::runtime::text::{decimal, digit};

verus! {

/// A thrown exception is a new instance of the class that was asked for, whether it is loaded or not, with the fields of
/// that class if it is; it carries the call chain of the moment, and no cause and no message if nothing was known of it.
pub proof fn law_throwing(s: State, class: Seq<char>)
    requires
        s.vm.heap.len() < handle_space(),
    ensures
        ({
            let (t, e) = thrown(s, class);
            &&& s.object(e) is None
            &&& t.object(e) is Some && t.object(e)->0 is Instance
            &&& t.object(e)->0->Instance_class == class
            &&& t.object(e)->0->fields.len() == match s.class(class) {
                Some(c) => c.instance_fields@.len(),
                None => 0,
            }
            &&& t.vm.exceptions.contains_key(e)
            &&& t.vm.exceptions[e].frames == s.thread.call_stack
            &&& !s.vm.exceptions.contains_key(e) ==> t.vm.exceptions[e].cause is None && t.vm.exceptions[e].message is None
            &&& t.thread == s.thread
            &&& t.vm.heap.len() == s.vm.heap.len() + 1
        }),
{
    if s.vm.registry is Some {
        law_found_classes(s.vm.registry->0, class);
    }
}

/// An exception with a message remembers the message and, where its class has the field, holds the interned text of it
/// in `detailMessage`.
pub proof fn law_throwing_with_a_message(s: State, class: Seq<char>, message: Seq<char>)
    requires
        s.vm.heap.len() + 3 <= handle_space(),
        text_pending(s, message) is None,
        s.class(class) matches Some(c) && c.ord_of("detailMessage"@) is Some,
        crate::runtime::string::interned(s, message).1 is Ok,
    ensures
        ({
            let (t, e) = message_thrown(s, class, message);
            &&& e is ThrownException
            &&& t.vm.exceptions.contains_key(e->ThrownException_0)
            &&& t.vm.exceptions[e->ThrownException_0].message == Some(message)
            &&& t.vm.exceptions[e->ThrownException_0].frames == s.thread.call_stack
            &&& t.vm.strings.contains_key(message)
            &&& reference_field(t, e->ThrownException_0, class, "detailMessage"@) == Some(t.vm.strings[message])
        }),
{
    let c = s.class(class)->0;
    law_found_classes(s.vm.registry->0, class);
    let (s1, r) = thrown(s, class);
    let s2 = super::exceptions::message_recorded(s1, r, message);
    assert(s2.object(r) == Some(c.fresh()));
    assert(crate::runtime::string::interned(s2, message).1 is Ok) by {
        assert(s2.vm.registry == s.vm.registry && s2.vm.initialized == s.vm.initialized && s2.vm.strings
            == s.vm.strings);
    }
    let s3 = crate::runtime::string::interned(s2, message).0;
    let text = crate::runtime::string::interned(s2, message).1->Ok_0;
    super::mirror_laws::interned_keeps(s2, message, r);
    assert(s3.vm.exceptions == s2.vm.exceptions);
    super::mirror_laws::named_write_read(s3, r, class, c, "detailMessage"@, Slot::Reference(text), "value"@);
}

/// `fillInStackTrace` remembers the call chain of the moment, and the fields `backtrace` and `depth` of the exception say
/// so: a reference to the exception itself, and how many frames there are.
pub proof fn law_captured_backtrace(s: State, exc: Reference)
    requires
        s.object(exc) is Some && s.object(exc)->0 is Instance,
        s.class("java/lang/Throwable"@) matches Some(c) && s.object(exc)->0->fields.len() == c.instance_fields@.len()
            && c.ord_of("backtrace"@) is Some && c.ord_of("depth"@) is Some,
    ensures
        ({
            let t = backtrace_captured(s, exc);
            let class = "java/lang/Throwable"@;
            &&& t.vm.exceptions.contains_key(exc) && t.vm.exceptions[exc].frames == s.thread.call_stack
            &&& reference_field(t, exc, class, "backtrace"@) == Some(exc)
            &&& int_field(t, exc, class, "depth"@) == Some(s.thread.call_stack.len() as i32)
        }),
{
    reveal_strlit("backtrace");
    reveal_strlit("depth");
    assert("backtrace"@.len() == 9 && "depth"@.len() == 5);
    let class = "java/lang/Throwable"@;
    let c = s.class(class)->0;
    let s1 = super::exceptions::trace_recorded(s, exc);
    let s2 = super::mirrors::named_field_written(s1, exc, class, "backtrace"@, Slot::Reference(exc));
    super::mirror_laws::named_write_read(s1, exc, class, c, "backtrace"@, Slot::Reference(exc), "depth"@);
    super::mirror_laws::named_write_read(
        s2,
        exc,
        class,
        c,
        "depth"@,
        Slot::Int(s.thread.call_stack.len() as i32),
        "backtrace"@,
    );
}

/// Of the entries that start at or before `pc`, the one that counts starts last, and of those that start together it is
/// the last.
pub proof fn law_line_entry_of_equals(table: Seq<LineNumberEntry>, pc: int)
    ensures
        match line_entry(table, pc) {
            Some(e) => exists|k: int|
                0 <= k < table.len() && #[trigger] table[k] == e && e.start_pc <= pc && (forall|i: int|
                    0 <= i < table.len() && (#[trigger] table[i]).start_pc <= pc ==> table[i].start_pc < e.start_pc || (
                    table[i].start_pc == e.start_pc && i <= k)),
            None => forall|i: int| 0 <= i < table.len() ==> (#[trigger] table[i]).start_pc > pc,
        },
    decreases table.len(),
{
    if table.len() > 0 {
        let rest = table.drop_last();
        law_line_entry_of_equals(rest, pc);
        assert forall|i: int| 0 <= i < rest.len() implies #[trigger] table[i] == rest[i] by {}
        let n = table.len() - 1;
        let last = table[n];
        assert(last == table.last());
        match line_entry(rest, pc) {
            Some(b) => {
                let k = choose|k: int|
                    0 <= k < rest.len() && #[trigger] rest[k] == b && b.start_pc <= pc && (forall|i: int|
                        0 <= i < rest.len() && (#[trigger] rest[i]).start_pc <= pc ==> rest[i].start_pc < b.start_pc || (
                        rest[i].start_pc == b.start_pc && i <= k));
                let e = line_entry(table, pc)->0;
                let at = if last.start_pc <= pc && last.start_pc >= b.start_pc {
                    n
                } else {
                    k
                };
                assert(table[at] == e);
                assert forall|i: int| 0 <= i < table.len() && (#[trigger] table[i]).start_pc <= pc implies table[i].start_pc
                    < e.start_pc || (table[i].start_pc == e.start_pc && i <= at) by {
                    if i < n {
                        assert(rest[i] == table[i]);
                    }
                }
            },
            None => {
                if last.start_pc <= pc {
                    assert(table[n] == line_entry(table, pc)->0);
                    assert forall|i: int|
                        0 <= i < table.len() && (#[trigger] table[i]).start_pc <= pc implies table[i].start_pc
                        < last.start_pc || (table[i].start_pc == last.start_pc && i <= n) by {
                        if i < n {
                            assert(rest[i] == table[i]);
                        }
                    }
                } else {
                    assert forall|i: int| 0 <= i < table.len() implies (#[trigger] table[i]).start_pc > pc by {
                        if i < n {
                            assert(rest[i] == table[i]);
                        }
                    }
                }
            },
        }
    }
}

/// Whether method `i` has this name, holds `pc` in its code, and `line` is the line that covers it.
pub open spec fn covers(cf: ClassFile, i: int, name: Seq<char>, pc: int, line: u16) -> bool {
    &&& 0 <= i < cf.methods@.len()
    &&& cf.constant_pool.utf8_at(cf.methods@[i].name_index) == Some(name)
    &&& cf.methods@[i].code is Some
    &&& pc < cf.methods@[i].code->0.code@.len()
    &&& line_entry(cf.methods@[i].code->0.line_number_table@, pc) matches Some(e) && e.line_number == line
}

/// The source of a frame is the source file of its class and the line that covers its place in the code of the first
/// method with its name that has one; it is not known if the class, the file or such a line is missing.
pub proof fn law_sources(s: State, f: FrameInfo)
    ensures
        s.class(f.class) is None ==> source_of(s, f) is None,
        s.class(f.class) matches Some(c) ==> (match source_of(s, f) {
            Some((file, line)) => c.cf.source_file is Some && c.cf.source_file->0@ == file && first_covers(
                c.cf,
                f.method,
                f.pc as int,
                line,
            ),
            None => c.cf.source_file is None || never_covered(c.cf, f.method, f.pc as int),
        }),
{
    if s.class(f.class) is Some {
        first_covered(s.class(f.class)->0.cf, f.method, f.pc as int, 0);
    }
}

/// Whether `line` covers `pc` in the first method with this name in which any line does.
pub open spec fn first_covers(cf: ClassFile, name: Seq<char>, pc: int, line: u16) -> bool {
    exists|i: int| #[trigger]
        covers(cf, i, name, pc, line) && forall|j: int, other: u16| j < i ==> !#[trigger] covers(cf, j, name, pc, other)
}

/// Whether no line covers `pc` in any method with this name.
pub open spec fn never_covered(cf: ClassFile, name: Seq<char>, pc: int) -> bool {
    forall|j: int, other: u16| !#[trigger] covers(cf, j, name, pc, other)
}

proof fn first_covered(cf: ClassFile, name: Seq<char>, pc: int, from: int)
    requires
        0 <= from,
        forall|j: int, other: u16| j < from ==> !#[trigger] covers(cf, j, name, pc, other),
    ensures
        match first_line(cf, name, pc, from) {
            Some(line) => first_covers(cf, name, pc, line),
            None => never_covered(cf, name, pc),
        },
    decreases cf.methods@.len() - from,
{
    if from < cf.methods@.len() {
        match method_line(cf.methods@[from], cf.constant_pool, name, pc) {
            Some(line) => {
                assert(covers(cf, from, name, pc, line));
            },
            None => {
                assert forall|j: int, other: u16| j < from + 1 implies !#[trigger] covers(cf, j, name, pc, other) by {
                    if j == from {
                        assert(!covers(cf, from, name, pc, other));
                    }
                }
                first_covered(cf, name, pc, from + 1);
            },
        }
    }
}

/// A trace shows the innermost frame first: one line each, with class, method and, where it is known, source file and
/// line in brackets.
pub proof fn law_frames_of_a_trace(s: State, frames: Seq<FrameInfo>, f: FrameInfo)
    ensures
        frame_lines(s, Seq::empty()) == Seq::<char>::empty(),
        frame_lines(s, frames.push(f)) == "\n\tat "@ + f.class + "."@ + f.method + match source_of(s, f) {
            Some((file, line)) => "("@ + file + ":"@ + decimal(line as nat) + ")"@,
            None => Seq::<char>::empty(),
        } + frame_lines(s, frames),
{
    reveal_strlit(".");
    reveal_strlit("(");
    reveal_strlit(":");
    reveal_strlit(")");
    assert("."@ =~= seq!['.']);
    assert("("@ =~= seq!['(']);
    assert(":"@ =~= seq![':']);
    assert(")"@ =~= seq![')']);
    assert(frames.push(f).drop_last() =~= frames);
}

/// A trace begins with the class of the exception, its message behind a colon if it has one, and its frames; the cause
/// follows, if there is one, 64 exceptions in all at most. It is empty if nothing is known of the exception.
pub proof fn law_traces(s: State, exc: Reference)
    ensures
        ({
            let info = info_of(s, exc);
            let class = match s.object(exc) {
                Some(Object::Instance { class, .. }) => class,
                _ => "<unknown>"@,
            };
            let head = class + match info.message {
                Some(m) => ": "@ + m,
                None => Seq::<char>::empty(),
            } + frame_lines(s, info.frames);
            let blank = info.frames.len() == 0 && info.cause is None && info.message is None;
            &&& blank ==> trace_text(s, exc) == Seq::<char>::empty()
            &&& !blank ==> trace_text(s, exc) == head + match info.cause {
                Some(c) => "\nCaused by: "@ + chain_text(s, c, 63),
                None => Seq::<char>::empty(),
            }
            &&& chain_text(s, exc, 1) == head
            &&& forall|left: nat| left > 1 ==> #[trigger] chain_text(s, exc, left) == head + match info.cause {
                Some(c) => "\nCaused by: "@ + chain_text(s, c, (left - 1) as nat),
                None => Seq::<char>::empty(),
            }
        }),
{
    assert(chain_text(s, exc, 1) =~= hop_text(s, exc));
}

/// Decimal notation: the value of a text of digits, read from the left, is the number, and it has no leading zero.
pub proof fn law_decimal(n: nat)
    ensures
        numeral(decimal(n)) == n,
        decimal(n).len() > 0,
        n > 0 ==> decimal(n)[0] != '0',
        forall|i: int| 0 <= i < decimal(n).len() ==> '0' <= #[trigger] decimal(n)[i] <= '9',
    decreases n,
{
    if n < 10 {
        let d = decimal(n);
        assert(d.drop_last() =~= Seq::<char>::empty());
        assert(numeral(Seq::<char>::empty()) == 0);
        assert(d.last() == digit(n as int));
    } else {
        law_decimal(n / 10);
        let d = decimal(n);
        assert(d.drop_last() =~= decimal(n / 10));
        assert(d.last() == digit((n % 10) as int));
        assert forall|i: int| 0 <= i < d.len() implies '0' <= #[trigger] d[i] <= '9' by {
            if i < d.len() - 1 {
                assert(d[i] == decimal(n / 10)[i]);
            }
        }
        assert(d[0] == decimal(n / 10)[0]);
    }
}

/// The number that a text of digits stands for.
pub open spec fn numeral(text: Seq<char>) -> nat
    decreases text.len(),
{
    if text.len() == 0 {
        0
    } else {
        (numeral(text.drop_last()) * 10 + (text.last() as int - '0' as int)) as nat
    }
}

} // verus!
