//! Exceptions: throwing, captured call chains and stack traces.

use vstd::prelude::*;

use super::mirrors::named_field_written;
use super::{copy_frames, frames_view, CallFrame, ExceptionInfo, ExceptionMeta, FrameInfo, Shared, State, VmThread};
use crate::metadata::class_file::{ClassFile, ConstantPool, LineNumberEntry, MethodInfo};
use crate::runtime::oop::{InstanceOop, Object, Oop};
use crate::runtime::slot::{Reference, Slot};
use crate::runtime::string::{ensure_text_ready, intern, interned, text_pending};
use crate::runtime::text::{decimal, decimal_text, str_eq};
use crate::runtime::value::VmError;

verus! {

broadcast use crate::runtime::oop::oop_variant;

/// How many exceptions of a cause chain a trace shows.
pub const TRACE_DEPTH: u32 = 64;

/// What is known of an exception of which nothing was recorded.
pub open spec fn no_info() -> ExceptionInfo {
    ExceptionInfo { frames: Seq::empty(), cause: None, message: None }
}

/// What is known of an exception.
pub open spec fn info_of(s: State, exc: Reference) -> ExceptionInfo {
    if s.vm.exceptions.contains_key(exc) {
        s.vm.exceptions[exc]
    } else {
        no_info()
    }
}

/// State in which `info` is what is known of `exc`.
pub open spec fn with_info(s: State, exc: Reference, info: ExceptionInfo) -> State {
    State { vm: Shared { exceptions: s.vm.exceptions.insert(exc, info), ..s.vm }, ..s }
}

/// State after the current call chain was captured for `exc`.
pub open spec fn trace_recorded(s: State, exc: Reference) -> State {
    with_info(s, exc, ExceptionInfo { frames: s.thread.call_stack, ..info_of(s, exc) })
}

/// State after `cause` was recorded as the cause of `wrapper`.
pub open spec fn cause_recorded(s: State, wrapper: Reference, cause: Reference) -> State {
    with_info(s, wrapper, ExceptionInfo { cause: Some(cause), ..info_of(s, wrapper) })
}

/// State after `message` was recorded as the message of `exc`.
pub open spec fn message_recorded(s: State, exc: Reference, message: Seq<char>) -> State {
    with_info(s, exc, ExceptionInfo { message: Some(message), ..info_of(s, exc) })
}

/// The instance that stands for a thrown exception: with default fields if its class is loaded, without
/// fields otherwise.
pub open spec fn exception_object(s: State, class: Seq<char>) -> Object {
    match s.class(class) {
        Some(c) => c.fresh(),
        None => Object::Instance { class, fields: Seq::empty() },
    }
}

/// Throwing an exception of `class`: the state after it and the exception.
pub open spec fn thrown(s: State, class: Seq<char>) -> (State, Reference) {
    let (t, r) = s.alloc_object(exception_object(s, class));
    (trace_recorded(t, r), r)
}

/// Throwing an exception with a message, which also goes to its `detailMessage` field.
pub open spec fn thrown_with_message(s: State, class: Seq<char>, message: Seq<char>) -> (State, Reference) {
    let (s1, r) = thrown(s, class);
    let s2 = message_recorded(s1, r, message);
    match interned(s2, message) {
        (s3, Ok(text)) => (named_field_written(s3, r, class, "detailMessage"@, Slot::Reference(text)), r),
        (s3, Err(_)) => (s3, r),
    }
}

/// Throwing an exception with a message, unless an initializer has to run before its text can be interned.
pub open spec fn message_thrown(s: State, class: Seq<char>, message: Seq<char>) -> (State, VmError) {
    match text_pending(s, message) {
        Some(i) => (s, VmError::InitializerPending(i as usize)),
        None => (
            thrown_with_message(s, class, message).0,
            VmError::ThrownException(thrown_with_message(s, class, message).1),
        ),
    }
}

/// State after the call chain was captured for `exc` and its `backtrace` and `depth` fields were set.
pub open spec fn backtrace_captured(s: State, exc: Reference) -> State {
    let s1 = trace_recorded(s, exc);
    let s2 = named_field_written(s1, exc, "java/lang/Throwable"@, "backtrace"@, Slot::Reference(exc));
    named_field_written(s2, exc, "java/lang/Throwable"@, "depth"@, Slot::Int(s.thread.call_stack.len() as i32))
}

/// Of the entries that start at or before `pc` the one that starts last, the later one of two that start
/// together.
pub open spec fn line_entry(table: Seq<LineNumberEntry>, pc: int) -> Option<LineNumberEntry>
    decreases table.len(),
{
    if table.len() == 0 {
        None
    } else {
        let best = line_entry(table.drop_last(), pc);
        let e = table.last();
        if e.start_pc <= pc && (best is None || e.start_pc >= best->0.start_pc) {
            Some(e)
        } else {
            best
        }
    }
}

/// The line of `pc` in a method, if the method has this name, its code holds `pc` and a line covers it.
pub open spec fn method_line(m: MethodInfo, cp: ConstantPool, name: Seq<char>, pc: int) -> Option<u16> {
    if cp.utf8_at(m.name_index) == Some(name) && m.code is Some && pc < m.code->0.code@.len() {
        match line_entry(m.code->0.line_number_table@, pc) {
            Some(e) => Some(e.line_number),
            None => None,
        }
    } else {
        None
    }
}

/// The line of `pc` in the first method from `from` on that gives one.
pub open spec fn first_line(cf: ClassFile, name: Seq<char>, pc: int, from: int) -> Option<u16>
    decreases cf.methods@.len() - from,
{
    if from < 0 || from >= cf.methods@.len() {
        None
    } else {
        match method_line(cf.methods@[from], cf.constant_pool, name, pc) {
            Some(line) => Some(line),
            None => first_line(cf, name, pc, from + 1),
        }
    }
}

/// Source file and line of a frame; only if both are known.
pub open spec fn source_of(s: State, f: FrameInfo) -> Option<(Seq<char>, u16)> {
    match s.class(f.class) {
        Some(c) => match (c.cf.source_file, first_line(c.cf, f.method, f.pc as int, 0)) {
            (Some(file), Some(line)) => Some((file@, line)),
            _ => None,
        },
        None => None,
    }
}

/// `(File.java:LINE)`, or nothing if the source of the frame is not known.
pub open spec fn location_suffix(s: State, f: FrameInfo) -> Seq<char> {
    match source_of(s, f) {
        Some((file, line)) => seq!['('] + file + seq![':'] + decimal(line as nat) + seq![')'],
        None => Seq::empty(),
    }
}

/// The lines of a call chain, innermost frame first.
pub open spec fn frame_lines(s: State, frames: Seq<FrameInfo>) -> Seq<char>
    decreases frames.len(),
{
    if frames.len() == 0 {
        Seq::empty()
    } else {
        let f = frames.last();
        "\n\tat "@ + f.class + seq!['.'] + f.method + location_suffix(s, f) + frame_lines(s, frames.drop_last())
    }
}

/// Class of an exception as a trace shows it.
pub open spec fn shown_class(s: State, exc: Reference) -> Seq<char> {
    match s.object(exc) {
        Some(Object::Instance { class, .. }) => class,
        _ => "<unknown>"@,
    }
}

/// One exception of a trace: its class, its message and its frames.
pub open spec fn hop_text(s: State, exc: Reference) -> Seq<char> {
    let info = info_of(s, exc);
    shown_class(s, exc) + match info.message {
        Some(m) => ": "@ + m,
        None => Seq::empty(),
    } + frame_lines(s, info.frames)
}

/// An exception and its causes, at most `left` in all.
pub open spec fn chain_text(s: State, exc: Reference, left: nat) -> Seq<char>
    decreases left,
{
    if left == 0 {
        Seq::empty()
    } else {
        hop_text(s, exc) + match info_of(s, exc).cause {
            Some(c) => if left > 1 {
                "\nCaused by: "@ + chain_text(s, c, (left - 1) as nat)
            } else {
                Seq::empty()
            },
            None => Seq::empty(),
        }
    }
}

/// The stack trace of an exception; empty if nothing was recorded of it.
pub open spec fn trace_text(s: State, exc: Reference) -> Seq<char> {
    let info = info_of(s, exc);
    if info.frames.len() == 0 && info.cause is None && info.message is None {
        Seq::empty()
    } else {
        chain_text(s, exc, TRACE_DEPTH as nat)
    }
}

fn copy_text(t: &Option<String>) -> (r: Option<String>)
    ensures
        super::text_view(r) == super::text_view(*t),
{
    match t {
        Some(s) => Some(s.clone()),
        None => None,
    }
}

fn best_line(table: &Vec<LineNumberEntry>, pc: usize) -> (r: Option<LineNumberEntry>)
    ensures
        r == line_entry(table@, pc as int),
{
    let mut best: Option<LineNumberEntry> = None;
    let mut i: usize = 0;
    while i < table.len()
        invariant
            i <= table@.len(),
            best == line_entry(table@.take(i as int), pc as int),
        decreases table@.len() - i,
    {
        let e: LineNumberEntry = table[i];
        let better: bool = match best {
            Some(b) => e.start_pc >= b.start_pc,
            None => true,
        };
        if e.start_pc as usize <= pc && better {
            best = Some(e);
        }
        i = i + 1;
        assert(table@.take(i as int).drop_last() =~= table@.take(i - 1));
    }
    assert(table@.take(i as int) =~= table@);
    best
}

fn line_in_class(cf: &ClassFile, name: &str, pc: usize) -> (r: Option<u16>)
    ensures
        r == first_line(*cf, name@, pc as int, 0),
{
    let mut i: usize = 0;
    while i < cf.methods.len()
        invariant
            i <= cf.methods@.len(),
            first_line(*cf, name@, pc as int, 0) == first_line(*cf, name@, pc as int, i as int),
        decreases cf.methods@.len() - i,
    {
        let m: &MethodInfo = &cf.methods[i];
        let named: bool = match cf.constant_pool.utf8(m.name_index) {
            Some(n) => str_eq(n, name),
            None => false,
        };
        if named {
            match &m.code {
                Some(code) => {
                    if pc < code.code.len() {
                        match best_line(&code.line_number_table, pc) {
                            Some(e) => {
                                return Some(e.line_number);
                            },
                            None => {},
                        }
                    }
                },
                None => {},
            }
        }
        i = i + 1;
    }
    None
}

impl VmThread {
    /// What was recorded of an exception, in a copy.
    fn meta_of(&self, exc: Reference) -> (r: ExceptionMeta)
        ensures
            r@ == info_of(self@, exc),
    {
        match self.runtime.exception_meta.get(&exc) {
            Some(m) => ExceptionMeta { frames: copy_frames(&m.frames), cause: m.cause, message: copy_text(&m.message) },
            None => {
                let m = ExceptionMeta { frames: Vec::new(), cause: None, message: None };
                assert(m@ =~= no_info());
                m
            },
        }
    }

    /// Captures the current call chain for `exc`.
    pub fn record_trace(&mut self, exc: Reference)
        ensures
            final(self)@ == trace_recorded(old(self)@, exc),
    {
        let mut m: ExceptionMeta = self.meta_of(exc);
        m.frames = copy_frames(&self.thread.call_stack);
        self.runtime.exception_meta.insert(exc, m);
    }

    /// Records `cause` as the cause of `wrapper`.
    pub fn record_cause(&mut self, wrapper: Reference, cause: Reference)
        ensures
            final(self)@ == cause_recorded(old(self)@, wrapper, cause),
    {
        let mut m: ExceptionMeta = self.meta_of(wrapper);
        m.cause = Some(cause);
        self.runtime.exception_meta.insert(wrapper, m);
    }

    /// Records `message` as the message of `exc`.
    pub fn record_message(&mut self, exc: Reference, message: &str)
        ensures
            final(self)@ == message_recorded(old(self)@, exc, message@),
    {
        let mut m: ExceptionMeta = self.meta_of(exc);
        m.message = Some(message.to_owned());
        self.runtime.exception_meta.insert(exc, m);
    }

    /// Throws an exception of `class`.
    pub fn throw_exception(&mut self, class: &str) -> (r: VmError)
        ensures
            r == VmError::ThrownException(thrown(old(self)@, class@).1),
            final(self)@ == thrown(old(self)@, class@).0,
    {
        let inst: InstanceOop = match self.class(class) {
            Some(c) => c.new_instance(),
            None => InstanceOop::new(class.to_owned(), Vec::new()),
        };
        let exc: Reference = self.alloc_object(Oop::Instance(inst));
        self.record_trace(exc);
        VmError::ThrownException(exc)
    }

    /// Throws an exception of `class` with a message. Nothing is thrown, and nothing changes, while the string
    /// class has to be initialized first: the error says so.
    pub fn throw_exception_with_message(&mut self, class: &str, message: &str) -> (r: VmError)
        ensures
            (final(self)@, r) == message_thrown(old(self)@, class@, message@),
    {
        match ensure_text_ready(self, message) {
            Ok(_) => {},
            Err(e) => {
                return e;
            },
        }
        let err: VmError = self.throw_exception(class);
        match err {
            VmError::ThrownException(exc) => {
                self.record_message(exc, message);
                match intern(self, message) {
                    Ok(text) => self.set_instance_field_by_name(exc, class, "detailMessage", Slot::Reference(text)),
                    Err(_) => {},
                }
            },
            _ => {},
        }
        err
    }

    /// Captures the current call chain for `exc` and sets its `backtrace` and `depth` fields.
    pub fn capture_backtrace(&mut self, exc: Reference)
        ensures
            final(self)@ == backtrace_captured(old(self)@, exc),
    {
        self.record_trace(exc);
        self.set_instance_field_by_name(exc, "java/lang/Throwable", "backtrace", Slot::Reference(exc));
        let depth: i32 = self.thread.call_stack.len() as i32;
        self.set_instance_field_by_name(exc, "java/lang/Throwable", "depth", Slot::Int(depth));
    }

    /// Source file and line of a frame; only if both are known.
    pub fn frame_source(&self, f: &CallFrame) -> (r: Option<(String, u16)>)
        ensures
            match r {
                Some((file, line)) => source_of(self@, f@) == Some((file@, line)),
                None => source_of(self@, f@) is None,
            },
    {
        let c = match self.class(f.class.as_str()) {
            Some(c) => c,
            None => {
                return None;
            },
        };
        let line: Option<u16> = line_in_class(&c.cf, f.method.as_str(), f.pc as usize);
        match (&c.cf.source_file, line) {
            (Some(file), Some(l)) => Some((file.clone(), l)),
            _ => None,
        }
    }

    fn frame_location_suffix(&self, f: &CallFrame) -> (r: String)
        ensures
            r@ == location_suffix(self@, f@),
    {
        let mut out: String = String::new();
        match self.frame_source(f) {
            Some((file, line)) => {
                out.push('(');
                out.append(file.as_str());
                out.push(':');
                out.append(decimal_text(line as u64).as_str());
                out.push(')');
            },
            None => {},
        }
        assert(out@ =~= location_suffix(self@, f@));
        out
    }

    /// The call chain captured for an exception.
    pub fn exception_frames(&self, exc: Reference) -> (r: Option<Vec<CallFrame>>)
        ensures
            match r {
                Some(fs) => self@.vm.exceptions.contains_key(exc) && frames_view(fs@)
                    == self@.vm.exceptions[exc].frames,
                None => !self@.vm.exceptions.contains_key(exc),
            },
    {
        match self.runtime.exception_meta.get(&exc) {
            Some(m) => Some(copy_frames(&m.frames)),
            None => None,
        }
    }

    fn frames_text(&self, frames: &Vec<CallFrame>) -> (r: String)
        ensures
            r@ == frame_lines(self@, frames_view(frames@)),
    {
        let mut out: String = String::new();
        let mut n: usize = frames.len();
        let ghost all = frames_view(frames@);
        assert(all.take(n as int) =~= all);
        while n > 0
            invariant
                n <= frames@.len(),
                all == frames_view(frames@),
                out@ + frame_lines(self@, all.take(n as int)) == frame_lines(self@, all),
            decreases n,
        {
            let f: &CallFrame = &frames[n - 1];
            let ghost before = out@;
            out.append("\n\tat ");
            out.append(f.class.as_str());
            out.push('.');
            out.append(f.method.as_str());
            out.append(self.frame_location_suffix(f).as_str());
            proof {
                let t = all.take(n as int);
                assert(t.last() == f@);
                assert(t.drop_last() =~= all.take(n - 1));
                assert(out@ =~= before + ("\n\tat "@ + f@.class + seq!['.'] + f@.method + location_suffix(self@, f@)));
                assert(before + frame_lines(self@, t) =~= out@ + frame_lines(self@, all.take(n - 1)));
            }
            n = n - 1;
        }
        assert(out@ =~= frame_lines(self@, all));
        out
    }

    fn hop(&self, exc: Reference, meta: &ExceptionMeta) -> (r: String)
        requires
            meta@ == info_of(self@, exc),
        ensures
            r@ == hop_text(self@, exc),
    {
        let mut out: String = match self.heap().get(exc) {
            Some(Oop::Instance(i)) => i.class_name().to_owned(),
            _ => "<unknown>".to_owned(),
        };
        match &meta.message {
            Some(m) => {
                out.append(": ");
                out.append(m.as_str());
            },
            None => {},
        }
        out.append(self.frames_text(&meta.frames).as_str());
        assert(out@ =~= hop_text(self@, exc));
        out
    }

    fn chain(&self, exc: Reference, left: u32) -> (r: String)
        ensures
            r@ == chain_text(self@, exc, left as nat),
        decreases left,
    {
        if left == 0 {
            return String::new();
        }
        let meta: ExceptionMeta = self.meta_of(exc);
        let mut out: String = self.hop(exc, &meta);
        match meta.cause {
            Some(c) => {
                if left > 1 {
                    let rest: String = self.chain(c, left - 1);
                    out.append("\nCaused by: ");
                    out.append(rest.as_str());
                }
            },
            None => {},
        }
        assert(out@ =~= chain_text(self@, exc, left as nat));
        out
    }

    /// The stack trace of an exception: its class and message, its frames with the innermost first, then
    /// its causes. Empty if nothing was recorded of it.
    pub fn format_trace(&self, exc: Reference) -> (r: String)
        ensures
            r@ == trace_text(self@, exc),
    {
        let meta: ExceptionMeta = self.meta_of(exc);
        if meta.frames.len() == 0 && meta.cause.is_none() && meta.message.is_none() {
            return String::new();
        }
        self.chain(exc, TRACE_DEPTH)
    }
}

/// The chosen line entry covers `pc`, and no other entry that covers it starts later.
pub proof fn law_line_entry_is_the_closest(table: Seq<LineNumberEntry>, pc: int)
    ensures
        match line_entry(table, pc) {
            Some(e) => table.contains(e) && e.start_pc <= pc && forall|i: int|
                0 <= i < table.len() && (#[trigger] table[i]).start_pc <= pc ==> table[i].start_pc <= e.start_pc,
            None => forall|i: int| 0 <= i < table.len() ==> (#[trigger] table[i]).start_pc > pc,
        },
    decreases table.len(),
{
    if table.len() > 0 {
        let rest = table.drop_last();
        law_line_entry_is_the_closest(rest, pc);
        assert(table[table.len() - 1] == table.last());
        assert forall|i: int| 0 <= i < rest.len() implies rest[i] == table[i] by {}
        match line_entry(table, pc) {
            Some(e) => {
                if e != table.last() {
                    let j = choose|j: int| 0 <= j < rest.len() && rest[j] == e;
                    assert(table[j] == e);
                }
                assert forall|i: int| 0 <= i < table.len() && (#[trigger] table[i]).start_pc <= pc implies table[i].start_pc
                    <= e.start_pc by {
                    if i < rest.len() {
                        assert(rest[i] == table[i]);
                    }
                }
            },
            None => {
                assert forall|i: int| 0 <= i < table.len() implies (#[trigger] table[i]).start_pc > pc by {
                    if i < rest.len() {
                        assert(rest[i] == table[i]);
                    }
                }
            },
        }
    }
}

/// A thrown exception is an instance of its class, carries the call chain of the throw, and leaves every
/// object that was there before as it was.
pub proof fn law_thrown_exception(s: State, class: Seq<char>, other: Reference)
    requires
        s.vm.heap.len() < crate::runtime::heap::handle_space(),
    ensures
        thrown(s, class).0.object(thrown(s, class).1) == Some(exception_object(s, class)),
        info_of(thrown(s, class).0, thrown(s, class).1).frames == s.thread.call_stack,
        s.object(other) is Some ==> thrown(s, class).0.object(other) == s.object(other),
{
}

/// Recording a message or a cause keeps the captured call chain.
pub proof fn law_metadata_is_kept_apart(s: State, exc: Reference, cause: Reference, message: Seq<char>)
    ensures
        info_of(trace_recorded(s, exc), exc).frames == s.thread.call_stack,
        info_of(message_recorded(s, exc, message), exc).message == Some(message),
        info_of(message_recorded(s, exc, message), exc).frames == info_of(s, exc).frames,
        info_of(cause_recorded(s, exc, cause), exc).cause == Some(cause),
        info_of(cause_recorded(s, exc, cause), exc).message == info_of(s, exc).message,
{
}

/// A trace is empty exactly when nothing is known of the exception; otherwise it begins with its class.
pub proof fn law_trace_begins_with_the_class(s: State, exc: Reference)
    requires
        shown_class(s, exc).len() > 0,
    ensures
        trace_text(s, exc).len() == 0 <==> info_of(s, exc) == no_info(),
        trace_text(s, exc).len() > 0 ==> shown_class(s, exc).is_prefix_of(trace_text(s, exc)),
{
    let info = info_of(s, exc);
    if info.frames.len() == 0 && info.cause is None && info.message is None {
        assert(info =~= no_info());
    } else {
        let class = shown_class(s, exc);
        let text = trace_text(s, exc);
        assert(text =~= class + text.skip(class.len() as int));
        assert(class =~= text.subrange(0, class.len() as int));
    }
}

} // verus!
