//! Arguments in the local variables of a frame: one slot each, two for `long` and `double`.

use vstd::prelude::*;

use crate::runtime::frame::Frame;
use crate::runtime::slot::Slot;
use crate::runtime::value::Value;

verus! {

/// An argument of primitive type. Floating-point values are held by their bit patterns.
#[derive(Debug, Clone, Copy, PartialEq, Eq, Structural)]
pub enum Arg {
    I(i32),
    L(i64),
    F(u32),
    D(u64),
}

/// The slot of an argument.
pub open spec fn arg_slot(a: Arg) -> Slot {
    match a {
        Arg::I(v) => Slot::Int(v),
        Arg::L(v) => Slot::Long(v),
        Arg::F(v) => Slot::Float(v),
        Arg::D(v) => Slot::Double(v),
    }
}

/// The slot of a value; `void` has none.
pub open spec fn value_slot(v: Value) -> Slot {
    match v {
        Value::Int(x) => Slot::Int(x),
        Value::Long(x) => Slot::Long(x),
        Value::Float(x) => Slot::Float(x),
        Value::Double(x) => Slot::Double(x),
        Value::Reference(r) => Slot::Reference(r),
        Value::Void => Slot::Top,
    }
}

/// The slots of arguments.
pub open spec fn arg_slots(args: Seq<Arg>) -> Seq<Slot> {
    args.map_values(|a: Arg| arg_slot(a))
}

/// The slots of values.
pub open spec fn value_slots(args: Seq<Value>) -> Seq<Slot> {
    args.map_values(|v: Value| value_slot(v))
}

/// How many local variables a slot takes.
pub open spec fn width(slot: Slot) -> int {
    if slot.is_category_2() {
        2
    } else {
        1
    }
}

/// How many local variables the first `n` slots take.
pub open spec fn offset_of(slots: Seq<Slot>, n: int) -> int
    decreases n,
{
    if n <= 0 {
        0
    } else {
        offset_of(slots, n - 1) + width(slots[n - 1])
    }
}

/// The local variables after the first `n` slots were written, from index 0 on.
pub open spec fn placed(locals: Seq<Slot>, slots: Seq<Slot>, n: int) -> Seq<Slot>
    decreases n,
{
    if n <= 0 {
        locals
    } else {
        let before = placed(locals, slots, n - 1);
        let at = offset_of(slots, n - 1);
        if slots[n - 1].is_category_2() {
            before.update(at + 1, Slot::Top).update(at, slots[n - 1])
        } else {
            before.update(at, slots[n - 1])
        }
    }
}

/// Whether all slots fit into a table of local variables and can be indexed.
pub open spec fn fits(locals: Seq<Slot>, slots: Seq<Slot>) -> bool {
    offset_of(slots, slots.len() as int) <= locals.len() && offset_of(slots, slots.len() as int) <= u16::MAX
}

/// More slots take more local variables, at least one each.
pub(crate) proof fn offset_monotone(slots: Seq<Slot>, a: int, b: int)
    requires
        0 <= a <= b,
    ensures
        a <= offset_of(slots, a) <= offset_of(slots, b),
    decreases b,
{
    if a < b {
        offset_monotone(slots, a, b - 1);
    } else if 0 < a {
        offset_monotone(slots, a - 1, a - 1);
    }
}

pub(crate) proof fn placed_len(locals: Seq<Slot>, slots: Seq<Slot>, n: int)
    requires
        offset_of(slots, n) <= locals.len(),
    ensures
        placed(locals, slots, n).len() == locals.len(),
    decreases n,
{
    if n > 0 {
        offset_monotone(slots, n - 1, n);
        placed_len(locals, slots, n - 1);
    }
}

/// Writes one slot at an index where it fits.
fn place(frame: &mut Frame, at: u16, slot: Slot)
    requires
        at + width(slot) <= old(frame).locals@.len(),
        at + width(slot) <= u16::MAX,
        slot is Int || slot is Long || slot is Float || slot is Double || slot is Reference,
    ensures
        final(frame).locals@ == if slot.is_category_2() {
            old(frame).locals@.update(at + 1, Slot::Top).update(at as int, slot)
        } else {
            old(frame).locals@.update(at as int, slot)
        },
        final(frame).operands == old(frame).operands,
{
    match slot {
        Slot::Int(v) => {
            let _ = frame.locals.set_int(at, v);
        },
        Slot::Long(v) => {
            let _ = frame.locals.set_long(at, v);
        },
        Slot::Float(v) => {
            let _ = frame.locals.set_float(at, v);
        },
        Slot::Double(v) => {
            let _ = frame.locals.set_double(at, v);
        },
        Slot::Reference(v) => {
            let _ = frame.locals.set_reference(at, v);
        },
        _ => {},
    }
}

/// Writes arguments of primitive type to the local variables, from index 0 on.
pub fn set_args(frame: &mut Frame, args: &[Arg])
    requires
        fits(old(frame).locals@, arg_slots(args@)),
    ensures
        final(frame).locals@ == placed(old(frame).locals@, arg_slots(args@), args@.len() as int),
        final(frame).operands == old(frame).operands,
{
    let ghost slots = arg_slots(args@);
    let mut at: u16 = 0;
    let mut i: usize = 0;
    while i < args.len()
        invariant
            i <= args@.len(),
            slots == arg_slots(args@),
            fits(old(frame).locals@, slots),
            at == offset_of(slots, i as int),
            frame.locals@ == placed(old(frame).locals@, slots, i as int),
            frame.operands == old(frame).operands,
        decreases args@.len() - i,
    {
        proof {
            offset_monotone(slots, i as int, i + 1);
            offset_monotone(slots, i + 1, slots.len() as int);
            placed_len(old(frame).locals@, slots, i as int);
            assert(slots[i as int] == arg_slot(args@[i as int]));
        }
        let slot: Slot = match args[i] {
            Arg::I(v) => Slot::Int(v),
            Arg::L(v) => Slot::Long(v),
            Arg::F(v) => Slot::Float(v),
            Arg::D(v) => Slot::Double(v),
        };
        place(frame, at, slot);
        at = if slot.is_category_2() {
            at + 2
        } else {
            at + 1
        };
        i = i + 1;
    }
}

/// Writes arguments, references among them, to the local variables, from index 0 on. `void` is no argument.
pub fn set_value_args(frame: &mut Frame, args: &[Value])
    requires
        forall|i: int| 0 <= i < args@.len() ==> !((#[trigger] args@[i]) is Void),
        fits(old(frame).locals@, value_slots(args@)),
    ensures
        final(frame).locals@ == placed(old(frame).locals@, value_slots(args@), args@.len() as int),
        final(frame).operands == old(frame).operands,
{
    let ghost slots = value_slots(args@);
    let mut at: u16 = 0;
    let mut i: usize = 0;
    while i < args.len()
        invariant
            i <= args@.len(),
            forall|i: int| 0 <= i < args@.len() ==> !((#[trigger] args@[i]) is Void),
            slots == value_slots(args@),
            fits(old(frame).locals@, slots),
            at == offset_of(slots, i as int),
            frame.locals@ == placed(old(frame).locals@, slots, i as int),
            frame.operands == old(frame).operands,
        decreases args@.len() - i,
    {
        proof {
            offset_monotone(slots, i as int, i + 1);
            offset_monotone(slots, i + 1, slots.len() as int);
            placed_len(old(frame).locals@, slots, i as int);
            assert(slots[i as int] == value_slot(args@[i as int]));
        }
        let slot: Slot = match args[i] {
            Value::Int(v) => Slot::Int(v),
            Value::Long(v) => Slot::Long(v),
            Value::Float(v) => Slot::Float(v),
            Value::Double(v) => Slot::Double(v),
            Value::Reference(v) => Slot::Reference(v),
            Value::Void => Slot::Top,
        };
        place(frame, at, slot);
        at = if slot.is_category_2() {
            at + 2
        } else {
            at + 1
        };
        i = i + 1;
    }
}

/// Every argument stands at the sum of the widths before it, a `long` or `double` has its placeholder behind it,
/// and what lies behind all of them is untouched.
pub proof fn law_arguments_read_back(locals: Seq<Slot>, slots: Seq<Slot>, n: int, i: int, rest: int)
    requires
        0 <= i < n <= slots.len(),
        offset_of(slots, n) <= locals.len(),
    ensures
        placed(locals, slots, n)[offset_of(slots, i)] == slots[i],
        slots[i].is_category_2() ==> placed(locals, slots, n)[offset_of(slots, i) + 1] == Slot::Top,
        offset_of(slots, n) <= rest < locals.len() ==> placed(locals, slots, n)[rest] == locals[rest],
    decreases n,
{
    offset_monotone(slots, n - 1, n);
    placed_len(locals, slots, n - 1);
    offset_monotone(slots, i, n - 1);
    if i < n - 1 {
        offset_monotone(slots, i + 1, n - 1);
        law_arguments_read_back(locals, slots, n - 1, i, rest);
    } else if offset_of(slots, n) <= rest < locals.len() {
        untouched_behind(locals, slots, n - 1, rest);
    }
}

proof fn untouched_behind(locals: Seq<Slot>, slots: Seq<Slot>, n: int, rest: int)
    requires
        0 <= n <= slots.len(),
        offset_of(slots, n) <= rest < locals.len(),
    ensures
        placed(locals, slots, n)[rest] == locals[rest],
    decreases n,
{
    if n > 0 {
        offset_monotone(slots, n - 1, n);
        placed_len(locals, slots, n - 1);
        untouched_behind(locals, slots, n - 1, rest);
    }
}

/// An argument takes one local variable, a `long` or `double` two, and the first stands at 0.
pub proof fn law_widths(slots: Seq<Slot>, i: int)
    requires
        0 <= i < slots.len(),
    ensures
        offset_of(slots, 0) == 0,
        slots[i] is Long || slots[i] is Double ==> offset_of(slots, i + 1) == offset_of(slots, i) + 2,
        !(slots[i] is Long || slots[i] is Double) ==> offset_of(slots, i + 1) == offset_of(slots, i) + 1,
{
}

/// An argument is held in the slot of its own kind.
pub proof fn law_kinds_of_arguments(args: Seq<Arg>, values: Seq<Value>, i: int)
    ensures
        0 <= i < args.len() ==> arg_slots(args)[i] == match args[i] {
            Arg::I(v) => Slot::Int(v),
            Arg::L(v) => Slot::Long(v),
            Arg::F(v) => Slot::Float(v),
            Arg::D(v) => Slot::Double(v),
        },
        0 <= i < values.len() && !(values[i] is Void) ==> value_slots(values)[i] == match values[i] {
            Value::Int(v) => Slot::Int(v),
            Value::Long(v) => Slot::Long(v),
            Value::Float(v) => Slot::Float(v),
            Value::Double(v) => Slot::Double(v),
            Value::Reference(r) => Slot::Reference(r),
            Value::Void => Slot::Top,
        },
        arg_slots(args).len() == args.len(),
        value_slots(values).len() == values.len(),
{
}

} // verus!
