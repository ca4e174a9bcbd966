//! What the instructions that shuffle the operand stack leave, when they fail, and what a local variable holds.

use vstd::prelude::*;

use super::frame::FrameError;
use super::local_vars::{slot_at, stored, stored_wide};
use super::operand_stack::{
    after_dup2, after_dup2_x1, after_dup2_x2, after_dup_x1, after_dup_x2, after_pop, after_pop2, after_pop_wide, after_push,
    after_push_wide, after_swap,
};
use super::slot::Slot;

verus! {

/// Values go on top of the stack and come from the top; a `long` or `double` takes a slot and a placeholder behind it.
/// Without room there is an overflow and the stack stays as it is.
pub proof fn law_pushing(s: Seq<Slot>, max: nat, v: Slot)
    ensures
        s.len() < max ==> after_push(s, max, v) == (s + seq![v], Ok::<(), FrameError>(())),
        s.len() >= max ==> after_push(s, max, v) == (s, Err::<(), FrameError>(FrameError::Overflow)),
        s.len() + 2 <= max ==> after_push_wide(s, max, v) == (s + seq![v, Slot::Top], Ok::<(), FrameError>(())),
        s.len() + 2 > max ==> after_push_wide(s, max, v) == (s, Err::<(), FrameError>(FrameError::Overflow)),
        after_pop(s + seq![v]) == (s, Ok::<Slot, FrameError>(v)),
        after_pop(Seq::empty()).1 == Err::<Slot, FrameError>(FrameError::Underflow),
        after_pop_wide(s + seq![v, Slot::Top]) == (s, Ok::<Slot, FrameError>(v)),
        s.len() < 2 ==> after_pop_wide(s).1 == Err::<Slot, FrameError>(FrameError::Underflow),
        s.len() < 2 ==> after_pop2(s) == (s, Err::<(), FrameError>(FrameError::Underflow)),
{
    assert(s.push(v) =~= s + seq![v]);
    assert(s.push(v).push(Slot::Top) =~= s + seq![v, Slot::Top]);
    assert((s + seq![v]).drop_last() =~= s);
    let w = s + seq![v, Slot::Top];
    assert(w.take(w.len() - 2) =~= s);
}

/// What `swap`, `pop2` and the forms of `dup` make of the slots on top, `a` below `b` below `c` below `d`, if there is
/// room.
pub proof fn law_shuffling(s: Seq<Slot>, max: nat, a: Slot, b: Slot, c: Slot, d: Slot)
    requires
        s.len() + 6 <= max,
    ensures
        after_swap(s + seq![a, b], max) == (s + seq![b, a], Ok::<(), FrameError>(())),
        after_pop2(s + seq![a, b]) == (s, Ok::<(), FrameError>(())),
        after_dup_x1(s + seq![a, b], max) == (s + seq![b, a, b], Ok::<(), FrameError>(())),
        after_dup_x2(s + seq![a, b, c], max) == (s + seq![c, a, b, c], Ok::<(), FrameError>(())),
        after_dup2(s + seq![a, b], max) == (s + seq![a, b, a, b], Ok::<(), FrameError>(())),
        after_dup2_x1(s + seq![a, b, c], max) == (s + seq![b, c, a, b, c], Ok::<(), FrameError>(())),
        after_dup2_x2(s + seq![a, b, c, d], max) == (s + seq![c, d, a, b, c, d], Ok::<(), FrameError>(())),
{
    let two = s + seq![a, b];
    let three = s + seq![a, b, c];
    let four = s + seq![a, b, c, d];
    assert(two.take(two.len() - 2) =~= s);
    assert(after_swap(two, max).0 =~= s + seq![b, a]);
    assert(after_pop2(two).0 =~= s);
    assert(after_dup_x1(two, max).0 =~= s + seq![b, a, b]);
    assert(after_dup_x2(three, max).0 =~= s + seq![c, a, b, c]);
    assert(after_dup2(two, max).0 =~= s + seq![a, b, a, b]);
    assert(after_dup2_x1(three, max).0 =~= s + seq![b, c, a, b, c]);
    assert(after_dup2_x2(four, max).0 =~= s + seq![c, d, a, b, c, d]);
}

/// Each of them needs the slots that it touches, or there is an underflow, and room for what it adds, or there is an
/// overflow.
pub proof fn law_when_shuffling_fails(s: Seq<Slot>, max: nat)
    requires
        s.len() <= max,
    ensures
        ({
            let outcome = |needs: int, adds: int|
                if s.len() < needs {
                    Err::<(), FrameError>(FrameError::Underflow)
                } else if s.len() + adds > max {
                    Err::<(), FrameError>(FrameError::Overflow)
                } else {
                    Ok::<(), FrameError>(())
                };
            &&& after_swap(s, max).1 == outcome(2, 0)
            &&& after_dup_x1(s, max).1 == outcome(2, 1)
            &&& after_dup_x2(s, max).1 == outcome(3, 1)
            &&& after_dup2(s, max).1 == outcome(2, 2)
            &&& after_dup2_x1(s, max).1 == outcome(3, 2)
            &&& after_dup2_x2(s, max).1 == outcome(4, 2)
        }),
{
}

/// What a failed instruction leaves: without enough slots, what it had not taken yet, which is nothing but for a
/// placeholder that it would have had to take together with the slot under it; without enough room, the lower part of
/// what it would have left.
pub proof fn law_what_a_failure_leaves(s: Seq<Slot>, max: nat)
    requires
        s.len() <= max,
    ensures
        ({
            let n = s.len() as int;
            let none = Seq::<Slot>::empty();
            &&& n < 2 ==> after_swap(s, max).0 == s && after_pop2(s).0 == s && after_dup2_x1(s, max).0 == s
                && after_dup2_x2(s, max).0 == s && after_dup_x1(s, max).0 == none && after_pop_wide(s).0 == none
            &&& n < 2 ==> after_pop2(s).1 == Err::<(), FrameError>(FrameError::Underflow) && after_pop_wide(s).1
                == Err::<Slot, FrameError>(FrameError::Underflow)
            &&& n == 0 ==> after_pop(s) == (s, Err::<Slot, FrameError>(FrameError::Underflow))
            &&& n == 2 ==> after_dup2_x1(s, max).0 == none && after_dup2_x2(s, max).0 == none
            &&& n < 2 ==> after_dup_x2(s, max).0 == none
            &&& n == 2 ==> after_dup_x2(s, max).0 == if s[0] is Top {
                s.take(1)
            } else {
                none
            }
            &&& n < 2 ==> after_dup2(s, max).0 == if n == 1 && s[0] is Top {
                s
            } else {
                none
            }
            &&& n == 3 ==> after_dup2_x2(s, max).0 == if s[0] is Top {
                s.take(1)
            } else {
                none
            }
            &&& n >= 2 && n + 1 > max ==> after_dup_x1(s, max).0 == (s.take(n - 2) + seq![s[n - 1], s[n - 2], s[n
                - 1]]).take(max as int)
            &&& n >= 3 && n + 1 > max ==> after_dup_x2(s, max).0 == (s.take(n - 3) + seq![
                s[n - 1],
                s[n - 3],
                s[n - 2],
                s[n - 1],
            ]).take(max as int)
            &&& n >= 2 && n + 2 > max ==> after_dup2(s, max).0 == (s + seq![s[n - 2], s[n - 1]]).take(max as int)
            &&& n >= 3 && n + 2 > max ==> after_dup2_x1(s, max).0 == (s.take(n - 3) + seq![
                s[n - 2],
                s[n - 1],
                s[n - 3],
                s[n - 2],
                s[n - 1],
            ]).take(max as int)
            &&& n >= 4 && n + 2 > max ==> after_dup2_x2(s, max).0 == (s.take(n - 4) + seq![
                s[n - 2],
                s[n - 1],
                s[n - 4],
                s[n - 3],
                s[n - 2],
                s[n - 1],
            ]).take(max as int)
        }),
{
    let n = s.len() as int;
    if n == 0 {
        assert(s =~= Seq::<Slot>::empty());
    }
    if n >= 2 {
        assert(seq![s.last()] + super::operand_stack::top(s, 2) =~= seq![s[n - 1], s[n - 2], s[n - 1]]);
    }
    if n >= 3 {
        assert(seq![s.last()] + super::operand_stack::top(s, 3) =~= seq![s[n - 1], s[n - 3], s[n - 2], s[n - 1]]);
    }
}

/// A local variable that the table does not have cannot be read or written: the place that is missing is named and
/// nothing changes. A `long` or `double` needs the next place too.
pub proof fn law_locals_that_are_not_there(locals: Seq<Slot>, index: u16, v: Slot)
    ensures
        index < locals.len() ==> slot_at(locals, index) == Ok::<Slot, FrameError>(locals[index as int]),
        index >= locals.len() ==> slot_at(locals, index) == Err::<Slot, FrameError>(FrameError::BadLocalIndex(index)),
        index >= locals.len() ==> stored(locals, index, v) == (
            locals,
            Err::<(), FrameError>(FrameError::BadLocalIndex(index)),
        ),
        index < u16::MAX && index + 1 >= locals.len() ==> stored_wide(locals, index, v) == (
            locals,
            Err::<(), FrameError>(FrameError::BadLocalIndex((index + 1) as u16)),
        ),
        index == u16::MAX ==> stored_wide(locals, index, v) == (
            locals,
            Err::<(), FrameError>(FrameError::BadLocalIndex(u16::MAX)),
        ),
        index < locals.len() ==> ({
            let (t, r) = stored(locals, index, v);
            &&& r is Ok && t.len() == locals.len() && t[index as int] == v
            &&& forall|j: int| 0 <= j < locals.len() && j != index ==> #[trigger] t[j] == locals[j]
        }),
        index < u16::MAX && index + 1 < locals.len() ==> ({
            let (t, r) = stored_wide(locals, index, v);
            &&& r is Ok && t.len() == locals.len() && t[index as int] == v && t[index + 1] == Slot::Top
            &&& forall|j: int| 0 <= j < locals.len() && j != index && j != index + 1 ==> #[trigger] t[j] == locals[j]
        }),
{
}

} // verus!
