//! Calls of single static methods, ready to run.

use vstd::prelude::*;

use super::args::{arg_slots, fits, placed, set_args, set_value_args, value_slots, Arg};
use super::lookup::{is_first_method, method_place};
use crate::metadata::class_file::ClassFile;
use crate::runtime::frame::Frame;
use crate::runtime::invocation::{empty_locals, Call, Invocation};
use crate::runtime::slot::Slot;
use crate::runtime::value::{Value, VmError};
use crate::runtime::vm::{State, VmThread};

verus! {

/// Why a static method cannot be called.
#[derive(Debug, Clone, Copy, PartialEq, Eq, Structural)]
pub enum Unprepared {
    NoRegistry,
    ClassNotLoaded,
    MethodNotFound,
    NoCode,
    /// The arguments do not fit into the local variables, or one is `void`.
    BadArguments,
}

/// Whether values can be the arguments of a method with `max_locals` local variables.
pub open spec fn acceptable(max_locals: u16, args: Seq<Value>) -> bool {
    &&& forall|i: int| 0 <= i < args.len() ==> !((#[trigger] args[i]) is Void)
    &&& fits(empty_locals(max_locals), value_slots(args))
}

/// The call of method `m` of the class at `k`.
pub open spec fn static_call(s: State, k: int, m: int, args: Seq<Value>) -> Result<Call, Unprepared> {
    match s.vm.registry->0.classes()[k].cf.methods@[m].code {
        None => Err(Unprepared::NoCode),
        Some(code) => if acceptable(code.max_locals, args) {
            Ok(
                Call {
                    class: k as usize,
                    method: m as usize,
                    locals: placed(empty_locals(code.max_locals), value_slots(args), args.len() as int),
                    operands: Seq::empty(),
                    max_stack: code.max_stack as nat,
                },
            )
        } else {
            Err(Unprepared::BadArguments)
        },
    }
}

/// How many local variables values take; `None` if they are no arguments or too many.
fn total_width(args: &[Value], limit: u16) -> (r: Option<u16>)
    ensures
        r is Some == acceptable(limit, args@),
{
    let ghost slots = value_slots(args@);
    let mut at: u16 = 0;
    let mut i: usize = 0;
    while i < args.len()
        invariant
            i <= args@.len(),
            slots == value_slots(args@),
            slots.len() == args@.len(),
            at == super::args::offset_of(slots, i as int),
            at <= limit,
            forall|j: int| 0 <= j < i ==> !((#[trigger] args@[j]) is Void),
        decreases args@.len() - i,
    {
        let w: u16 = match args[i] {
            Value::Long(_) | Value::Double(_) => 2,
            Value::Void => {
                assert(args@[i as int] is Void);
                return None;
            },
            _ => 1,
        };
        proof {
            assert(slots[i as int] == super::args::value_slot(args@[i as int]));
            super::args::offset_monotone(slots, i + 1, slots.len() as int);
        }
        if limit - at < w {
            return None;
        }
        at = at + w;
        i = i + 1;
    }
    Some(at)
}

/// The call of the static method `class.name` with descriptor `desc` and the given arguments.
pub fn prepare_static_in(vm: &VmThread, class: &str, name: &str, desc: &str, args: &[Value]) -> (r: Result<
    Invocation,
    Unprepared,
>)
    ensures
        match vm@.vm.registry {
            None => r matches Err(e) && e == Unprepared::NoRegistry,
            Some(reg) => match reg.index_of(class@) {
                None => r matches Err(e) && e == Unprepared::ClassNotLoaded,
                Some(k) => if exists|m: int|
                    #[trigger] is_first_method(reg.classes()[k].cf, m, name@, desc@) {
                    exists|m: int| #[trigger]
                        is_first_method(reg.classes()[k].cf, m, name@, desc@) && match r {
                            Ok(i) => static_call(vm@, k, m, args@) == Ok::<Call, Unprepared>(i@),
                            Err(e) => static_call(vm@, k, m, args@) == Err::<Call, Unprepared>(e),
                        }
                } else {
                    r matches Err(e) && e == Unprepared::MethodNotFound
                },
            },
        },
{
    match vm.registry() {
        None => Err(Unprepared::NoRegistry),
        Some(reg) => match reg.position(class) {
            None => Err(Unprepared::ClassNotLoaded),
            Some(k) => match reg.class_at(k) {
                None => Err(Unprepared::ClassNotLoaded),
                Some(c) => match method_place(&c.cf, name, desc) {
                    None => Err(Unprepared::MethodNotFound),
                    Some(m) => match &c.cf.methods[m].code {
                        None => Err(Unprepared::NoCode),
                        Some(code) => match total_width(args, code.max_locals) {
                            None => Err(Unprepared::BadArguments),
                            Some(_) => {
                                let mut frame: Frame = Frame::new(code.max_locals, code.max_stack);
                                assert(frame.locals@ == empty_locals(code.max_locals));
                                set_value_args(&mut frame, args);
                                Ok(Invocation { class: k, method: m, frame })
                            },
                        },
                    },
                },
            },
        },
    }
}

/// The frame of the first method with this name and descriptor, with its arguments.
pub fn prepare_raw(cf: &ClassFile, name: &str, desc: &str, args: &[Arg]) -> (r: Frame)
    requires
        exists|m: int| #[trigger]
            is_first_method(*cf, m, name@, desc@) && cf.methods@[m].code is Some && fits(
                empty_locals(cf.methods@[m].code->0.max_locals),
                arg_slots(args@),
            ),
    ensures
        exists|m: int| #[trigger]
            is_first_method(*cf, m, name@, desc@) && r.locals@ == placed(
                empty_locals(cf.methods@[m].code->0.max_locals),
                arg_slots(args@),
                args@.len() as int,
            ) && r.operands.max_depth() == cf.methods@[m].code->0.max_stack,
        r.operands@ == Seq::<Slot>::empty(),
{
    let ghost known = choose|m: int| #[trigger]
        is_first_method(*cf, m, name@, desc@) && cf.methods@[m].code is Some && fits(
            empty_locals(cf.methods@[m].code->0.max_locals),
            arg_slots(args@),
        );
    match method_place(cf, name, desc) {
        Some(m) => {
            proof {
                if m < known {
                    assert(super::lookup::is_method(*cf, m as int, name@, desc@));
                } else if known < m {
                    assert(super::lookup::is_method(*cf, known, name@, desc@));
                }
            }
            match &cf.methods[m].code {
                Some(code) => {
                    let mut frame: Frame = Frame::new(code.max_locals, code.max_stack);
                    assert(frame.locals@ == empty_locals(code.max_locals));
                    set_args(&mut frame, args);
                    frame
                },
                None => {
                    assert(false);
                    Frame::new(0, 0)
                },
            }
        },
        None => {
            assert(super::lookup::is_method(*cf, known, name@, desc@));
            Frame::new(0, 0)
        },
    }
}

/// The `int` that a method returned; an error if it returned anything else.
pub fn static_int(result: Result<Value, VmError>) -> (r: Result<i32, VmError>)
    ensures
        r == match result {
            Ok(Value::Int(n)) => Ok::<i32, VmError>(n),
            Ok(_) => Err::<i32, VmError>(VmError::BadConstant("run_static_int 期望 int 返回")),
            Err(e) => Err::<i32, VmError>(e),
        },
{
    match result {
        Ok(Value::Int(n)) => Ok(n),
        Ok(_) => Err(VmError::BadConstant("run_static_int 期望 int 返回")),
        Err(e) => Err(e),
    }
}

/// A static method can be called if it has code, no argument is `void`, and the arguments have room among its local
/// variables; the call runs that method, with an empty stack of the depth that the method wants.
pub proof fn law_static_calls(s: State, k: usize, m: usize, args: Seq<Value>, i: int)
    ensures
        ({
            let code = s.vm.registry->0.classes()[k as int].cf.methods@[m as int].code;
            let r = static_call(s, k as int, m as int, args);
            let room = super::args::offset_of(value_slots(args), args.len() as int);
            &&& code is None ==> r == Err::<Call, Unprepared>(Unprepared::NoCode)
            &&& code is Some && 0 <= i < args.len() && args[i] is Void ==> r == Err::<Call, Unprepared>(
                Unprepared::BadArguments,
            )
            &&& code is Some && room > code->0.max_locals ==> r == Err::<Call, Unprepared>(Unprepared::BadArguments)
            &&& code is Some && (forall|j: int| 0 <= j < args.len() ==> !((#[trigger] args[j]) is Void)) && room
                <= code->0.max_locals ==> r is Ok && r->Ok_0.class == k && r->Ok_0.method == m && r->Ok_0.operands.len()
                == 0 && r->Ok_0.max_stack == code->0.max_stack && r->Ok_0.locals.len() == code->0.max_locals
        }),
{
    let code = s.vm.registry->0.classes()[k as int].cf.methods@[m as int].code;
    if code is Some {
        let empty = empty_locals(code->0.max_locals);
        if super::args::offset_of(value_slots(args), args.len() as int) <= code->0.max_locals {
            super::args::placed_len(empty, value_slots(args), args.len() as int);
        }
    }
}

} // verus!
