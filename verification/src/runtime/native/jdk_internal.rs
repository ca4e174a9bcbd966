//! Native methods of `jdk.internal.misc`: `VM`, `CDS` and `Unsafe`.
//!
//! Objects have no addresses here. The "offset" of an instance field is its layout position; the offset of
//! an array element is the base offset plus the index times the element scale. A volatile access is a plain
//! access: threads take turns on the machine.

use vstd::prelude::*;

use super::java_lang::truth;
use super::registry::{Key, NativeRegistry};
use super::step::{
    done, error, get_int, get_long, get_reference, int_arg, long_arg, reference_arg, require_text, stopped,
    text_behind, throw, throws, value, NativeStep, Step,
};
use super::{class_arg_name, mirror_arg, Native};
use crate::runtime::oop::{slot_or_top, Object, Oop};
use crate::runtime::slot::{Reference, Slot};
use crate::runtime::text::{begins_with, str_eq};
use crate::runtime::value::{Value, VmError};
use crate::runtime::vm::class_mirrors::name_of;
use crate::runtime::vm::exceptions::thrown;
use crate::runtime::vm::{Shared, State, VmThread, NEXT_THREAD_ID_OFFSET};

verus! {

broadcast use crate::runtime::oop::oop_variant;

/// Offset of the first element of an array.
pub const ARRAY_BYTE_BASE_OFFSET: i64 = 16;

/// The native methods of `jdk.internal.misc`.
#[derive(Debug, Clone, Copy, PartialEq, Eq, Structural)]
pub enum JdkInternal {
    /// A method that has nothing to do here and returns nothing.
    Nothing,
    /// A method that returns the `int` 0.
    ZeroInt,
    /// A method that returns the `long` 0.
    ZeroLong,
    ArrayBaseOffset,
    ArrayIndexScale,
    PutByte,
    GetByte,
    ObjectFieldOffset,
    CompareAndSetReference,
    CompareAndSetInt,
    CompareAndSetLong,
    CompareAndExchangeInt,
    GetReferenceVolatile,
    PutReferenceVolatile,
    GetIntVolatile,
    PutIntVolatile,
    GetLongVolatile,
}

/// Bytes of an element, by the internal name of the array class; 1 for references and anything unknown.
pub open spec fn index_scale(name: Option<Seq<char>>) -> i32 {
    match name {
        Some(n) => if n == "[B"@ || n == "[Z"@ {
            1
        } else if n == "[C"@ || n == "[S"@ {
            2
        } else if n == "[I"@ || n == "[F"@ {
            4
        } else if n == "[J"@ || n == "[D"@ {
            8
        } else {
            1
        },
        None => 1,
    }
}

/// The character that tells the element type of an array class.
pub open spec fn element_tag(class: Seq<char>) -> Option<char> {
    if begins_with(class, '[') {
        if class.len() > 1 {
            Some(class[1])
        } else {
            None
        }
    } else if class.len() > 0 {
        Some(class[0])
    } else {
        None
    }
}

/// Bytes of an element of an array class.
pub open spec fn scale_of(class: Seq<char>) -> int {
    match element_tag(class) {
        Some(c) => if c == 'B' || c == 'Z' {
            1
        } else if c == 'C' || c == 'S' {
            2
        } else if c == 'I' || c == 'F' {
            4
        } else if c == 'J' || c == 'D' {
            8
        } else {
            1
        },
        None => 1,
    }
}

/// The quotient rounded toward zero, for a positive divisor.
pub open spec fn quotient(n: int, d: int) -> int {
    if n >= 0 {
        n / d
    } else {
        -((-n) / d)
    }
}

/// The element index that an offset into an array of class `class` stands for. May be out of range.
pub open spec fn element_index(class: Seq<char>, offset: i64) -> int {
    quotient(offset - ARRAY_BYTE_BASE_OFFSET, scale_of(class))
}

/// The slot behind an object and offset: a field or an array element. `None` if the index is out of range or
/// `o` is neither instance nor array.
pub open spec fn slot_behind(s: State, o: Reference, offset: i64) -> Option<Slot> {
    match s.object(o) {
        Some(Object::Instance { fields, .. }) => Some(slot_or_top(fields, offset as int)),
        Some(Object::Array { class, elements }) => {
            let i = element_index(class, offset);
            if 0 <= i < elements.len() {
                Some(elements[i])
            } else {
                None
            }
        },
        _ => None,
    }
}

/// The write of a slot behind an object and offset.
pub open spec fn slot_stored(s: State, o: Reference, offset: i64, slot: Slot) -> (State, Result<(), VmError>) {
    match s.object(o) {
        Some(Object::Instance { .. }) => (s.write_field(o, offset as int, slot), Ok(())),
        Some(Object::Array { class, elements }) => {
            let i = element_index(class, offset);
            if 0 <= i < elements.len() {
                (s.write_element(o, i, slot), Ok(()))
            } else {
                (
                    thrown(s, "java/lang/ArrayIndexOutOfBoundsException"@).0,
                    Err(VmError::ThrownException(thrown(s, "java/lang/ArrayIndexOutOfBoundsException"@).1)),
                )
            }
        },
        _ => (
            thrown(s, "java/lang/InternalError"@).0,
            Err(VmError::ThrownException(thrown(s, "java/lang/InternalError"@).1)),
        ),
    }
}

/// A value for a write that was made, or its error.
pub open spec fn after_store(o: (State, Result<(), VmError>), v: Value) -> (State, Result<Value, VmError>) {
    (
        o.0,
        match o.1 {
            Ok(_) => Ok(v),
            Err(e) => Err(e),
        },
    )
}

/// Compare and set: if the slot is `expected`, it becomes `x`. The outcome is whether it did.
pub open spec fn compared_and_set(s: State, o: Reference, offset: i64, expected: Slot, x: Slot) -> (
    State,
    Result<Value, VmError>,
) {
    if slot_behind(s, o, offset) == Some(expected) {
        after_store(slot_stored(s, o, offset, x), truth(true))
    } else {
        value(s, truth(false))
    }
}

/// Outcome of `Unsafe.putByte`.
pub open spec fn byte_put(s: State, args: Seq<Value>) -> (State, Result<Value, VmError>) {
    match (reference_arg(args, 0), long_arg(args, 1), int_arg(args, 2)) {
        (Some(arr), Some(offset), Some(b)) => match s.object(arr) {
            Some(Object::Array { elements, .. }) => {
                let i = offset - ARRAY_BYTE_BASE_OFFSET;
                if 0 <= i < elements.len() {
                    value(s.write_element(arr, i, Slot::Int(b)), Value::Void)
                } else {
                    throws(s, "java/lang/ArrayIndexOutOfBoundsException"@)
                }
            },
            _ => throws(s, "java/lang/InternalError"@),
        },
        _ => error(s, VmError::BadConstant("Unsafe.putByte 参数形状不符")),
    }
}

/// Outcome of `Unsafe.getByte`.
pub open spec fn byte_got(s: State, args: Seq<Value>) -> (State, Result<Value, VmError>) {
    match (reference_arg(args, 0), long_arg(args, 1)) {
        (Some(arr), Some(offset)) => match s.object(arr) {
            Some(Object::Array { elements, .. }) => {
                let i = offset - ARRAY_BYTE_BASE_OFFSET;
                if 0 <= i < elements.len() {
                    match elements[i] {
                        Slot::Int(v) => value(s, Value::Int(v)),
                        _ => error(s, VmError::BadConstant("Unsafe.getByte 元素非 int 槽")),
                    }
                } else {
                    throws(s, "java/lang/ArrayIndexOutOfBoundsException"@)
                }
            },
            _ => throws(s, "java/lang/InternalError"@),
        },
        _ => error(s, VmError::BadConstant("Unsafe.getByte 参数形状不符")),
    }
}

/// Outcome of `Unsafe.objectFieldOffset1`: the layout position of a field, -1 if there is none.
pub open spec fn field_offset(s: State, args: Seq<Value>) -> (State, Result<Value, VmError>) {
    match (reference_arg(args, 0), reference_arg(args, 1)) {
        (Some(mirror), Some(name)) => match name_of(s.vm.class_mirrors, mirror) {
            None => error(s, VmError::BadConstant("objectFieldOffset1:非 Class 镜像")),
            Some(internal) => match text_behind(s, Some(name)) {
                Err(e) => stopped(e),
                Ok(field) => value(
                    s,
                    Value::Long(
                        match s.field_ord(internal, field) {
                            Some(ord) => ord as i64,
                            None => (-1) as i64,
                        },
                    ),
                ),
            },
        },
        _ => throws(s, "java/lang/NullPointerException"@),
    }
}

/// Outcome of `Unsafe.compareAndSetReference`.
pub open spec fn reference_compared_and_set(s: State, args: Seq<Value>) -> (State, Result<Value, VmError>) {
    match (reference_arg(args, 0), long_arg(args, 1), reference_arg(args, 2), reference_arg(args, 3)) {
        (Some(o), Some(offset), Some(e), Some(x)) => compared_and_set(
            s,
            o,
            offset,
            Slot::Reference(e),
            Slot::Reference(x),
        ),
        _ => throws(s, "java/lang/NullPointerException"@),
    }
}

/// Outcome of `Unsafe.compareAndSetInt`.
pub open spec fn int_compared_and_set(s: State, args: Seq<Value>) -> (State, Result<Value, VmError>) {
    match (reference_arg(args, 0), long_arg(args, 1), int_arg(args, 2), int_arg(args, 3)) {
        (Some(o), Some(offset), Some(e), Some(x)) => compared_and_set(s, o, offset, Slot::Int(e), Slot::Int(x)),
        _ => throws(s, "java/lang/NullPointerException"@),
    }
}

/// Whether an access goes to the counter for the next thread id.
pub open spec fn is_thread_counter(o: Reference, offset: i64) -> bool {
    o.0 is None && offset == NEXT_THREAD_ID_OFFSET
}

/// Outcome of `Unsafe.compareAndSetLong`.
pub open spec fn long_compared_and_set(s: State, args: Seq<Value>) -> (State, Result<Value, VmError>) {
    match (reference_arg(args, 0), long_arg(args, 1), long_arg(args, 2), long_arg(args, 3)) {
        (Some(o), Some(offset), Some(e), Some(x)) => if is_thread_counter(o, offset) {
            if s.vm.next_tid as i64 == e {
                value(State { vm: Shared { next_tid: x as u64, ..s.vm }, ..s }, truth(true))
            } else {
                value(s, truth(false))
            }
        } else {
            compared_and_set(s, o, offset, Slot::Long(e), Slot::Long(x))
        },
        _ => throws(s, "java/lang/NullPointerException"@),
    }
}

/// Outcome of `Unsafe.compareAndExchangeInt`: like compare and set, with the value before as the result.
pub open spec fn int_exchanged(s: State, args: Seq<Value>) -> (State, Result<Value, VmError>) {
    match (reference_arg(args, 0), long_arg(args, 1), int_arg(args, 2), int_arg(args, 3)) {
        (Some(o), Some(offset), Some(e), Some(x)) => match slot_behind(s, o, offset) {
            Some(Slot::Int(v)) => if v == e {
                after_store(slot_stored(s, o, offset, Slot::Int(x)), Value::Int(v))
            } else {
                value(s, Value::Int(v))
            },
            _ => value(s, Value::Int(0)),
        },
        _ => throws(s, "java/lang/NullPointerException"@),
    }
}

/// Outcome of `Unsafe.getReferenceVolatile`: `null` if there is no reference.
pub open spec fn reference_got(s: State, args: Seq<Value>) -> (State, Result<Value, VmError>) {
    match (reference_arg(args, 0), long_arg(args, 1)) {
        (Some(o), Some(offset)) => value(
            s,
            match slot_behind(s, o, offset) {
                Some(Slot::Reference(r)) => Value::Reference(r),
                _ => Value::Reference(Reference(None)),
            },
        ),
        _ => throws(s, "java/lang/NullPointerException"@),
    }
}

/// Outcome of `Unsafe.putReferenceVolatile`.
pub open spec fn reference_put(s: State, args: Seq<Value>) -> (State, Result<Value, VmError>) {
    match (reference_arg(args, 0), long_arg(args, 1), reference_arg(args, 2)) {
        (Some(o), Some(offset), Some(x)) => after_store(
            slot_stored(s, o, offset, Slot::Reference(x)),
            Value::Void,
        ),
        _ => throws(s, "java/lang/NullPointerException"@),
    }
}

/// Outcome of `Unsafe.getIntVolatile`: 0 if there is no `int`.
pub open spec fn int_got(s: State, args: Seq<Value>) -> (State, Result<Value, VmError>) {
    match (reference_arg(args, 0), long_arg(args, 1)) {
        (Some(o), Some(offset)) => value(
            s,
            match slot_behind(s, o, offset) {
                Some(Slot::Int(v)) => Value::Int(v),
                _ => Value::Int(0),
            },
        ),
        _ => throws(s, "java/lang/NullPointerException"@),
    }
}

/// Outcome of `Unsafe.putIntVolatile`.
pub open spec fn int_put(s: State, args: Seq<Value>) -> (State, Result<Value, VmError>) {
    match (reference_arg(args, 0), long_arg(args, 1), int_arg(args, 2)) {
        (Some(o), Some(offset), Some(x)) => after_store(slot_stored(s, o, offset, Slot::Int(x)), Value::Void),
        _ => throws(s, "java/lang/NullPointerException"@),
    }
}

/// Outcome of `Unsafe.getLongVolatile`: 0 if there is no `long`.
pub open spec fn long_got(s: State, args: Seq<Value>) -> (State, Result<Value, VmError>) {
    match (reference_arg(args, 0), long_arg(args, 1)) {
        (Some(o), Some(offset)) => value(
            s,
            if is_thread_counter(o, offset) {
                Value::Long(s.vm.next_tid as i64)
            } else {
                match slot_behind(s, o, offset) {
                    Some(Slot::Long(v)) => Value::Long(v),
                    _ => Value::Long(0),
                }
            },
        ),
        _ => throws(s, "java/lang/NullPointerException"@),
    }
}

/// What a native method of `jdk.internal.misc` comes to.
pub open spec fn outcome(s: State, native: JdkInternal, args: Seq<Value>) -> (State, Step) {
    match native {
        JdkInternal::Nothing => done(value(s, Value::Void)),
        JdkInternal::ZeroInt => done(value(s, Value::Int(0))),
        JdkInternal::ZeroLong => done(value(s, Value::Long(0))),
        JdkInternal::ArrayBaseOffset => done(value(s, Value::Int(ARRAY_BYTE_BASE_OFFSET as i32))),
        JdkInternal::ArrayIndexScale => done(value(s, Value::Int(index_scale(mirror_arg(s, args))))),
        JdkInternal::PutByte => done(byte_put(s, args)),
        JdkInternal::GetByte => done(byte_got(s, args)),
        JdkInternal::ObjectFieldOffset => done(field_offset(s, args)),
        JdkInternal::CompareAndSetReference => done(reference_compared_and_set(s, args)),
        JdkInternal::CompareAndSetInt => done(int_compared_and_set(s, args)),
        JdkInternal::CompareAndSetLong => done(long_compared_and_set(s, args)),
        JdkInternal::CompareAndExchangeInt => done(int_exchanged(s, args)),
        JdkInternal::GetReferenceVolatile => done(reference_got(s, args)),
        JdkInternal::PutReferenceVolatile => done(reference_put(s, args)),
        JdkInternal::GetIntVolatile => done(int_got(s, args)),
        JdkInternal::PutIntVolatile => done(int_put(s, args)),
        JdkInternal::GetLongVolatile => done(long_got(s, args)),
    }
}

fn array_index_scale(name: Option<String>) -> (r: i32)
    ensures
        r == index_scale(
            match name {
                Some(n) => Some(n@),
                None => None,
            },
        ),
{
    match name {
        Some(name) => {
            let n: &str = name.as_str();
            if str_eq(n, "[B") || str_eq(n, "[Z") {
                1
            } else if str_eq(n, "[C") || str_eq(n, "[S") {
                2
            } else if str_eq(n, "[I") || str_eq(n, "[F") {
                4
            } else if str_eq(n, "[J") || str_eq(n, "[D") {
                8
            } else {
                1
            }
        },
        None => 1,
    }
}

/// Element index of a byte offset into a `byte` array. `None` for an offset before the first element.
pub fn byte_index(offset: i64) -> (r: Option<u64>)
    ensures
        match r {
            Some(i) => i == offset - ARRAY_BYTE_BASE_OFFSET,
            None => offset - ARRAY_BYTE_BASE_OFFSET < 0,
        },
{
    if offset < ARRAY_BYTE_BASE_OFFSET {
        None
    } else {
        Some((offset - ARRAY_BYTE_BASE_OFFSET) as u64)
    }
}

/// Bytes of an element of an array class.
pub fn array_scale(desc: &str) -> (r: u64)
    ensures
        r == scale_of(desc@),
        1 <= r <= 8,
{
    let n: usize = desc.unicode_len();
    let at: usize = if n > 0 && desc.get_char(0) == '[' {
        1
    } else {
        0
    };
    if at >= n {
        return 1;
    }
    let c: char = desc.get_char(at);
    if c == 'B' || c == 'Z' {
        1
    } else if c == 'C' || c == 'S' {
        2
    } else if c == 'I' || c == 'F' {
        4
    } else if c == 'J' || c == 'D' {
        8
    } else {
        1
    }
}

/// Element index of an offset into an array of class `desc`, unless it is negative.
pub fn array_index_from_offset(desc: &str, offset: i64) -> (r: Option<u64>)
    ensures
        match r {
            Some(i) => i == element_index(desc@, offset),
            None => element_index(desc@, offset) < 0,
        },
{
    let scale: u64 = array_scale(desc);
    match byte_index(offset) {
        Some(d) => Some(d / scale),
        None => {
            let before: i128 = 16 - offset as i128;
            let missing: u128 = before as u128;
            proof {
                let m = ARRAY_BYTE_BASE_OFFSET - offset;
                let k = scale as int;
                assert(m < k ==> m / k == 0) by (nonlinear_arith)
                    requires
                        0 < m,
                        0 < k,
                ;
                assert(m >= k ==> m / k >= 1) by (nonlinear_arith)
                    requires
                        0 < m,
                        0 < k,
                ;
            }
            if missing < scale as u128 {
                Some(0)
            } else {
                None
            }
        },
    }
}

fn read_slot(vm: &VmThread, o: Reference, offset: i64) -> (r: Option<Slot>)
    ensures
        r == slot_behind(vm@, o, offset),
{
    match vm.heap().get(o) {
        Some(Oop::Instance(i)) => if offset >= 0 && (offset as u64) < i.field_count() as u64 {
            Some(i.field(offset as usize))
        } else {
            Some(Slot::Top)
        },
        Some(Oop::Array(a)) => match array_index_from_offset(a.class_name(), offset) {
            Some(i) => if i < a.length() as u64 {
                Some(a.element(i as usize))
            } else {
                None
            },
            None => None,
        },
        _ => None,
    }
}

/// Where a slot behind an object and offset stands.
enum Place {
    Field(usize),
    /// A field past the end of every instance.
    NoField,
    Element(usize),
    OutOfRange,
    Nowhere,
}

fn place_of(vm: &VmThread, o: Reference, offset: i64) -> (r: Place)
    ensures
        match vm@.object(o) {
            Some(Object::Instance { fields, .. }) => match r {
                Place::Field(i) => i == offset,
                Place::NoField => offset < 0 || offset >= fields.len(),
                _ => false,
            },
            Some(Object::Array { class, elements }) => match r {
                Place::Element(i) => i == element_index(class, offset) && i < elements.len(),
                Place::OutOfRange => !(0 <= element_index(class, offset) < elements.len()),
                _ => false,
            },
            _ => r is Nowhere,
        },
{
    match vm.heap().get(o) {
        Some(Oop::Instance(i)) => {
            let n: usize = i.field_count();
            if offset >= 0 && (offset as u64) < n as u64 {
                Place::Field(offset as usize)
            } else {
                Place::NoField
            }
        },
        Some(Oop::Array(a)) => match array_index_from_offset(a.class_name(), offset) {
            Some(i) => if i < a.length() as u64 {
                Place::Element(i as usize)
            } else {
                Place::OutOfRange
            },
            None => Place::OutOfRange,
        },
        _ => Place::Nowhere,
    }
}

fn write_slot(vm: &mut VmThread, o: Reference, offset: i64, slot: Slot) -> (r: Result<(), VmError>)
    ensures
        (final(vm)@, r) == slot_stored(old(vm)@, o, offset, slot),
{
    match place_of(vm, o, offset) {
        Place::Field(i) => {
            vm.write_field(o, i, slot);
            Ok(())
        },
        Place::NoField => {
            assert(vm@.write_field(o, offset as int, slot).vm.heap =~= vm@.vm.heap);
            Ok(())
        },
        Place::Element(i) => {
            vm.write_element(o, i, slot);
            Ok(())
        },
        Place::OutOfRange => Err(vm.throw_exception("java/lang/ArrayIndexOutOfBoundsException")),
        Place::Nowhere => Err(vm.throw_exception("java/lang/InternalError")),
    }
}

/// `Unsafe.putByte` on a `byte` array.
pub fn put_byte(vm: &mut VmThread, args: &[Value]) -> (r: Result<Value, VmError>)
    ensures
        (final(vm)@, r) == byte_put(old(vm)@, args@),
{
    match (get_reference(args, 0), get_long(args, 1), get_int(args, 2)) {
        (Some(arr), Some(offset), Some(b)) => {
            let len: Option<usize> = match vm.heap().get(arr) {
                Some(Oop::Array(a)) => Some(a.length()),
                _ => None,
            };
            match len {
                None => throw(vm, "java/lang/InternalError"),
                Some(n) => match byte_index(offset) {
                    Some(i) => if i < n as u64 {
                        vm.write_element(arr, i as usize, Slot::Int(b));
                        Ok(Value::Void)
                    } else {
                        throw(vm, "java/lang/ArrayIndexOutOfBoundsException")
                    },
                    None => throw(vm, "java/lang/ArrayIndexOutOfBoundsException"),
                },
            }
        },
        _ => Err(VmError::BadConstant("Unsafe.putByte 参数形状不符")),
    }
}

/// `Unsafe.getByte` on a `byte` array.
pub fn get_byte(vm: &mut VmThread, args: &[Value]) -> (r: Result<Value, VmError>)
    ensures
        (final(vm)@, r) == byte_got(old(vm)@, args@),
{
    match (get_reference(args, 0), get_long(args, 1)) {
        (Some(arr), Some(offset)) => {
            match vm.heap().get(arr) {
                Some(Oop::Array(a)) => match byte_index(offset) {
                    Some(i) => if i < a.length() as u64 {
                        return match a.element(i as usize) {
                            Slot::Int(v) => Ok(Value::Int(v)),
                            _ => Err(VmError::BadConstant("Unsafe.getByte 元素非 int 槽")),
                        };
                    },
                    None => {},
                },
                _ => {
                    return throw(vm, "java/lang/InternalError");
                },
            }
            throw(vm, "java/lang/ArrayIndexOutOfBoundsException")
        },
        _ => Err(VmError::BadConstant("Unsafe.getByte 参数形状不符")),
    }
}

/// `Unsafe.objectFieldOffset1`: the layout position of a field, -1 if there is none.
pub fn object_field_offset(vm: &mut VmThread, args: &[Value]) -> (r: Result<Value, VmError>)
    ensures
        (final(vm)@, r) == field_offset(old(vm)@, args@),
{
    match (get_reference(args, 0), get_reference(args, 1)) {
        (Some(mirror), Some(name)) => match vm.mirror_internal_name(mirror) {
            None => Err(VmError::BadConstant("objectFieldOffset1:非 Class 镜像")),
            Some(internal) => match require_text(vm, Some(name)) {
                Err(e) => Err(e),
                Ok(field) => match vm.field_ord(internal.as_str(), field.as_str()) {
                    Some(ord) => Ok(Value::Long(ord as i64)),
                    None => Ok(Value::Long(-1)),
                },
            },
        },
        _ => throw(vm, "java/lang/NullPointerException"),
    }
}

fn compare_and_set_reference(vm: &mut VmThread, args: &[Value]) -> (r: Result<Value, VmError>)
    ensures
        (final(vm)@, r) == reference_compared_and_set(old(vm)@, args@),
{
    match (get_reference(args, 0), get_long(args, 1), get_reference(args, 2), get_reference(args, 3)) {
        (Some(o), Some(offset), Some(e), Some(x)) => {
            let same: bool = match read_slot(vm, o, offset) {
                Some(Slot::Reference(r)) => r == e,
                _ => false,
            };
            if same {
                match write_slot(vm, o, offset, Slot::Reference(x)) {
                    Ok(_) => Ok(Value::Int(1)),
                    Err(e) => Err(e),
                }
            } else {
                Ok(Value::Int(0))
            }
        },
        _ => throw(vm, "java/lang/NullPointerException"),
    }
}

fn compare_and_set_int(vm: &mut VmThread, args: &[Value]) -> (r: Result<Value, VmError>)
    ensures
        (final(vm)@, r) == int_compared_and_set(old(vm)@, args@),
{
    match (get_reference(args, 0), get_long(args, 1), get_int(args, 2), get_int(args, 3)) {
        (Some(o), Some(offset), Some(e), Some(x)) => {
            let same: bool = match read_slot(vm, o, offset) {
                Some(Slot::Int(v)) => v == e,
                _ => false,
            };
            if same {
                match write_slot(vm, o, offset, Slot::Int(x)) {
                    Ok(_) => Ok(Value::Int(1)),
                    Err(e) => Err(e),
                }
            } else {
                Ok(Value::Int(0))
            }
        },
        _ => throw(vm, "java/lang/NullPointerException"),
    }
}

fn compare_and_set_long(vm: &mut VmThread, args: &[Value]) -> (r: Result<Value, VmError>)
    ensures
        (final(vm)@, r) == long_compared_and_set(old(vm)@, args@),
{
    match (get_reference(args, 0), get_long(args, 1), get_long(args, 2), get_long(args, 3)) {
        (Some(o), Some(offset), Some(e), Some(x)) => {
            if o.is_null() && offset == NEXT_THREAD_ID_OFFSET {
                return if vm.cas_next_thread_id(e, x) {
                    Ok(Value::Int(1))
                } else {
                    Ok(Value::Int(0))
                };
            }
            let same: bool = match read_slot(vm, o, offset) {
                Some(Slot::Long(v)) => v == e,
                _ => false,
            };
            if same {
                match write_slot(vm, o, offset, Slot::Long(x)) {
                    Ok(_) => Ok(Value::Int(1)),
                    Err(e) => Err(e),
                }
            } else {
                Ok(Value::Int(0))
            }
        },
        _ => throw(vm, "java/lang/NullPointerException"),
    }
}

fn compare_and_exchange_int(vm: &mut VmThread, args: &[Value]) -> (r: Result<Value, VmError>)
    ensures
        (final(vm)@, r) == int_exchanged(old(vm)@, args@),
{
    match (get_reference(args, 0), get_long(args, 1), get_int(args, 2), get_int(args, 3)) {
        (Some(o), Some(offset), Some(e), Some(x)) => match read_slot(vm, o, offset) {
            Some(Slot::Int(v)) => if v == e {
                match write_slot(vm, o, offset, Slot::Int(x)) {
                    Ok(_) => Ok(Value::Int(v)),
                    Err(e) => Err(e),
                }
            } else {
                Ok(Value::Int(v))
            },
            _ => Ok(Value::Int(0)),
        },
        _ => throw(vm, "java/lang/NullPointerException"),
    }
}

fn get_reference_volatile(vm: &mut VmThread, args: &[Value]) -> (r: Result<Value, VmError>)
    ensures
        (final(vm)@, r) == reference_got(old(vm)@, args@),
{
    match (get_reference(args, 0), get_long(args, 1)) {
        (Some(o), Some(offset)) => Ok(
            match read_slot(vm, o, offset) {
                Some(Slot::Reference(r)) => Value::Reference(r),
                _ => Value::Reference(Reference(None)),
            },
        ),
        _ => throw(vm, "java/lang/NullPointerException"),
    }
}

fn put_reference_volatile(vm: &mut VmThread, args: &[Value]) -> (r: Result<Value, VmError>)
    ensures
        (final(vm)@, r) == reference_put(old(vm)@, args@),
{
    match (get_reference(args, 0), get_long(args, 1), get_reference(args, 2)) {
        (Some(o), Some(offset), Some(x)) => match write_slot(vm, o, offset, Slot::Reference(x)) {
            Ok(_) => Ok(Value::Void),
            Err(e) => Err(e),
        },
        _ => throw(vm, "java/lang/NullPointerException"),
    }
}

fn get_int_volatile(vm: &mut VmThread, args: &[Value]) -> (r: Result<Value, VmError>)
    ensures
        (final(vm)@, r) == int_got(old(vm)@, args@),
{
    match (get_reference(args, 0), get_long(args, 1)) {
        (Some(o), Some(offset)) => Ok(
            match read_slot(vm, o, offset) {
                Some(Slot::Int(v)) => Value::Int(v),
                _ => Value::Int(0),
            },
        ),
        _ => throw(vm, "java/lang/NullPointerException"),
    }
}

fn put_int_volatile(vm: &mut VmThread, args: &[Value]) -> (r: Result<Value, VmError>)
    ensures
        (final(vm)@, r) == int_put(old(vm)@, args@),
{
    match (get_reference(args, 0), get_long(args, 1), get_int(args, 2)) {
        (Some(o), Some(offset), Some(x)) => match write_slot(vm, o, offset, Slot::Int(x)) {
            Ok(_) => Ok(Value::Void),
            Err(e) => Err(e),
        },
        _ => throw(vm, "java/lang/NullPointerException"),
    }
}

fn get_long_volatile(vm: &mut VmThread, args: &[Value]) -> (r: Result<Value, VmError>)
    ensures
        (final(vm)@, r) == long_got(old(vm)@, args@),
{
    match (get_reference(args, 0), get_long(args, 1)) {
        (Some(o), Some(offset)) => if o.is_null() && offset == NEXT_THREAD_ID_OFFSET {
            Ok(Value::Long(vm.read_next_thread_id()))
        } else {
            Ok(
                match read_slot(vm, o, offset) {
                    Some(Slot::Long(v)) => Value::Long(v),
                    _ => Value::Long(0),
                },
            )
        },
        _ => throw(vm, "java/lang/NullPointerException"),
    }
}

/// Runs a native method of `jdk.internal.misc`.
pub fn run(vm: &mut VmThread, native: JdkInternal, args: &[Value]) -> (r: NativeStep)
    ensures
        (final(vm)@, r@) == outcome(old(vm)@, native, args@),
{
    NativeStep::Done(
        match native {
            JdkInternal::Nothing => Ok(Value::Void),
            JdkInternal::ZeroInt => Ok(Value::Int(0)),
            JdkInternal::ZeroLong => Ok(Value::Long(0)),
            JdkInternal::ArrayBaseOffset => Ok(Value::Int(ARRAY_BYTE_BASE_OFFSET as i32)),
            JdkInternal::ArrayIndexScale => Ok(Value::Int(array_index_scale(class_arg_name(vm, args)))),
            JdkInternal::PutByte => put_byte(vm, args),
            JdkInternal::GetByte => get_byte(vm, args),
            JdkInternal::ObjectFieldOffset => object_field_offset(vm, args),
            JdkInternal::CompareAndSetReference => compare_and_set_reference(vm, args),
            JdkInternal::CompareAndSetInt => compare_and_set_int(vm, args),
            JdkInternal::CompareAndSetLong => compare_and_set_long(vm, args),
            JdkInternal::CompareAndExchangeInt => compare_and_exchange_int(vm, args),
            JdkInternal::GetReferenceVolatile => get_reference_volatile(vm, args),
            JdkInternal::PutReferenceVolatile => put_reference_volatile(vm, args),
            JdkInternal::GetIntVolatile => get_int_volatile(vm, args),
            JdkInternal::PutIntVolatile => put_int_volatile(vm, args),
            JdkInternal::GetLongVolatile => get_long_volatile(vm, args),
        },
    )
}

/// The bindings of a registry after the native methods of `jdk.internal.misc` were added.
pub open spec fn registered(m: Map<Key, Native>) -> Map<Key, Native> {
    m.insert(
        ("jdk/internal/misc/VM"@, "initialize"@, "()V"@),
        Native::JdkInternal(JdkInternal::Nothing),
    ).insert(
        ("jdk/internal/misc/CDS"@, "initializeFromArchive"@, "(Ljava/lang/Class;)V"@),
        Native::JdkInternal(JdkInternal::Nothing),
    ).insert(
        ("jdk/internal/misc/CDS"@, "getCDSConfigStatus"@, "()I"@),
        Native::JdkInternal(JdkInternal::ZeroInt),
    ).insert(
        ("jdk/internal/misc/CDS"@, "getRandomSeedForDumping"@, "()J"@),
        Native::JdkInternal(JdkInternal::ZeroLong),
    ).insert(
        ("jdk/internal/misc/Unsafe"@, "arrayBaseOffset0"@, "(Ljava/lang/Class;)I"@),
        Native::JdkInternal(JdkInternal::ArrayBaseOffset),
    ).insert(
        ("jdk/internal/misc/Unsafe"@, "arrayIndexScale0"@, "(Ljava/lang/Class;)I"@),
        Native::JdkInternal(JdkInternal::ArrayIndexScale),
    ).insert(
        ("jdk/internal/misc/Unsafe"@, "putByte"@, "(Ljava/lang/Object;JB)V"@),
        Native::JdkInternal(JdkInternal::PutByte),
    ).insert(
        ("jdk/internal/misc/Unsafe"@, "getByte"@, "(Ljava/lang/Object;)B"@),
        Native::JdkInternal(JdkInternal::GetByte),
    ).insert(
        ("jdk/internal/misc/Unsafe"@, "getByte"@, "(Ljava/lang/Object;J)B"@),
        Native::JdkInternal(JdkInternal::GetByte),
    ).insert(
        ("jdk/internal/misc/Unsafe"@, "objectFieldOffset1"@, "(Ljava/lang/Class;Ljava/lang/String;)J"@),
        Native::JdkInternal(JdkInternal::ObjectFieldOffset),
    ).insert(
        ("jdk/internal/misc/Unsafe"@, "compareAndSetReference"@, "(Ljava/lang/Object;JLjava/lang/Object;Ljava/lang/Object;)Z"@),
        Native::JdkInternal(JdkInternal::CompareAndSetReference),
    ).insert(
        ("jdk/internal/misc/Unsafe"@, "compareAndSetInt"@, "(Ljava/lang/Object;JII)Z"@),
        Native::JdkInternal(JdkInternal::CompareAndSetInt),
    ).insert(
        ("jdk/internal/misc/Unsafe"@, "getReferenceVolatile"@, "(Ljava/lang/Object;J)Ljava/lang/Object;"@),
        Native::JdkInternal(JdkInternal::GetReferenceVolatile),
    ).insert(
        ("jdk/internal/misc/Unsafe"@, "putReferenceVolatile"@, "(Ljava/lang/Object;JLjava/lang/Object;)V"@),
        Native::JdkInternal(JdkInternal::PutReferenceVolatile),
    ).insert(
        ("jdk/internal/misc/Unsafe"@, "getIntVolatile"@, "(Ljava/lang/Object;J)I"@),
        Native::JdkInternal(JdkInternal::GetIntVolatile),
    ).insert(
        ("jdk/internal/misc/Unsafe"@, "putIntVolatile"@, "(Ljava/lang/Object;JI)V"@),
        Native::JdkInternal(JdkInternal::PutIntVolatile),
    ).insert(
        ("jdk/internal/misc/Unsafe"@, "getLongVolatile"@, "(Ljava/lang/Object;J)J"@),
        Native::JdkInternal(JdkInternal::GetLongVolatile),
    ).insert(
        ("jdk/internal/misc/Unsafe"@, "compareAndSetLong"@, "(Ljava/lang/Object;JJJ)Z"@),
        Native::JdkInternal(JdkInternal::CompareAndSetLong),
    ).insert(
        ("jdk/internal/misc/Unsafe"@, "compareAndExchangeInt"@, "(Ljava/lang/Object;JII)I"@),
        Native::JdkInternal(JdkInternal::CompareAndExchangeInt),
    )
}

/// Binds the native methods of `jdk.internal.misc`.
pub fn register(reg: &mut NativeRegistry<Native>)
    ensures
        final(reg)@ == registered(old(reg)@),
{
    reg.register(
        "jdk/internal/misc/VM",
        "initialize",
        "()V",
        Native::JdkInternal(JdkInternal::Nothing),
    );
    reg.register(
        "jdk/internal/misc/CDS",
        "initializeFromArchive",
        "(Ljava/lang/Class;)V",
        Native::JdkInternal(JdkInternal::Nothing),
    );
    reg.register(
        "jdk/internal/misc/CDS",
        "getCDSConfigStatus",
        "()I",
        Native::JdkInternal(JdkInternal::ZeroInt),
    );
    reg.register(
        "jdk/internal/misc/CDS",
        "getRandomSeedForDumping",
        "()J",
        Native::JdkInternal(JdkInternal::ZeroLong),
    );
    reg.register(
        "jdk/internal/misc/Unsafe",
        "arrayBaseOffset0",
        "(Ljava/lang/Class;)I",
        Native::JdkInternal(JdkInternal::ArrayBaseOffset),
    );
    reg.register(
        "jdk/internal/misc/Unsafe",
        "arrayIndexScale0",
        "(Ljava/lang/Class;)I",
        Native::JdkInternal(JdkInternal::ArrayIndexScale),
    );
    reg.register(
        "jdk/internal/misc/Unsafe",
        "putByte",
        "(Ljava/lang/Object;JB)V",
        Native::JdkInternal(JdkInternal::PutByte),
    );
    reg.register(
        "jdk/internal/misc/Unsafe",
        "getByte",
        "(Ljava/lang/Object;)B",
        Native::JdkInternal(JdkInternal::GetByte),
    );
    reg.register(
        "jdk/internal/misc/Unsafe",
        "getByte",
        "(Ljava/lang/Object;J)B",
        Native::JdkInternal(JdkInternal::GetByte),
    );
    reg.register(
        "jdk/internal/misc/Unsafe",
        "objectFieldOffset1",
        "(Ljava/lang/Class;Ljava/lang/String;)J",
        Native::JdkInternal(JdkInternal::ObjectFieldOffset),
    );
    reg.register(
        "jdk/internal/misc/Unsafe",
        "compareAndSetReference",
        "(Ljava/lang/Object;JLjava/lang/Object;Ljava/lang/Object;)Z",
        Native::JdkInternal(JdkInternal::CompareAndSetReference),
    );
    reg.register(
        "jdk/internal/misc/Unsafe",
        "compareAndSetInt",
        "(Ljava/lang/Object;JII)Z",
        Native::JdkInternal(JdkInternal::CompareAndSetInt),
    );
    reg.register(
        "jdk/internal/misc/Unsafe",
        "getReferenceVolatile",
        "(Ljava/lang/Object;J)Ljava/lang/Object;",
        Native::JdkInternal(JdkInternal::GetReferenceVolatile),
    );
    reg.register(
        "jdk/internal/misc/Unsafe",
        "putReferenceVolatile",
        "(Ljava/lang/Object;JLjava/lang/Object;)V",
        Native::JdkInternal(JdkInternal::PutReferenceVolatile),
    );
    reg.register(
        "jdk/internal/misc/Unsafe",
        "getIntVolatile",
        "(Ljava/lang/Object;J)I",
        Native::JdkInternal(JdkInternal::GetIntVolatile),
    );
    reg.register(
        "jdk/internal/misc/Unsafe",
        "putIntVolatile",
        "(Ljava/lang/Object;JI)V",
        Native::JdkInternal(JdkInternal::PutIntVolatile),
    );
    reg.register(
        "jdk/internal/misc/Unsafe",
        "getLongVolatile",
        "(Ljava/lang/Object;J)J",
        Native::JdkInternal(JdkInternal::GetLongVolatile),
    );
    reg.register(
        "jdk/internal/misc/Unsafe",
        "compareAndSetLong",
        "(Ljava/lang/Object;JJJ)Z",
        Native::JdkInternal(JdkInternal::CompareAndSetLong),
    );
    reg.register(
        "jdk/internal/misc/Unsafe",
        "compareAndExchangeInt",
        "(Ljava/lang/Object;JII)I",
        Native::JdkInternal(JdkInternal::CompareAndExchangeInt),
    );
}

/// The base offset plus index times scale is the offset of that element.
pub proof fn law_offset_of_element(class: Seq<char>, i: int, offset: i64)
    requires
        0 <= i,
        offset == ARRAY_BYTE_BASE_OFFSET + i * scale_of(class),
    ensures
        element_index(class, offset) == i,
{
    let k = scale_of(class);
    assert(i * k >= 0 && (i * k) / k == i) by (nonlinear_arith)
        requires
            0 <= i,
            0 < k,
    ;
}

/// What was written behind an object and offset is read back, and the write of one element leaves the others.
pub proof fn law_slot_read_after_write(s: State, o: Reference, offset: i64, slot: Slot, other: i64)
    requires
        slot_behind(s, o, offset) is Some,
        s.object(o) matches Some(Object::Instance { fields, .. }) ==> 0 <= offset < fields.len(),
    ensures
        slot_stored(s, o, offset, slot).1 == Ok::<(), VmError>(()),
        slot_behind(slot_stored(s, o, offset, slot).0, o, offset) == Some(slot),
        (match s.object(o) {
            Some(Object::Array { class, .. }) => element_index(class, other) != element_index(class, offset),
            _ => other != offset,
        }) ==> slot_behind(slot_stored(s, o, offset, slot).0, o, other) == slot_behind(s, o, other),
{
}

/// A compare and set that finds the expected value succeeds and leaves the new one; any other changes
/// nothing.
pub proof fn law_compare_and_set(s: State, o: Reference, offset: i64, expected: Slot, x: Slot)
    requires
        s.object(o) matches Some(Object::Instance { fields, .. }) ==> 0 <= offset < fields.len(),
    ensures
        slot_behind(s, o, offset) == Some(expected) ==> compared_and_set(s, o, offset, expected, x).1 == Ok::<
            Value,
            VmError,
        >(Value::Int(1)) && slot_behind(compared_and_set(s, o, offset, expected, x).0, o, offset) == Some(x),
        slot_behind(s, o, offset) != Some(expected) ==> compared_and_set(s, o, offset, expected, x) == (
            s,
            Ok::<Value, VmError>(Value::Int(0)),
        ),
{
    if slot_behind(s, o, offset) == Some(expected) {
        law_slot_read_after_write(s, o, offset, x, offset);
    }
}

/// The offset of a field leads to that field.
pub proof fn law_field_offset_leads_to_the_field(s: State, o: Reference, class: Seq<char>, field: Seq<char>, ord: i64)
    requires
        s.field_ord(class, field) == Some(ord as int),
        s.object(o) matches Some(Object::Instance { .. }),
    ensures
        slot_behind(s, o, ord) == crate::runtime::vm::mirrors::named_field(s, o, class, field),
{
}

/// The counter for thread ids behaves like any other `long`: what a compare and set wrote is read back, and one
/// that expects another value changes nothing.
pub proof fn law_thread_counter(s: State, x: i64, other: i64)
    ensures
        ({
            let null = Value::Reference(Reference(None));
            let offset = Value::Long(NEXT_THREAD_ID_OFFSET);
            let now = s.vm.next_tid as i64;
            let set = long_compared_and_set(s, seq![null, offset, Value::Long(now), Value::Long(x)]);
            &&& long_got(s, seq![null, offset]).1 == Ok::<Value, VmError>(Value::Long(now))
            &&& set.1 == Ok::<Value, VmError>(Value::Int(1))
            &&& long_got(set.0, seq![null, offset]).1 == Ok::<Value, VmError>(Value::Long(x))
            &&& other != now ==> long_compared_and_set(s, seq![null, offset, Value::Long(other), Value::Long(x)]) == (
                s,
                Ok::<Value, VmError>(Value::Int(0)),
            )
        }),
{
    assert((x as u64) as i64 == x) by (bit_vector);
}

} // verus!
