//! `checkcast` and `instanceof`.

use vstd::prelude::*;

use super::frame::{Frame, FrameError};
use super::oop::{Object, Oop};
use super::operand_stack::{after_pop, after_push};
use super::slot::{Reference, Slot};
use super::text::{begins_with, slice, starts_with_char, str_eq};
use super::value::VmError;
use super::vm::exceptions::thrown;
use super::vm::{State, VmThread};
use crate::metadata::class_file::ConstantPool;
use crate::metadata::class_registry::ClassRegistry;
use crate::metadata::descriptor::{descriptor, Type};

verus! {

broadcast use super::oop::oop_variant;

/// Whether an object is an array, and its type: the descriptor of an array, the class of an instance, the
/// functional interface of a closure.
pub open spec fn type_of_object(s: State, r: Reference) -> Result<(bool, Seq<char>), VmError> {
    match s.object(r) {
        None => Err(VmError::BadConstant("checkcast/instanceof 引用悬空")),
        Some(Object::Instance { class, .. }) => Ok((false, class)),
        Some(Object::Array { class, .. }) => Ok((true, class)),
        Some(Object::Lambda { sam_type }) => Ok((false, sam_type)),
    }
}

/// The class in a component descriptor such as `Ljava/lang/String;`; `None` for anything else.
pub open spec fn component_class(component: Seq<char>) -> Option<Seq<char>> {
    if component.len() >= 2 && component[0] == 'L' && component.last() == ';' {
        Some(component.subrange(1, component.len() - 1))
    } else {
        None
    }
}

/// Whether every array is of type `target`.
pub open spec fn array_supertype(target: Seq<char>) -> bool {
    target == "java/lang/Object"@ || target == "java/lang/Cloneable"@ || target == "java/io/Serializable"@
}

/// Whether an array of descriptor `sub` is of type `target`:
/// - every array is an `Object`, `Cloneable` and `Serializable`;
/// - of its own type;
/// - an `Object[]` if its components are references;
/// - a `Cloneable[]` or `Serializable[]` if its components are arrays;
/// - of any other array type if its components are of the component type.
pub open spec fn array_is(sub: Seq<char>, target: Seq<char>, reg: ClassRegistry) -> bool
    decreases sub.len(),
{
    if array_supertype(target) || sub == target {
        true
    } else if !begins_with(sub, '[') || !begins_with(target, '[') {
        false
    } else {
        let sub_comp = sub.skip(1);
        let target_comp = target.skip(1);
        if target_comp == "Ljava/lang/Object;"@ {
            begins_with(sub_comp, '[') || begins_with(sub_comp, 'L')
        } else if begins_with(sub_comp, '[') && begins_with(target_comp, '[') {
            array_is(sub_comp, target_comp, reg)
        } else if begins_with(sub_comp, '[') {
            component_class(target_comp) matches Some(b) && array_supertype(b)
        } else {
            match (component_class(sub_comp), component_class(target_comp)) {
                (Some(a), Some(b)) => reg.subtype(a, b),
                _ => false,
            }
        }
    }
}

/// Whether the object is of the type that entry `index` of the constant pool names.
pub open spec fn object_is(cp: ConstantPool, s: State, r: Reference, index: u16) -> Result<bool, VmError> {
    match cp.class_name_at(index) {
        None => Err(VmError::BadConstant("checkcast/instanceof 类引用解析失败")),
        Some(target) => match type_of_object(s, r) {
            Err(e) => Err(e),
            Ok((is_array, class)) => match s.vm.registry {
                None => Err(VmError::BadConstant("checkcast/instanceof 需类注册表")),
                Some(reg) => Ok(
                    if is_array {
                        array_is(class, target, reg)
                    } else {
                        reg.subtype(class, target)
                    },
                ),
            },
        },
    }
}

/// The reference on top of the operand stack, and the stack without it.
pub open spec fn reference_popped(operands: Seq<Slot>) -> (Seq<Slot>, Result<Reference, VmError>) {
    (
        after_pop(operands).0,
        match after_pop(operands).1 {
            Ok(Slot::Reference(r)) => Ok(r),
            Ok(_) => Err(VmError::Frame(FrameError::TypeMismatch)),
            Err(e) => Err(VmError::Frame(e)),
        },
    )
}

/// A slot pushed on the operand stack.
pub open spec fn slot_pushed(operands: Seq<Slot>, max: nat, slot: Slot) -> (Seq<Slot>, Result<(), VmError>) {
    (
        after_push(operands, max, slot).0,
        match after_push(operands, max, slot).1 {
            Ok(_) => Ok(()),
            Err(e) => Err(VmError::Frame(e)),
        },
    )
}

/// Effect of `checkcast`: operand stack, state and outcome.
pub open spec fn cast_checked(cp: ConstantPool, operands: Seq<Slot>, max: nat, s: State, index: u16) -> (
    Seq<Slot>,
    State,
    Result<(), VmError>,
) {
    match reference_popped(operands) {
        (rest, Err(e)) => (rest, s, Err(e)),
        (rest, Ok(r)) => match (if r.0 is None {
            Ok(true)
        } else {
            object_is(cp, s, r, index)
        }) {
            Err(e) => (rest, s, Err(e)),
            Ok(fits) => match slot_pushed(rest, max, Slot::Reference(r)) {
                (back, Err(e)) => (back, s, Err(e)),
                (back, Ok(_)) => if fits {
                    (back, s, Ok(()))
                } else {
                    (
                        back,
                        thrown(s, "java/lang/ClassCastException"@).0,
                        Err(VmError::ThrownException(thrown(s, "java/lang/ClassCastException"@).1)),
                    )
                },
            },
        },
    }
}

/// Effect of `instanceof`: operand stack and outcome.
pub open spec fn instance_checked(cp: ConstantPool, operands: Seq<Slot>, max: nat, s: State, index: u16) -> (
    Seq<Slot>,
    Result<(), VmError>,
) {
    match reference_popped(operands) {
        (rest, Err(e)) => (rest, Err(e)),
        (rest, Ok(r)) => match (if r.0 is None {
            Ok(false)
        } else {
            object_is(cp, s, r, index)
        }) {
            Err(e) => (rest, Err(e)),
            Ok(fits) => slot_pushed(
                rest,
                max,
                Slot::Int(
                    if fits {
                        1
                    } else {
                        0
                    },
                ),
            ),
        },
    }
}

fn object_type(vm: &VmThread, objref: Reference) -> (r: Result<(bool, String), VmError>)
    ensures
        match r {
            Ok((b, n)) => type_of_object(vm@, objref) == Ok::<(bool, Seq<char>), VmError>((b, n@)),
            Err(e) => type_of_object(vm@, objref) == Err::<(bool, Seq<char>), VmError>(e),
        },
{
    match vm.heap().get(objref) {
        None => Err(VmError::BadConstant("checkcast/instanceof 引用悬空")),
        Some(Oop::Instance(i)) => Ok((false, i.class_name().to_owned())),
        Some(Oop::Array(a)) => Ok((true, a.class_name().to_owned())),
        Some(Oop::Lambda(l)) => Ok((false, l.sam_type().to_owned())),
    }
}

/// The class in a component descriptor such as `Ljava/lang/String;`; `None` for anything else.
pub fn class_of_obj_desc(component: &str) -> (r: Option<String>)
    ensures
        match r {
            Some(c) => component_class(component@) == Some(c@),
            None => component_class(component@) is None,
        },
{
    let n: usize = component.unicode_len();
    if n >= 2 && component.get_char(0) == 'L' && component.get_char(n - 1) == ';' {
        Some(slice(component, 1, n - 1))
    } else {
        None
    }
}

fn is_array_supertype(target: &str) -> (r: bool)
    ensures
        r == array_supertype(target@),
{
    str_eq(target, "java/lang/Object") || str_eq(target, "java/lang/Cloneable") || str_eq(target, "java/io/Serializable")
}

/// Whether an array of descriptor `sub` is of type `target`; see [`array_is`].
pub fn array_instanceof(sub: &str, target: &str, reg: &ClassRegistry) -> (r: bool)
    ensures
        r == array_is(sub@, target@, *reg),
    decreases sub@.len(),
{
    if is_array_supertype(target) {
        return true;
    }
    if str_eq(sub, target) {
        return true;
    }
    if !starts_with_char(sub, '[') || !starts_with_char(target, '[') {
        return false;
    }
    let sub_len: usize = sub.unicode_len();
    let target_len: usize = target.unicode_len();
    let sub_comp: String = slice(sub, 1, sub_len);
    let target_comp: String = slice(target, 1, target_len);
    assert(sub_comp@ =~= sub@.skip(1));
    assert(target_comp@ =~= target@.skip(1));
    if str_eq(target_comp.as_str(), "Ljava/lang/Object;") {
        return starts_with_char(sub_comp.as_str(), '[') || starts_with_char(sub_comp.as_str(), 'L');
    }
    if starts_with_char(sub_comp.as_str(), '[') && starts_with_char(target_comp.as_str(), '[') {
        return array_instanceof(sub_comp.as_str(), target_comp.as_str(), reg);
    }
    if starts_with_char(sub_comp.as_str(), '[') {
        return match class_of_obj_desc(target_comp.as_str()) {
            Some(b) => is_array_supertype(b.as_str()),
            None => false,
        };
    }
    match (class_of_obj_desc(sub_comp.as_str()), class_of_obj_desc(target_comp.as_str())) {
        (Some(a), Some(b)) => reg.is_instance(a.as_str(), b.as_str()),
        _ => false,
    }
}

/// Whether the object is of the type that entry `index` of the constant pool names.
fn matches(cp: &ConstantPool, vm: &VmThread, objref: Reference, index: u16) -> (r: Result<bool, VmError>)
    ensures
        r == object_is(*cp, vm@, objref, index),
{
    match cp.class_name(index) {
        None => Err(VmError::BadConstant("checkcast/instanceof 类引用解析失败")),
        Some(target) => match object_type(vm, objref) {
            Err(e) => Err(e),
            Ok((is_array, class)) => match vm.registry() {
                None => Err(VmError::BadConstant("checkcast/instanceof 需类注册表")),
                Some(reg) => Ok(
                    if is_array {
                        array_instanceof(class.as_str(), target, reg)
                    } else {
                        reg.is_instance(class.as_str(), target)
                    },
                ),
            },
        },
    }
}

/// `checkcast`: the reference on top of the operand stack stays; a `ClassCastException` if it is not of the
/// type. `null` is of every type.
pub fn check_cast(cp: &ConstantPool, frame: &mut Frame, vm: &mut VmThread, index: u16) -> (r: Result<(), VmError>)
    ensures
        (final(frame).operands@, final(vm)@, r) == cast_checked(
            *cp,
            old(frame).operands@,
            old(frame).operands.max_depth(),
            old(vm)@,
            index,
        ),
        final(frame).operands.max_depth() == old(frame).operands.max_depth(),
        final(frame).locals == old(frame).locals,
{
    let objref: Reference = match frame.operands.pop_reference() {
        Ok(r) => r,
        Err(e) => {
            return Err(VmError::Frame(e));
        },
    };
    let ok: bool = if objref.is_null() {
        true
    } else {
        match matches(cp, vm, objref, index) {
            Ok(b) => b,
            Err(e) => {
                return Err(e);
            },
        }
    };
    match frame.operands.push_reference(objref) {
        Ok(_) => {},
        Err(e) => {
            return Err(VmError::Frame(e));
        },
    }
    if ok {
        Ok(())
    } else {
        Err(vm.throw_exception("java/lang/ClassCastException"))
    }
}

/// `instanceof`: the reference on top of the operand stack becomes 1 if it is of the type, 0 if not. `null` is
/// of no type.
pub fn instance_of(cp: &ConstantPool, frame: &mut Frame, vm: &VmThread, index: u16) -> (r: Result<(), VmError>)
    ensures
        (final(frame).operands@, r) == instance_checked(
            *cp,
            old(frame).operands@,
            old(frame).operands.max_depth(),
            vm@,
            index,
        ),
        final(frame).operands.max_depth() == old(frame).operands.max_depth(),
        final(frame).locals == old(frame).locals,
{
    let objref: Reference = match frame.operands.pop_reference() {
        Ok(r) => r,
        Err(e) => {
            return Err(VmError::Frame(e));
        },
    };
    let result: i32 = if objref.is_null() {
        0
    } else {
        match matches(cp, vm, objref, index) {
            Ok(b) => if b {
                1
            } else {
                0
            },
            Err(e) => {
                return Err(e);
            },
        }
    };
    match frame.operands.push_int(result) {
        Ok(_) => Ok(()),
        Err(e) => Err(VmError::Frame(e)),
    }
}

/// Every array is an `Object`, a `Cloneable`, a `Serializable` and of its own type.
pub proof fn law_every_array(sub: Seq<char>, reg: ClassRegistry)
    ensures
        array_is(sub, "java/lang/Object"@, reg),
        array_is(sub, "java/lang/Cloneable"@, reg),
        array_is(sub, "java/io/Serializable"@, reg),
        array_is(sub, sub, reg),
{
}

/// An array of references is an `Object[]`, an array of primitive values is not.
pub proof fn law_object_array(component: Seq<char>, reg: ClassRegistry)
    requires
        component.len() > 0,
        component != "Ljava/lang/Object;"@,
    ensures
        array_is(seq!['['] + component, seq!['['] + "Ljava/lang/Object;"@, reg) == (begins_with(component, '[')
            || begins_with(component, 'L')),
{
    reveal_strlit("Ljava/lang/Object;");
    reveal_strlit("java/lang/Object");
    reveal_strlit("java/lang/Cloneable");
    reveal_strlit("java/io/Serializable");
    let sub = seq!['['] + component;
    let target = seq!['['] + "Ljava/lang/Object;"@;
    assert(sub.skip(1) =~= component);
    assert(target.skip(1) =~= "Ljava/lang/Object;"@);
    assert(target[0] == '[');
    assert("java/lang/Object"@[0] == 'j');
    assert("java/lang/Cloneable"@[0] == 'j');
    assert("java/io/Serializable"@[0] == 'j');
    assert(sub != target);
}

/// Whether a value of type `a` can be assigned to a variable of type `b`: primitive types only to themselves, every
/// class to `Object` and its supertypes, an array to the types that every array has and to the array types that it
/// is of.
pub open spec fn assignable(a: Type, b: Type, reg: ClassRegistry) -> bool {
    match (a, b) {
        (Type::Class(x), Type::Class(y)) => y == "java/lang/Object"@ || reg.subtype(x, y),
        (Type::Array(_), Type::Class(y)) => array_supertype(y),
        (Type::Array(_), Type::Array(_)) => array_is(descriptor(a), descriptor(b), reg),
        _ => a == b,
    }
}

/// An array is of another array type exactly if its components can be assigned to components of that type.
pub proof fn law_arrays_follow_their_components(a: Type, b: Type, reg: ClassRegistry)
    ensures
        array_is(seq!['['] + descriptor(a), seq!['['] + descriptor(b), reg) == assignable(a, b, reg),
{
    reveal_strlit("Ljava/lang/Object;");
    reveal_strlit("java/lang/Object");
    reveal_strlit("java/lang/Cloneable");
    reveal_strlit("java/io/Serializable");
    let x = descriptor(a);
    let y = descriptor(b);
    let sub = seq!['['] + x;
    let target = seq!['['] + y;
    assert(sub.skip(1) =~= x);
    assert(target.skip(1) =~= y);
    assert(target[0] == '[');
    assert("java/lang/Object"@[0] == 'j');
    assert("java/lang/Cloneable"@[0] == 'j');
    assert("java/io/Serializable"@[0] == 'j');
    if sub == target {
        assert(x =~= y);
    }
    match b {
        Type::Class(n) => {
            assert(y[0] == 'L' && y.last() == ';');
            assert(y.subrange(1, y.len() - 1) =~= n);
            assert("Ljava/lang/Object;"@ =~= seq!['L'] + "java/lang/Object"@ + seq![';']);
            if y == "Ljava/lang/Object;"@ {
                assert("Ljava/lang/Object;"@.subrange(1, 17) =~= "java/lang/Object"@);
            }
        },
        Type::Array(_) => {
            assert(y[0] == '[');
            assert("Ljava/lang/Object;"@[0] == 'L');
        },
        _ => {
            assert(y.len() == 1);
            assert("Ljava/lang/Object;"@.len() == 18);
        },
    }
    match a {
        Type::Class(n) => {
            assert(x[0] == 'L' && x.last() == ';' && x.len() >= 2);
            assert(x.subrange(1, x.len() - 1) =~= n);
            assert(component_class(x) == Some(n));
            if let Type::Class(m) = b {
                assert(component_class(y) == Some(m));
            }
        },
        Type::Array(_) => {
            assert(x[0] == '[');
        },
        _ => {
            assert(x.len() == 1);
            assert(x[0] != '[' && x[0] != 'L');
            assert(component_class(x) is None);
            assert(array_is(sub, target, reg) == (x == y));
            if x == y {
                assert(x[0] == y[0]);
            }
        },
    }
}

/// One dimension more on both sides changes nothing.
pub proof fn law_dimensions_cancel(sub: Seq<char>, target: Seq<char>, reg: ClassRegistry)
    requires
        begins_with(sub, '['),
        begins_with(target, '['),
    ensures
        array_is(seq!['['] + sub, seq!['['] + target, reg) == array_is(sub, target, reg),
{
    reveal_strlit("Ljava/lang/Object;");
    reveal_strlit("java/lang/Object");
    reveal_strlit("java/lang/Cloneable");
    reveal_strlit("java/io/Serializable");
    let a = seq!['['] + sub;
    let b = seq!['['] + target;
    assert(a.skip(1) =~= sub);
    assert(b.skip(1) =~= target);
    assert(b[0] == '[');
    assert("java/lang/Object"@[0] == 'j');
    assert("java/lang/Cloneable"@[0] == 'j');
    assert("java/io/Serializable"@[0] == 'j');
    assert("Ljava/lang/Object;"@[0] == 'L');
    assert(sub == target ==> a == b);
    if a == b {
        assert(sub =~= target);
    }
}

/// A cast succeeds exactly when the object is of the type, and then leaves everything as it was; `null` can be
/// cast to anything and is an instance of nothing.
pub proof fn law_cast_agrees_with_instanceof(
    cp: ConstantPool,
    below: Seq<Slot>,
    max: nat,
    s: State,
    index: u16,
    r: Reference,
)
    requires
        below.len() < max,
        r.0 is None || object_is(cp, s, r, index) is Ok,
    ensures
        ({
            let operands = below.push(Slot::Reference(r));
            let cast = cast_checked(cp, operands, max, s, index);
            let tested = instance_checked(cp, operands, max, s, index);
            &&& cast.0 == operands
            &&& tested.1 == Ok::<(), VmError>(())
            &&& cast.2 is Ok ==> cast.1 == s
            &&& r.0 is None ==> cast.2 is Ok && tested.0 == below.push(Slot::Int(0))
            &&& r.0 is Some ==> (cast.2 is Ok <==> tested.0 == below.push(Slot::Int(1)))
        }),
{
    let operands = below.push(Slot::Reference(r));
    assert(operands.drop_last() =~= below);
    assert(below.push(Slot::Int(0)).last() == Slot::Int(0));
    assert(below.push(Slot::Int(1)).last() == Slot::Int(1));
}

} // verus!
