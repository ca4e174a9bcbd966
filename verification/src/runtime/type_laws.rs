//! What `checkcast` and `instanceof` answer, in terms of the classes that are loaded.

use vstd::prelude::*;

use super::frame::FrameError;
use super::oop::Object;
use super::slot::{Reference, Slot};
use super::type_check::{array_is, cast_checked, instance_checked};
use super::value::VmError;
use super::vm::State;
use crate::metadata::class_file::ConstantPool;
use crate::metadata::class_registry::ClassRegistry;
use crate::metadata::descriptor::{descriptor, Type};

verus! {

/// An instance, and a closure, is of its own class and of exactly the proper supertypes that its class lists: to
/// these `instanceof` answers 1 and a cast succeeds; to any other, 0 and a `ClassCastException`. The supertypes of the
/// class that is asked for play no part.
pub proof fn law_instances_are_of_what_their_class_lists(
    cp: ConstantPool,
    below: Seq<Slot>,
    max: nat,
    s: State,
    index: u16,
    r: Reference,
    class: Seq<char>,
    target: Seq<char>,
)
    requires
        below.len() < max,
        s.vm.registry is Some,
        s.vm.heap.len() < super::heap::handle_space(),
        cp.class_name_at(index) == Some(target),
        (s.object(r) matches Some(Object::Instance { class: c, .. }) && c == class) || (s.object(r) matches Some(
            Object::Lambda { sam_type },
        ) && sam_type == class),
    ensures
        ({
            let operands = below.push(Slot::Reference(r));
            let tested = instance_checked(cp, operands, max, s, index);
            let (back, t, cast) = cast_checked(cp, operands, max, s, index);
            let listed = s.class(class) matches Some(c) && exists|i: int|
                0 <= i < c.supertypes@.len() && (#[trigger] c.supertypes@[i])@ == target;
            &&& tested.1 is Ok
            &&& class == target || listed ==> tested.0 == below.push(Slot::Int(1)) && t == s && cast is Ok
            &&& class != target && !listed ==> {
                &&& tested.0 == below.push(Slot::Int(0))
                &&& cast is Err
                &&& cast->Err_0 is ThrownException
                &&& t.object(cast->Err_0->ThrownException_0) is Some
                &&& t.object(cast->Err_0->ThrownException_0)->0 is Instance
                &&& t.object(cast->Err_0->ThrownException_0)->0->Instance_class == "java/lang/ClassCastException"@
            }
            &&& back == operands
        }),
{
    let operands = below.push(Slot::Reference(r));
    assert(operands.drop_last() =~= below);
    let reg = s.vm.registry->0;
    crate::metadata::registry_laws::law_found_classes(reg, "java/lang/ClassCastException"@);
}

/// An array of objects is of another array type exactly if that is an array of `Object`, of the same class, or of a
/// class that its component class lists among its supertypes; how deep the arrays are nested makes no difference.
pub proof fn law_object_arrays_follow_their_class(sub: Seq<char>, sup: Seq<char>, reg: ClassRegistry, depth: nat)
    ensures
        array_is(nested(sub, depth), nested(sup, depth), reg) == {
            ||| sup == "java/lang/Object"@
            ||| sub == sup
            ||| reg.find(sub) matches Some(c) && exists|i: int|
                0 <= i < c.supertypes@.len() && (#[trigger] c.supertypes@[i])@ == sup
        },
    decreases depth,
{
    if depth > 0 {
        law_object_arrays_follow_their_class(sub, sup, reg, (depth - 1) as nat);
        super::type_check::law_dimensions_cancel(
            nested(sub, (depth - 1) as nat),
            nested(sup, (depth - 1) as nat),
            reg,
        );
    } else {
        let a = Type::Class(sub);
        let b = Type::Class(sup);
        assert(seq!['['] + descriptor(a) =~= nested(sub, 0));
        assert(seq!['['] + descriptor(b) =~= nested(sup, 0));
        super::type_check::law_arrays_follow_their_components(a, b, reg);
    }
}

/// The descriptor of an array of `depth` + 1 dimensions of objects of a class.
pub open spec fn nested(class: Seq<char>, depth: nat) -> Seq<char>
    decreases depth,
{
    if depth == 0 {
        seq!['[', 'L'] + class + seq![';']
    } else {
        seq!['['] + nested(class, (depth - 1) as nat)
    }
}

/// An array of primitive values is of no other array type, and no other array is of its type; and no array is of a
/// class but `Object`, `Cloneable` and `Serializable`.
pub proof fn law_primitive_arrays(a: Type, b: Type, class: Seq<char>, sub: Seq<char>, reg: ClassRegistry)
    requires
        !(a is Class) && !(a is Array),
        a != b,
        class.len() > 0 && class[0] != '[',
        sub.len() > 0 && sub[0] == '[',
    ensures
        !array_is(seq!['['] + descriptor(a), seq!['['] + descriptor(b), reg),
        !array_is(seq!['['] + descriptor(b), seq!['['] + descriptor(a), reg),
        array_is(sub, class, reg) == (class == "java/lang/Object"@ || class == "java/lang/Cloneable"@ || class
            == "java/io/Serializable"@),
{
    super::type_check::law_arrays_follow_their_components(a, b, reg);
    super::type_check::law_arrays_follow_their_components(b, a, reg);
}

/// `instanceof` and `checkcast` ask an array for its own descriptor, in whichever class it is stored.
pub proof fn law_arrays_are_asked_for_their_descriptor(
    cp: ConstantPool,
    below: Seq<Slot>,
    max: nat,
    s: State,
    index: u16,
    r: Reference,
    class: Seq<char>,
    target: Seq<char>,
)
    requires
        below.len() < max,
        s.vm.registry is Some,
        cp.class_name_at(index) == Some(target),
        s.object(r) matches Some(Object::Array { class: c, .. }) && c == class,
    ensures
        ({
            let operands = below.push(Slot::Reference(r));
            let fits = array_is(class, target, s.vm.registry->0);
            &&& instance_checked(cp, operands, max, s, index) == (
                below.push(
                    Slot::Int(
                        if fits {
                            1
                        } else {
                            0
                        },
                    ),
                ),
                Ok::<(), VmError>(()),
            )
            &&& cast_checked(cp, operands, max, s, index).2 is Ok == fits
        }),
{
    let operands = below.push(Slot::Reference(r));
    assert(operands.drop_last() =~= below);
}

/// A test needs a reference on top of the stack, and a reference that is not `null` needs a class to be tested for, an
/// object and the classes that are loaded; what is missing is named. The reference is taken off the stack all the same.
pub proof fn law_tests_that_fail(cp: ConstantPool, operands: Seq<Slot>, max: nat, s: State, index: u16)
    ensures
        ({
            let tested = instance_checked(cp, operands, max, s, index);
            let cast = cast_checked(cp, operands, max, s, index);
            let refused = |rest: Seq<Slot>, e: VmError|
                tested == (rest, Err::<(), VmError>(e)) && cast == (rest, s, Err::<(), VmError>(e));
            &&& operands.len() == 0 ==> refused(operands, VmError::Frame(FrameError::Underflow))
            &&& operands.len() > 0 && !(operands.last() is Reference) ==> refused(
                operands.drop_last(),
                VmError::Frame(FrameError::TypeMismatch),
            )
            &&& operands.len() > 0 && operands.last() is Reference && (operands.last()->Reference_0).0 is Some ==> {
                let r = operands.last()->Reference_0;
                let rest = operands.drop_last();
                &&& cp.class_name_at(index) is None ==> refused(
                    rest,
                    VmError::BadConstant("checkcast/instanceof 类引用解析失败"),
                )
                &&& cp.class_name_at(index) is Some && s.object(r) is None ==> refused(
                    rest,
                    VmError::BadConstant("checkcast/instanceof 引用悬空"),
                )
                &&& cp.class_name_at(index) is Some && s.object(r) is Some && s.vm.registry is None ==> refused(
                    rest,
                    VmError::BadConstant("checkcast/instanceof 需类注册表"),
                )
            }
            &&& operands.len() > max && operands.last() is Reference && (operands.last()->Reference_0).0 is None ==> refused(
                operands.drop_last(),
                VmError::Frame(FrameError::Overflow),
            )
        }),
{
}

} // verus!
