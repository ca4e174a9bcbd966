//! How types are written, and what their classes are called.

use vstd::prelude::*;

use super::descriptor::{
    class_name_of, describes, descriptor, method_descriptor, method_type, type_of, well_named, FieldType, MethodType, Type,
};
use crate::runtime::native::java_lang_members::mirror_name;
use crate::runtime::vm::mirrors::component_name;

verus! {

/// A primitive type is written as one letter, a class as its name between `L` and `;`, an array as `[` before its
/// component type.
pub proof fn law_letters(name: Seq<char>, component: Type)
    ensures
        descriptor(Type::Byte) == "B"@,
        descriptor(Type::Char) == "C"@,
        descriptor(Type::Double) == "D"@,
        descriptor(Type::Float) == "F"@,
        descriptor(Type::Int) == "I"@,
        descriptor(Type::Long) == "J"@,
        descriptor(Type::Short) == "S"@,
        descriptor(Type::Boolean) == "Z"@,
        descriptor(Type::Class(name)) == "L"@ + name + ";"@,
        descriptor(Type::Array(Box::new(component))) == "["@ + descriptor(component),
{
    reveal_with_fuel(descriptor, 2);
    reveal_strlit("B");
    reveal_strlit("C");
    reveal_strlit("D");
    reveal_strlit("F");
    reveal_strlit("I");
    reveal_strlit("J");
    reveal_strlit("S");
    reveal_strlit("Z");
    reveal_strlit("L");
    reveal_strlit(";");
    reveal_strlit("[");
    assert("L"@ =~= seq!['L']);
    assert(";"@ =~= seq![';']);
    assert("["@ =~= seq!['[']);
    assert("B"@ =~= seq!['B'] && "C"@ =~= seq!['C'] && "D"@ =~= seq!['D'] && "F"@ =~= seq!['F']);
    assert("I"@ =~= seq!['I'] && "J"@ =~= seq!['J'] && "S"@ =~= seq!['S'] && "Z"@ =~= seq!['Z']);
}

/// A method is written as its parameters in brackets, in order, and its result, `V` for none.
pub proof fn law_method_descriptors(a: Type, b: Type, result: Type)
    ensures
        method_descriptor(MethodType { parameters: Seq::empty(), result: None }) == "()V"@,
        method_descriptor(MethodType { parameters: seq![a, b], result: Some(result) }) == "("@ + descriptor(a)
            + descriptor(b) + ")"@ + descriptor(result),
{
    reveal_strlit("()V");
    reveal_strlit("(");
    reveal_strlit(")");
    assert("("@ =~= seq!['(']);
    assert(")"@ =~= seq![')']);
    let none = MethodType { parameters: Seq::empty(), result: None };
    assert(super::descriptor::descriptors(Seq::<Type>::empty()) =~= Seq::<char>::empty());
    assert(method_descriptor(none) =~= "()V"@);
    let two = seq![a, b];
    assert(two.drop_first() =~= seq![b]);
    assert(seq![b].drop_first() =~= Seq::<Type>::empty());
    reveal_with_fuel(super::descriptor::descriptors, 3);
    assert(super::descriptor::descriptors(two) =~= descriptor(a) + descriptor(b));
    let m = MethodType { parameters: two, result: Some(result) };
    assert(method_descriptor(m) =~= "("@ + descriptor(a) + descriptor(b) + ")"@ + descriptor(result));
}

/// The class of a primitive type is called by its keyword, that of a class by its name, that of an array by its
/// descriptor; a field with the descriptor of a type is of that class, and so is the component of an array of it.
pub proof fn law_class_names(t: Type)
    requires
        t matches Type::Class(n) ==> n.len() > 0,
    ensures
        class_name_of(t) == match t {
            Type::Byte => "byte"@,
            Type::Char => "char"@,
            Type::Double => "double"@,
            Type::Float => "float"@,
            Type::Int => "int"@,
            Type::Long => "long"@,
            Type::Short => "short"@,
            Type::Boolean => "boolean"@,
            Type::Class(name) => name,
            Type::Array(_) => descriptor(t),
        },
        mirror_name(descriptor(t)) == class_name_of(t),
        component_name(seq!['['] + descriptor(t)) == Some(class_name_of(t)),
{
    reveal_with_fuel(descriptor, 2);
    reveal_strlit("B");
    reveal_strlit("C");
    reveal_strlit("D");
    reveal_strlit("F");
    reveal_strlit("I");
    reveal_strlit("J");
    reveal_strlit("S");
    reveal_strlit("Z");
    reveal_strlit("V");
    assert("B"@ =~= seq!['B'] && "C"@ =~= seq!['C'] && "D"@ =~= seq!['D'] && "F"@ =~= seq!['F']);
    assert("I"@ =~= seq!['I'] && "J"@ =~= seq!['J'] && "S"@ =~= seq!['S'] && "Z"@ =~= seq!['Z'] && "V"@ =~= seq!['V']);
    assert("B"@[0] == 'B' && "C"@[0] == 'C' && "D"@[0] == 'D' && "F"@[0] == 'F' && "I"@[0] == 'I' && "J"@[0] == 'J');
    assert("S"@[0] == 'S' && "Z"@[0] == 'Z' && "V"@[0] == 'V');
    let d = descriptor(t);
    let a = seq!['['] + d;
    assert(a[0] == '[' && a.len() == d.len() + 1);
    assert(a.skip(1) =~= d);
    match t {
        Type::Class(n) => {
            assert(d[0] == 'L' && d.last() == ';' && d.len() == n.len() + 2);
            assert(d.subrange(1, d.len() - 1) =~= n);
            assert(a[1] == 'L' && a.last() == ';');
            assert(a.subrange(2, a.len() - 1) =~= n);
        },
        Type::Array(c) => {
            assert(d[0] == '[');
            assert(a[1] == '[');
        },
        _ => {
            assert(d.len() == 1);
            assert(a[1] == d[0]);
        },
    }
}

/// A text is a method descriptor only if it is how a method type is written, whose class names are not empty and hold no
/// `;`; the type that is read is that one.
pub proof fn law_what_is_read(text: Seq<char>)
    ensures
        method_type(text) matches Some(m) ==> method_descriptor(m) == text && (forall|i: int|
            0 <= i < m.parameters.len() ==> proper(#[trigger] m.parameters[i])) && (m.result matches Some(t) ==> proper(t)),
{
    if method_type(text) is Some {
        let m = choose|m: MethodType| describes(text, m);
        assert(describes(text, m));
        assert forall|i: int| 0 <= i < m.parameters.len() implies proper(#[trigger] m.parameters[i]) by {
            proper_type(m.parameters[i]);
        }
        if m.result is Some {
            proper_type(m.result->0);
        }
    }
}

/// Whether a class name in a type, at whatever depth of arrays, is not empty and holds no `;`.
pub open spec fn proper(t: Type) -> bool
    decreases t,
{
    match t {
        Type::Class(name) => name.len() > 0 && forall|i: int| 0 <= i < name.len() ==> #[trigger] name[i] != ';',
        Type::Array(c) => proper(*c),
        _ => true,
    }
}

proof fn proper_type(t: Type)
    requires
        well_named(t),
    ensures
        proper(t),
    decreases t,
{
    match t {
        Type::Class(name) => {
            assert forall|i: int| 0 <= i < name.len() implies #[trigger] name[i] != ';' by {
                if name[i] == ';' {
                    assert(name.contains(';'));
                }
            }
        },
        Type::Array(c) => proper_type(*c),
        _ => {},
    }
}

/// A name has a component class exactly if it is a `[` with one of the letters of the primitive types or another `[`
/// behind it, or an `L` and, at the end, a `;`.
pub proof fn law_names_with_a_component(name: Seq<char>)
    ensures
        (component_name(name) is Some) == (name.len() >= 2 && name[0] == '[' && (name[1] == 'B' || name[1] == 'C' || name[1]
            == 'D' || name[1] == 'F' || name[1] == 'I' || name[1] == 'J' || name[1] == 'S' || name[1] == 'Z' || name[1]
            == '[' || (name[1] == 'L' && name.len() >= 3 && name[name.len() - 1] == ';'))),
{
}

/// A type that was read stands for the type of its kind: a class for the class of its name, an array for an array of what
/// its component stands for.
pub proof fn law_kinds_of_types(t: FieldType)
    ensures
        match t {
            FieldType::Byte => type_of(t) is Byte,
            FieldType::Char => type_of(t) is Char,
            FieldType::Double => type_of(t) is Double,
            FieldType::Float => type_of(t) is Float,
            FieldType::Int => type_of(t) is Int,
            FieldType::Long => type_of(t) is Long,
            FieldType::Short => type_of(t) is Short,
            FieldType::Boolean => type_of(t) is Boolean,
            FieldType::Class(n) => type_of(t) == Type::Class(n@),
            FieldType::Array(c) => type_of(t) == Type::Array(Box::new(type_of(*c))),
        },
{
}

} // verus!
