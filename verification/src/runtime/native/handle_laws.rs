//! What `MethodHandleNatives` makes of a `MemberName`.

use vstd::prelude::*;

use super::java_lang_invoke::{field_flags, kind_bit, outcome, reference_kind, resolved_flags, static_bit, JavaLangInvoke};
use super::step::Step;
use crate::metadata::registry_laws::law_field_positions;
use crate::runtime::oop::Object;
use crate::runtime::slot::{Reference, Slot};
use crate::runtime::string::text_at;
use crate::runtime::value::{Value, VmError};
use crate::runtime::vm::class_mirrors::name_of;
use crate::runtime::vm::mirrors::{int_field, reference_field};
use crate::runtime::vm::State;

verus! {

/// Of the bits that say what a member is, resolving adds the one for a field exactly for the reference kinds 1 to 4,
/// the one for a constructor exactly for kind 8, the one for a method exactly for the kinds 5, 6, 7 and 9, and the bit
/// for static members exactly for the kinds 2, 4 and 6; every other bit stays as it was.
pub proof fn law_added_bits(flags: i32)
    ensures
        ({
            let kind = (flags >> 24i32) & 0x0F;
            let after = resolved_flags(flags);
            &&& (after & 0x0004_0000 != 0) == (flags & 0x0004_0000 != 0 || kind == 1 || kind == 2 || kind == 3 || kind
                == 4)
            &&& (after & 0x0002_0000 != 0) == (flags & 0x0002_0000 != 0 || kind == 8)
            &&& (after & 0x0001_0000 != 0) == (flags & 0x0001_0000 != 0 || kind == 5 || kind == 6 || kind == 7 || kind
                == 9)
            &&& (after & 0x0008 != 0) == (flags & 0x0008 != 0 || kind == 2 || kind == 4 || kind == 6)
            &&& after & !(0x0007_0008i32) == flags & !(0x0007_0008i32)
        }),
{
    let kind = (flags >> 24i32) & 0x0F;
    assert(0 <= (flags >> 24i32) & 0x0F <= 15) by (bit_vector);
    let k = kind_bit(reference_kind(flags));
    let t = static_bit(reference_kind(flags));
    let after = (flags | k) | t;
    assert(k == 0 || k == 0x0001_0000 || k == 0x0002_0000 || k == 0x0004_0000);
    assert(t == 0 || t == 0x0008);
    assert((after & 0x0004_0000 != 0) == (flags & 0x0004_0000 != 0 || k == 0x0004_0000) && (after & 0x0002_0000 != 0)
        == (flags & 0x0002_0000 != 0 || k == 0x0002_0000) && (after & 0x0001_0000 != 0) == (flags & 0x0001_0000 != 0
        || k == 0x0001_0000) && (after & 0x0008 != 0) == (flags & 0x0008 != 0 || t == 0x0008) && after & !(
    0x0007_0008i32) == flags & !(0x0007_0008i32)) by (bit_vector)
        requires
            after == (flags | k) | t,
            k == 0 || k == 0x0001_0000 || k == 0x0002_0000 || k == 0x0004_0000,
            t == 0 || t == 0x0008,
    ;
}

/// `resolve` gives the `MemberName` back, with its flags resolved and nothing else changed.
pub proof fn law_resolving(s: State, member: Reference, class: Seq<char>, fields: Seq<Slot>, at: int, flags: i32)
    requires
        s.object(member) == Some((Object::Instance { class, fields })),
        s.field_ord("java/lang/invoke/MemberName"@, "flags"@) == Some(at),
        0 <= at < fields.len(),
        fields[at] == Slot::Int(flags),
    ensures
        outcome(s, JavaLangInvoke::Resolve, seq![Value::Reference(member)]) == (
            s.with_heap(
                s.vm.heap.update(
                    member.0->0 as int,
                    Object::Instance { class, fields: fields.update(at, Slot::Int(resolved_flags(flags))) },
                ),
            ),
            Step::Done(Ok::<Value, VmError>(Value::Reference(member))),
        ),
{
    if resolved_flags(flags) == flags {
        assert(fields.update(at, Slot::Int(flags)) =~= fields);
        let o = Object::Instance { class, fields };
        assert(s.vm.heap.update(member.0->0 as int, o) =~= s.vm.heap);
        assert(s.with_heap(s.vm.heap) == s);
    }
}

/// `init` with a `Field` makes the `MemberName` one of that field: its class is that of the field, and its flags are the
/// modifiers of the field, the bit for fields, and the reference kind of a read, 2 for a static field and 1 for any
/// other.
pub proof fn law_initializing(s: State, member: Reference, field: Reference, clazz: Reference, modifiers: i32)
    requires
        s.object(member) is Some && s.object(member)->0 is Instance,
        s.class("java/lang/invoke/MemberName"@) matches Some(c) && s.object(member)->0->fields.len()
            == c.instance_fields@.len() && c.ord_of("clazz"@) is Some && c.ord_of("flags"@) is Some,
        s.object(field) matches Some(Object::Instance { class, .. }) && class == "java/lang/reflect/Field"@,
        reference_field(s, field, "java/lang/reflect/Field"@, "clazz"@) == Some(clazz),
        int_field(s, field, "java/lang/reflect/Field"@, "modifiers"@) == Some(modifiers),
        0 <= modifiers < 0x1_0000,
    ensures
        ({
            let (t, step) = outcome(
                s,
                JavaLangInvoke::Init,
                seq![Value::Reference(member), Value::Reference(field)],
            );
            let class = "java/lang/invoke/MemberName"@;
            &&& step == Step::Done(Ok::<Value, VmError>(Value::Void))
            &&& reference_field(t, member, class, "clazz"@) == Some(clazz)
            &&& int_field(t, member, class, "flags"@) is Some
            &&& {
                let flags = int_field(t, member, class, "flags"@)->0;
                &&& flags & 0xFFFF == modifiers
                &&& flags & 0x0004_0000 != 0
                &&& flags & 0x0003_0000 == 0
                &&& (flags >> 24i32) & 0x0F == if modifiers & 0x0008 != 0 {
                    2i32
                } else {
                    1i32
                }
            }
        }),
{
    reveal_strlit("clazz");
    reveal_strlit("flags");
    assert("clazz"@[0] == 'c' && "flags"@[0] == 'f');
    let class = "java/lang/invoke/MemberName"@;
    let c = s.class(class)->0;
    let t1 = crate::runtime::vm::mirrors::named_field_written(s, member, class, "clazz"@, Slot::Reference(clazz));
    crate::runtime::vm::mirror_laws::named_write_read(
        s,
        member,
        class,
        c,
        "clazz"@,
        Slot::Reference(clazz),
        "flags"@,
    );
    crate::runtime::vm::mirror_laws::named_write_read(
        t1,
        member,
        class,
        c,
        "flags"@,
        Slot::Int(field_flags(modifiers)),
        "clazz"@,
    );
    assert(((modifiers | 0x0004_0000) | (2i32 << 24i32)) & 0xFFFF == modifiers && ((modifiers | 0x0004_0000) | (2i32
        << 24i32)) & 0x0004_0000 != 0 && ((modifiers | 0x0004_0000) | (2i32 << 24i32)) & 0x0003_0000 == 0 && (((
    modifiers | 0x0004_0000) | (2i32 << 24i32)) >> 24i32) & 0x0F == 2) by (bit_vector)
        requires
            0 <= modifiers < 0x1_0000,
    ;
    assert(((modifiers | 0x0004_0000) | (1i32 << 24i32)) & 0xFFFF == modifiers && ((modifiers | 0x0004_0000) | (1i32
        << 24i32)) & 0x0004_0000 != 0 && ((modifiers | 0x0004_0000) | (1i32 << 24i32)) & 0x0003_0000 == 0 && (((
    modifiers | 0x0004_0000) | (1i32 << 24i32)) >> 24i32) & 0x0F == 1) by (bit_vector)
        requires
            0 <= modifiers < 0x1_0000,
    ;
}

/// The offset of an instance field is its position in the layout of the class, that of a static field its place among
/// the static fields that the class declares; both are -1 for a field that the class does not have. The base of a
/// static field is the mirror of its class.
pub proof fn law_member_offsets(s: State, member: Reference, clazz: Reference, name: Reference, class: Seq<char>, field: Seq<char>)
    requires
        member.0 is Some,
        reference_field(s, member, "java/lang/invoke/MemberName"@, "clazz"@) == Some(clazz),
        reference_field(s, member, "java/lang/invoke/MemberName"@, "name"@) == Some(name),
        name_of(s.vm.class_mirrors, clazz) == Some(class),
        text_at(s, name) == Ok::<Option<Seq<char>>, VmError>(Some(field)),
        s.class(class) matches Some(c) && c.instance_fields@.len() <= i64::MAX && c.static_fields@.len() <= i64::MAX,
    ensures
        ({
            let c = s.class(class)->0;
            let args = seq![Value::Reference(member)];
            &&& outcome(s, JavaLangInvoke::ObjectFieldOffset, args).0 == s
            &&& match outcome(s, JavaLangInvoke::ObjectFieldOffset, args).1 {
                Step::Done(Ok(Value::Long(at))) => if at == -1 {
                    forall|j: int|
                        0 <= j < c.instance_fields@.len() ==> (#[trigger] c.instance_fields@[j]).name@ != field
                } else {
                    0 <= at < c.instance_fields@.len() && c.instance_fields@[at as int].name@ == field
                },
                _ => false,
            }
            &&& outcome(s, JavaLangInvoke::StaticFieldOffset, args).0 == s
            &&& match outcome(s, JavaLangInvoke::StaticFieldOffset, args).1 {
                Step::Done(Ok(Value::Long(at))) => if at == -1 {
                    forall|j: int| 0 <= j < c.static_fields@.len() ==> (#[trigger] c.static_fields@[j])@ != field
                } else {
                    0 <= at < c.static_fields@.len() && c.static_fields@[at as int]@ == field
                },
                _ => false,
            }
            &&& outcome(s, JavaLangInvoke::StaticFieldBase, args) == (
                s,
                Step::Done(Ok::<Value, VmError>(Value::Reference(clazz))),
            )
        }),
{
    law_field_positions(s.class(class)->0, field, field);
}

} // verus!
