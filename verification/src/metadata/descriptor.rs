//! Field and method descriptors (JVMS §4.3).

use vstd::prelude::*;

use crate::runtime::text::chars_of;

verus! {

/// A field type: the model of [`FieldType`].
pub enum Type {
    Byte,
    Char,
    Double,
    Float,
    Int,
    Long,
    Short,
    Boolean,
    Class(Seq<char>),
    Array(Box<Type>),
}

/// A method type; `None` as the result stands for `void`.
pub struct MethodType {
    pub parameters: Seq<Type>,
    pub result: Option<Type>,
}

/// The descriptor of a type.
pub open spec fn descriptor(t: Type) -> Seq<char>
    decreases t,
{
    match t {
        Type::Byte => seq!['B'],
        Type::Char => seq!['C'],
        Type::Double => seq!['D'],
        Type::Float => seq!['F'],
        Type::Int => seq!['I'],
        Type::Long => seq!['J'],
        Type::Short => seq!['S'],
        Type::Boolean => seq!['Z'],
        Type::Class(name) => seq!['L'] + name + seq![';'],
        Type::Array(c) => seq!['['] + descriptor(*c),
    }
}

/// A class name in a descriptor is not empty and holds no `;`.
pub open spec fn well_named(t: Type) -> bool
    decreases t,
{
    match t {
        Type::Class(name) => name.len() > 0 && !name.contains(';'),
        Type::Array(c) => well_named(*c),
        _ => true,
    }
}

/// The descriptors of `ts`, one after the other.
pub open spec fn descriptors(ts: Seq<Type>) -> Seq<char>
    decreases ts.len(),
{
    if ts.len() == 0 {
        Seq::empty()
    } else {
        descriptor(ts[0]) + descriptors(ts.drop_first())
    }
}

/// The descriptor of a method type.
pub open spec fn method_descriptor(m: MethodType) -> Seq<char> {
    seq!['('] + descriptors(m.parameters) + seq![')'] + match m.result {
        Some(t) => descriptor(t),
        None => seq!['V'],
    }
}

/// Every class name in the method type is one that a descriptor can hold.
pub open spec fn method_well_named(m: MethodType) -> bool {
    &&& forall|i: int| 0 <= i < m.parameters.len() ==> well_named(#[trigger] m.parameters[i])
    &&& m.result matches Some(t) ==> well_named(t)
}

/// Whether `m` is what the text describes.
pub open spec fn describes(text: Seq<char>, m: MethodType) -> bool {
    method_well_named(m) && method_descriptor(m) == text
}

/// The method type that a text describes, if it is a method descriptor at all.
pub open spec fn method_type(text: Seq<char>) -> Option<MethodType> {
    if exists|m: MethodType| describes(text, m) {
        Some(choose|m: MethodType| describes(text, m))
    } else {
        None
    }
}

proof fn descriptor_nonempty(t: Type)
    ensures
        descriptor(t).len() > 0,
{
    reveal_with_fuel(descriptor, 2);
}

/// No descriptor is a proper beginning of another: from a text that starts with one, the type and
/// the rest can be read off.
pub(crate) proof fn descriptor_prefix_free(t: Type, u: Type, x: Seq<char>, y: Seq<char>)
    requires
        well_named(t),
        well_named(u),
        descriptor(t) + x == descriptor(u) + y,
    ensures
        t == u,
        x == y,
    decreases t,
{
    let s = descriptor(t) + x;
    descriptor_nonempty(t);
    descriptor_nonempty(u);
    assert(s[0] == descriptor(t)[0]);
    assert(s[0] == descriptor(u)[0]);
    match t {
        Type::Class(n) => {
            assert(u is Class);
            let m = u->Class_0;
            assert(descriptor(t)[n.len() as int + 1] == ';');
            assert(descriptor(u)[m.len() as int + 1] == ';');
            assert(s[n.len() as int + 1] == ';');
            assert((descriptor(u) + y)[m.len() as int + 1] == ';');
            if n.len() < m.len() {
                assert(descriptor(u)[n.len() as int + 1] == m[n.len() as int]);
                assert(s[n.len() as int + 1] == m[n.len() as int]);
                assert(m.contains(';'));
            } else if m.len() < n.len() {
                assert(descriptor(t)[m.len() as int + 1] == n[m.len() as int]);
                assert(s[m.len() as int + 1] == n[m.len() as int]);
                assert(n.contains(';'));
            }
            assert(n =~= m) by {
                assert forall|i: int| 0 <= i < n.len() implies n[i] == m[i] by {
                    assert(s[i + 1] == descriptor(t)[i + 1]);
                    assert((descriptor(u) + y)[i + 1] == descriptor(u)[i + 1]);
                    assert(descriptor(t)[i + 1] == n[i]);
                    assert(descriptor(u)[i + 1] == m[i]);
                }
            }
            assert(x =~= s.skip(descriptor(t).len() as int));
            assert(y =~= (descriptor(u) + y).skip(descriptor(u).len() as int));
        },
        Type::Array(c) => {
            assert(u is Array);
            let d = u->Array_0;
            assert(s.skip(1) =~= descriptor(*c) + x);
            assert((descriptor(u) + y).skip(1) =~= descriptor(*d) + y);
            descriptor_prefix_free(*c, *d, x, y);
        },
        _ => {
            assert(t == u);
            assert(x =~= s.skip(1));
            assert(y =~= (descriptor(u) + y).skip(1));
        },
    }
}

proof fn descriptors_prefix_free(ts: Seq<Type>, us: Seq<Type>, x: Seq<char>, y: Seq<char>)
    requires
        forall|i: int| 0 <= i < ts.len() ==> well_named(#[trigger] ts[i]),
        forall|i: int| 0 <= i < us.len() ==> well_named(#[trigger] us[i]),
        descriptors(ts) + seq![')'] + x == descriptors(us) + seq![')'] + y,
    ensures
        ts == us,
        x == y,
    decreases ts.len(),
{
    let a = descriptors(ts) + seq![')'] + x;
    let b = descriptors(us) + seq![')'] + y;
    if ts.len() > 0 {
        descriptor_nonempty(ts[0]);
        assert(a[0] == descriptor(ts[0])[0]);
        assert(a[0] != ')') by {
            reveal_with_fuel(descriptor, 2);
        }
    } else {
        assert(a[0] == ')');
    }
    if us.len() > 0 {
        descriptor_nonempty(us[0]);
        assert(b[0] == descriptor(us[0])[0]);
        assert(b[0] != ')') by {
            reveal_with_fuel(descriptor, 2);
        }
    } else {
        assert(b[0] == ')');
    }
    if ts.len() > 0 {
        let tr = ts.drop_first();
        let ur = us.drop_first();
        let p = descriptors(tr) + seq![')'] + x;
        let q = descriptors(ur) + seq![')'] + y;
        assert(a =~= descriptor(ts[0]) + p);
        assert(b =~= descriptor(us[0]) + q);
        descriptor_prefix_free(ts[0], us[0], p, q);
        assert forall|i: int| 0 <= i < tr.len() implies well_named(#[trigger] tr[i]) by {
            assert(tr[i] == ts[i + 1]);
        }
        assert forall|i: int| 0 <= i < ur.len() implies well_named(#[trigger] ur[i]) by {
            assert(ur[i] == us[i + 1]);
        }
        descriptors_prefix_free(tr, ur, x, y);
        assert(ts =~= seq![ts[0]] + tr);
        assert(us =~= seq![us[0]] + ur);
    } else {
        assert(ts =~= us);
        assert(x =~= a.skip(1));
        assert(y =~= b.skip(1));
    }
}

/// A text describes at most one method type.
pub proof fn law_descriptor_is_unambiguous(m: MethodType, n: MethodType)
    requires
        method_well_named(m),
        method_well_named(n),
        method_descriptor(m) == method_descriptor(n),
    ensures
        m == n,
{
    let s = method_descriptor(m);
    let x = match m.result {
        Some(t) => descriptor(t),
        None => seq!['V'],
    };
    let y = match n.result {
        Some(t) => descriptor(t),
        None => seq!['V'],
    };
    assert(s.skip(1) =~= descriptors(m.parameters) + seq![')'] + x);
    assert(method_descriptor(n).skip(1) =~= descriptors(n.parameters) + seq![')'] + y);
    descriptors_prefix_free(m.parameters, n.parameters, x, y);
    match (m.result, n.result) {
        (Some(t), Some(u)) => {
            assert(x + Seq::<char>::empty() =~= x);
            descriptor_prefix_free(t, u, Seq::empty(), Seq::empty());
        },
        (Some(t), None) => {
            reveal_with_fuel(descriptor, 2);
            assert(x[0] == 'V');
        },
        (None, Some(u)) => {
            reveal_with_fuel(descriptor, 2);
            assert(y[0] == 'V');
        },
        (None, None) => {},
    }
}

/// Reading a descriptor gives back the method type that it was written from.
pub proof fn law_write_read(m: MethodType)
    requires
        method_well_named(m),
    ensures
        method_type(method_descriptor(m)) == Some(m),
{
    let text = method_descriptor(m);
    assert(describes(text, m));
    let n = choose|n: MethodType| describes(text, n);
    law_descriptor_is_unambiguous(m, n);
}

/// A field type.
#[derive(Debug)]
pub enum FieldType {
    Byte,
    Char,
    Double,
    Float,
    Int,
    Long,
    Short,
    Boolean,
    Class(String),
    Array(Box<FieldType>),
}

/// The model of a field type.
pub open spec fn type_of(t: FieldType) -> Type
    decreases t,
{
    match t {
        FieldType::Byte => Type::Byte,
        FieldType::Char => Type::Char,
        FieldType::Double => Type::Double,
        FieldType::Float => Type::Float,
        FieldType::Int => Type::Int,
        FieldType::Long => Type::Long,
        FieldType::Short => Type::Short,
        FieldType::Boolean => Type::Boolean,
        FieldType::Class(n) => Type::Class(n@),
        FieldType::Array(c) => Type::Array(Box::new(type_of(*c))),
    }
}

impl View for FieldType {
    type V = Type;

    open spec fn view(&self) -> Type {
        type_of(*self)
    }
}

impl FieldType {
    /// The descriptor of the type.
    pub fn to_descriptor(&self) -> (r: String)
        ensures
            r@ == descriptor(self@),
        decreases self,
    {
        let mut out: String = String::new();
        match self {
            FieldType::Byte => out.push('B'),
            FieldType::Char => out.push('C'),
            FieldType::Double => out.push('D'),
            FieldType::Float => out.push('F'),
            FieldType::Int => out.push('I'),
            FieldType::Long => out.push('J'),
            FieldType::Short => out.push('S'),
            FieldType::Boolean => out.push('Z'),
            FieldType::Class(n) => {
                out.push('L');
                out.append(n.as_str());
                out.push(';');
                assert(out@ =~= seq!['L'] + n@ + seq![';']);
            },
            FieldType::Array(c) => {
                out.push('[');
                let d: String = c.to_descriptor();
                out.append(d.as_str());
                assert(out@ =~= seq!['['] + descriptor(type_of(**c)));
            },
        }
        assert(out@ =~= descriptor(self@));
        out
    }
}

/// What a method returns.
#[derive(Debug)]
pub enum ReturnDescriptor {
    Void,
    FieldType(FieldType),
}

impl View for ReturnDescriptor {
    type V = Option<Type>;

    open spec fn view(&self) -> Option<Type> {
        match self {
            ReturnDescriptor::Void => None,
            ReturnDescriptor::FieldType(t) => Some(t@),
        }
    }
}

/// Parameters and result of a method.
#[derive(Debug)]
pub struct MethodDescriptor {
    pub parameters: Vec<FieldType>,
    pub return_type: ReturnDescriptor,
}

/// The models of a list of field types.
pub open spec fn types_of(ts: Seq<FieldType>) -> Seq<Type> {
    ts.map_values(|t: FieldType| t@)
}

impl View for MethodDescriptor {
    type V = MethodType;

    open spec fn view(&self) -> MethodType {
        MethodType { parameters: types_of(self.parameters@), result: self.return_type@ }
    }
}

/// Whether a descriptor of some type stands in `s` at `at`.
spec fn type_at(s: Seq<char>, at: int, t: Type, end: int) -> bool {
    &&& well_named(t)
    &&& at <= end <= s.len()
    &&& s.subrange(at, end) == descriptor(t)
}

proof fn type_at_first(s: Seq<char>, at: int, t: Type, end: int)
    requires
        0 <= at,
        type_at(s, at, t, end),
    ensures
        at < s.len(),
        s[at] == descriptor(t)[0],
{
    descriptor_nonempty(t);
    assert(s.subrange(at, end)[0] == s[at]);
}

/// Reads the field type that starts at `at`.
fn parse_field_type(s: &Vec<char>, at: usize) -> (r: Option<(FieldType, usize)>)
    requires
        at <= s@.len(),
    ensures
        match r {
            Some((t, end)) => at < end && type_at(s@, at as int, t@, end as int),
            None => forall|t: Type, end: int| !type_at(s@, at as int, t, end),
        },
    decreases s@.len() - at,
{
    if at >= s.len() {
        proof {
            assert forall|t: Type, end: int| !type_at(s@, at as int, t, end) by {
                if type_at(s@, at as int, t, end) {
                    type_at_first(s@, at as int, t, end);
                }
            }
        }
        return None;
    }
    let c: char = s[at];
    let simple: Option<FieldType> = if c == 'B' {
        Some(FieldType::Byte)
    } else if c == 'C' {
        Some(FieldType::Char)
    } else if c == 'D' {
        Some(FieldType::Double)
    } else if c == 'F' {
        Some(FieldType::Float)
    } else if c == 'I' {
        Some(FieldType::Int)
    } else if c == 'J' {
        Some(FieldType::Long)
    } else if c == 'S' {
        Some(FieldType::Short)
    } else if c == 'Z' {
        Some(FieldType::Boolean)
    } else {
        None
    };
    match simple {
        Some(t) => {
            assert(s@.subrange(at as int, at + 1) =~= descriptor(t@));
            Some((t, at + 1))
        },
        None => {
            if c == 'L' {
                parse_class_type(s, at)
            } else if c == '[' {
                match parse_field_type(s, at + 1) {
                    Some((inner, end)) => {
                        let ghost it = inner@;
                        let t: FieldType = FieldType::Array(Box::new(inner));
                        assert(t@ == Type::Array(Box::new(it)));
                        assert(s@.subrange(at as int, end as int) =~= seq!['['] + s@.subrange(at + 1, end as int));
                        assert(descriptor(t@) == seq!['['] + descriptor(it));
                        Some((t, end))
                    },
                    None => {
                        proof {
                            assert forall|t: Type, end: int| !type_at(s@, at as int, t, end) by {
                                if type_at(s@, at as int, t, end) {
                                    type_at_first(s@, at as int, t, end);
                                    assert(t is Array);
                                    let u = *t->Array_0;
                                    assert(descriptor(t) == seq!['['] + descriptor(u));
                                    assert(s@.subrange(at + 1, end) =~= s@.subrange(at as int, end).skip(1));
                                    assert(descriptor(u) =~= descriptor(t).skip(1));
                                    assert(type_at(s@, at + 1, u, end));
                                }
                            }
                        }
                        None
                    },
                }
            } else {
                proof {
                    assert forall|t: Type, end: int| !type_at(s@, at as int, t, end) by {
                        if type_at(s@, at as int, t, end) {
                            type_at_first(s@, at as int, t, end);
                        }
                    }
                }
                None
            }
        },
    }
}

/// Reads the class type that starts at `at`.
fn parse_class_type(s: &Vec<char>, at: usize) -> (r: Option<(FieldType, usize)>)
    requires
        at < s@.len(),
        s@[at as int] == 'L',
    ensures
        match r {
            Some((t, end)) => at < end && type_at(s@, at as int, t@, end as int),
            None => forall|t: Type, end: int| !type_at(s@, at as int, t, end),
        },
{
    let n: usize = s.len();
    let mut name: String = String::new();
    let mut i: usize = at + 1;
    while i < n && s[i] != ';'
        invariant
            at < i <= n,
            n == s@.len(),
            name@ == s@.subrange(at + 1, i as int),
            forall|j: int| at < j < i ==> s@[j] != ';',
        decreases s@.len() - i,
    {
        name.push(s[i]);
        i = i + 1;
        assert(name@ =~= s@.subrange(at + 1, i as int));
    }
    if i < n && i > at + 1 {
        let ghost n = name@;
        let t: FieldType = FieldType::Class(name);
        proof {
            assert(t@ == Type::Class(n));
            assert(s@.subrange(at as int, i + 1) =~= seq!['L'] + n + seq![';']);
            assert(!n.contains(';'));
        }
        Some((t, i + 1))
    } else {
        proof {
            assert forall|t: Type, end: int| !type_at(s@, at as int, t, end) by {
                if type_at(s@, at as int, t, end) {
                    type_at_first(s@, at as int, t, end);
                    assert(t is Class);
                    let n = t->Class_0;
                    let d = s@.subrange(at as int, end);
                    assert(d == seq!['L'] + n + seq![';']);
                    assert(d[n.len() as int + 1] == ';');
                    assert(s@[at + n.len() + 1] == ';');
                    assert(d[1] == n[0]);
                    assert(s@[at + 1] == n[0]);
                    assert(n.contains(n[0]));
                }
            }
        }
        None
    }
}

proof fn descriptors_push(ts: Seq<Type>, t: Type)
    ensures
        descriptors(ts.push(t)) == descriptors(ts) + descriptor(t),
    decreases ts.len(),
{
    let u = ts.push(t);
    if ts.len() == 0 {
        assert(u.drop_first() =~= Seq::<Type>::empty());
        assert(descriptors(u.drop_first()) =~= Seq::<char>::empty());
        assert(descriptors(u) =~= descriptors(ts) + descriptor(t));
    } else {
        assert(u.drop_first() =~= ts.drop_first().push(t));
        descriptors_push(ts.drop_first(), t);
        assert(descriptors(u) =~= descriptors(ts) + descriptor(t));
    }
}

/// What is left of a description once the first parameters were read.
proof fn tail_of_description(m: MethodType, read: Seq<Type>, tail: Seq<char>)
    requires
        method_well_named(m),
        forall|i: int| 0 <= i < read.len() ==> well_named(#[trigger] read[i]),
        method_descriptor(m) == seq!['('] + descriptors(read) + tail,
    ensures
        read.len() <= m.parameters.len(),
        m.parameters.take(read.len() as int) == read,
        tail == descriptors(m.parameters.skip(read.len() as int)) + seq![')'] + match m.result {
            Some(t) => descriptor(t),
            None => seq!['V'],
        },
    decreases read.len(),
{
    let x = match m.result {
        Some(t) => descriptor(t),
        None => seq!['V'],
    };
    let whole = method_descriptor(m);
    if read.len() == 0 {
        assert(whole.skip(1) =~= descriptors(m.parameters) + seq![')'] + x);
        assert(whole.skip(1) =~= tail);
        assert(m.parameters.skip(0) =~= m.parameters);
        assert(m.parameters.take(0) =~= read);
    } else {
        let r0 = read.drop_last();
        let t = read.last();
        assert(read =~= r0.push(t));
        descriptors_push(r0, t);
        assert(whole =~= seq!['('] + descriptors(r0) + (descriptor(t) + tail));
        tail_of_description(m, r0, descriptor(t) + tail);
        let rest = m.parameters.skip(r0.len() as int);
        if rest.len() == 0 {
            descriptor_nonempty(t);
            assert((descriptor(t) + tail)[0] == descriptor(t)[0]);
            assert((descriptors(rest) + seq![')'] + x)[0] == ')');
            assert(false) by {
                reveal_with_fuel(descriptor, 2);
            }
        }
        assert(descriptors(rest) + seq![')'] + x =~= descriptor(rest[0]) + (descriptors(rest.drop_first()) + seq![')'] + x));
        assert(rest[0] == m.parameters[r0.len() as int]);
        descriptor_prefix_free(t, rest[0], tail, descriptors(rest.drop_first()) + seq![')'] + x);
        assert(rest.drop_first() =~= m.parameters.skip(read.len() as int));
        assert(m.parameters.take(read.len() as int) =~= read);
    }
}

/// Reads a method descriptor.
pub fn parse_method_descriptor(desc: &str) -> (r: Option<MethodDescriptor>)
    ensures
        match r {
            Some(m) => method_type(desc@) == Some(m@) && describes(desc@, m@),
            None => method_type(desc@) is None,
        },
{
    let s: Vec<char> = chars_of(desc);
    if s.len() == 0 || s[0] != '(' {
        proof {
            assert forall|m: MethodType| !describes(desc@, m) by {
                if describes(desc@, m) {
                    assert(desc@[0] == '(');
                }
            }
        }
        return None;
    }
    let mut params: Vec<FieldType> = Vec::new();
    let mut i: usize = 1;
    assert(s@.subrange(0, 1) =~= seq!['('] + descriptors(types_of(params@)));
    while i < s.len() && s[i] != ')'
        invariant
            1 <= i <= s@.len(),
            s@ == desc@,
            s@.subrange(0, i as int) == seq!['('] + descriptors(types_of(params@)),
            forall|k: int| 0 <= k < params@.len() ==> well_named((#[trigger] params@[k])@),
        decreases s@.len() - i,
    {
        let ghost before = types_of(params@);
        let ghost tail = s@.skip(i as int);
        proof {
            assert(s@ =~= seq!['('] + descriptors(before) + tail);
            assert forall|k: int| 0 <= k < before.len() implies well_named(#[trigger] before[k]) by {
                assert(before[k] == params@[k]@);
            }
        }
        match parse_field_type(&s, i) {
            Some((t, end)) => {
                proof {
                    descriptors_push(before, t@);
                    assert(s@.subrange(0, end as int) =~= s@.subrange(0, i as int) + s@.subrange(i as int, end as int));
                }
                params.push(t);
                proof {
                    assert(types_of(params@) =~= before.push(t@));
                    assert(s@.subrange(0, end as int) =~= seq!['('] + descriptors(types_of(params@)));
                }
                i = end;
            },
            None => {
                proof {
                    assert forall|m: MethodType| !describes(desc@, m) by {
                        if describes(desc@, m) {
                            tail_of_description(m, before, tail);
                            let rest = m.parameters.skip(before.len() as int);
                            if rest.len() == 0 {
                                assert(tail[0] == ')');
                            } else {
                                let t = rest[0];
                                assert(t == m.parameters[before.len() as int]);
                                descriptor_nonempty(t);
                                assert(tail.take(descriptor(t).len() as int) =~= descriptor(t));
                                let end = i + descriptor(t).len();
                                assert(s@.subrange(i as int, end) =~= tail.take(descriptor(t).len() as int));
                                assert(type_at(s@, i as int, t, end));
                            }
                        }
                    }
                }
                return None;
            },
        }
    }
    let ghost read = types_of(params@);
    let ghost tail = s@.skip(i as int);
    proof {
        assert(s@ =~= seq!['('] + descriptors(read) + tail);
        assert forall|k: int| 0 <= k < read.len() implies well_named(#[trigger] read[k]) by {
            assert(read[k] == params@[k]@);
        }
    }
    if i >= s.len() {
        proof {
            assert forall|m: MethodType| !describes(desc@, m) by {
                if describes(desc@, m) {
                    tail_of_description(m, read, tail);
                    assert(tail.len() == 0);
                }
            }
        }
        return None;
    }
    let after: usize = i + 1;
    if after < s.len() && s[after] == 'V' && after + 1 == s.len() {
        let m = MethodDescriptor { parameters: params, return_type: ReturnDescriptor::Void };
        proof {
            assert(tail =~= seq![')'] + seq!['V']);
            assert(method_descriptor(m@) =~= seq!['('] + descriptors(read) + tail);
            assert(describes(desc@, m@));
            law_write_read(m@);
        }
        return Some(m);
    }
    match parse_field_type(&s, after) {
        Some((t, end)) => {
            if end == s.len() {
                let ghost tt = t@;
                let m = MethodDescriptor { parameters: params, return_type: ReturnDescriptor::FieldType(t) };
                proof {
                    assert(tail =~= seq![')'] + s@.subrange(after as int, end as int));
                    assert(method_descriptor(m@) =~= seq!['('] + descriptors(read) + tail);
                    assert(describes(desc@, m@));
                    law_write_read(m@);
                }
                return Some(m);
            }
            proof {
                assert forall|m: MethodType| !describes(desc@, m) by {
                    if describes(desc@, m) {
                        tail_of_description(m, read, tail);
                        result_of_tail(m, read, tail);
                        let x = tail.skip(1);
                        assert(x =~= s@.subrange(after as int, end as int) + s@.skip(end as int));
                        match m.result {
                            Some(u) => {
                                assert(x =~= descriptor(u) + Seq::<char>::empty());
                                descriptor_prefix_free(t@, u, s@.skip(end as int), Seq::empty());
                            },
                            None => {
                                type_at_first(s@, after as int, t@, end as int);
                                assert(x[0] == s@[after as int]);
                            },
                        }
                    }
                }
            }
            None
        },
        None => {
            proof {
                assert forall|m: MethodType| !describes(desc@, m) by {
                    if describes(desc@, m) {
                        tail_of_description(m, read, tail);
                        result_of_tail(m, read, tail);
                        let x = tail.skip(1);
                        match m.result {
                            Some(u) => {
                                assert(s@.subrange(after as int, s@.len() as int) =~= x);
                                assert(type_at(s@, after as int, u, s@.len() as int));
                            },
                            None => {
                                assert(x.len() == 1 && x[0] == 'V');
                                assert(s@[after as int] == x[0]);
                            },
                        }
                    }
                }
            }
            None
        },
    }
}

/// After the closing bracket only the result is left.
proof fn result_of_tail(m: MethodType, read: Seq<Type>, tail: Seq<char>)
    requires
        tail.len() > 0,
        tail[0] == ')',
        read.len() <= m.parameters.len(),
        tail == descriptors(m.parameters.skip(read.len() as int)) + seq![')'] + match m.result {
            Some(t) => descriptor(t),
            None => seq!['V'],
        },
    ensures
        tail.skip(1) == match m.result {
            Some(t) => descriptor(t),
            None => seq!['V'],
        },
{
    let rest = m.parameters.skip(read.len() as int);
    if rest.len() > 0 {
        descriptor_nonempty(rest[0]);
        assert(tail[0] == descriptor(rest[0])[0]);
        reveal_with_fuel(descriptor, 2);
        assert(false);
    }
    assert(tail.skip(1) =~= match m.result {
        Some(t) => descriptor(t),
        None => seq!['V'],
    });
}

/// The name under which the class mirror of a type is kept: the keyword of a primitive type, the
/// internal name of a class, the descriptor of an array.
pub open spec fn class_name_of(t: Type) -> Seq<char> {
    match t {
        Type::Byte => "byte"@,
        Type::Char => "char"@,
        Type::Double => "double"@,
        Type::Float => "float"@,
        Type::Int => "int"@,
        Type::Long => "long"@,
        Type::Short => "short"@,
        Type::Boolean => "boolean"@,
        Type::Class(name) => name,
        Type::Array(_) => descriptor(t),
    }
}

} // verus!
