//! Lookup in class files.

use vstd::prelude::*;

use crate::metadata::class_file::{ClassFile, MethodInfo};
use crate::runtime::text::str_eq;

verus! {

/// The text of a constant pool entry that is one.
pub fn utf8(cf: &ClassFile, index: u16) -> (r: String)
    requires
        cf.constant_pool.utf8_at(index) is Some,
    ensures
        cf.constant_pool.utf8_at(index) == Some(r@),
{
    match cf.constant_pool.utf8(index) {
        Some(s) => s.to_owned(),
        None => String::new(),
    }
}

/// Whether method `i` of a class has this name and descriptor.
pub open spec fn is_method(cf: ClassFile, i: int, name: Seq<char>, desc: Seq<char>) -> bool {
    &&& 0 <= i < cf.methods@.len()
    &&& cf.constant_pool.utf8_at(cf.methods@[i].name_index) == Some(name)
    &&& cf.constant_pool.utf8_at(cf.methods@[i].descriptor_index) == Some(desc)
}

/// Whether method `i` of a class is the first with this name and descriptor.
pub open spec fn is_first_method(cf: ClassFile, i: int, name: Seq<char>, desc: Seq<char>) -> bool {
    is_method(cf, i, name, desc) && forall|j: int| 0 <= j < i ==> !#[trigger] is_method(cf, j, name, desc)
}

fn has_name(cf: &ClassFile, m: &MethodInfo, name: &str, desc: &str) -> (r: bool)
    ensures
        r == (cf.constant_pool.utf8_at(m.name_index) == Some(name@) && cf.constant_pool.utf8_at(m.descriptor_index)
            == Some(desc@)),
{
    match (cf.constant_pool.utf8(m.name_index), cf.constant_pool.utf8(m.descriptor_index)) {
        (Some(n), Some(d)) => str_eq(n, name) && str_eq(d, desc),
        _ => false,
    }
}

/// Place of the first method with this name and descriptor.
pub fn method_place(cf: &ClassFile, name: &str, desc: &str) -> (r: Option<usize>)
    ensures
        match r {
            Some(i) => is_first_method(*cf, i as int, name@, desc@),
            None => forall|i: int| !#[trigger] is_method(*cf, i, name@, desc@),
        },
{
    let mut i: usize = 0;
    while i < cf.methods.len()
        invariant
            i <= cf.methods@.len(),
            forall|j: int| 0 <= j < i ==> !#[trigger] is_method(*cf, j, name@, desc@),
        decreases cf.methods@.len() - i,
    {
        if has_name(cf, &cf.methods[i], name, desc) {
            assert(is_method(*cf, i as int, name@, desc@));
            return Some(i);
        }
        assert(!is_method(*cf, i as int, name@, desc@));
        i = i + 1;
    }
    None
}

/// The first method with this name and descriptor, where there is one.
pub fn find_method<'a>(cf: &'a ClassFile, name: &str, desc: &str) -> (r: &'a MethodInfo)
    requires
        exists|i: int| is_method(*cf, i, name@, desc@),
    ensures
        exists|i: int| #[trigger] is_first_method(*cf, i, name@, desc@) && *r == cf.methods@[i],
{
    match method_place(cf, name, desc) {
        Some(i) => &cf.methods[i],
        None => {
            let i: usize = 0;
            assert(false);
            &cf.methods[i]
        },
    }
}

/// The method that is looked for is the only one that has both the name and the descriptor with no such method before
/// it.
pub proof fn law_looked_up_methods(cf: ClassFile, i: int, j: int, name: Seq<char>, desc: Seq<char>)
    ensures
        0 <= i < cf.methods@.len() ==> is_method(cf, i, name, desc) == (cf.constant_pool.utf8_at(
            cf.methods@[i].name_index,
        ) == Some(name) && cf.constant_pool.utf8_at(cf.methods@[i].descriptor_index) == Some(desc)),
        is_first_method(cf, i, name, desc) ==> 0 <= i < cf.methods@.len() && is_method(cf, i, name, desc),
        is_first_method(cf, i, name, desc) && is_method(cf, j, name, desc) ==> i <= j,
        is_first_method(cf, i, name, desc) && is_first_method(cf, j, name, desc) ==> i == j,
{
}

} // verus!
