//! Registry of native methods.

use vstd::prelude::*;

use crate::runtime::table::{Table, TableKey};

verus! {

/// A native method: declaring class, name and descriptor.
#[derive(Debug)]
pub struct NativeKey {
    class: String,
    name: String,
    desc: String,
}

/// The model of [`NativeKey`].
pub type Key = (Seq<char>, Seq<char>, Seq<char>);

impl View for NativeKey {
    type V = Key;

    closed spec fn view(&self) -> Key {
        (self.class@, self.name@, self.desc@)
    }
}

impl TableKey for NativeKey {
    fn same(&self, other: &Self) -> (r: bool) {
        self.class == other.class && self.name == other.name && self.desc == other.desc
    }
}

/// What a native method is bound to.
#[derive(Debug)]
pub struct Handler<F>(F);

impl<F> View for Handler<F> {
    type V = F;

    closed spec fn view(&self) -> F {
        self.0
    }
}

/// Registry of native methods. `F` is what a method is bound to.
#[derive(Debug)]
pub struct NativeRegistry<F> {
    table: Table<NativeKey, Handler<F>>,
}

impl<F> View for NativeRegistry<F> {
    type V = Map<Key, F>;

    closed spec fn view(&self) -> Map<Key, F> {
        self.table@
    }
}

impl<F: Copy> NativeRegistry<F> {
    /// An empty registry.
    pub fn new() -> (r: Self)
        ensures
            r@ == Map::<Key, F>::empty(),
    {
        NativeRegistry { table: Table::new() }
    }

    /// Binds a native method, in place of what it was bound to.
    pub fn register(&mut self, class: &str, name: &str, desc: &str, f: F)
        ensures
            final(self)@ == old(self)@.insert((class@, name@, desc@), f),
    {
        self.table.insert(
            NativeKey { class: class.to_owned(), name: name.to_owned(), desc: desc.to_owned() },
            Handler(f),
        );
    }

    /// What a native method is bound to.
    pub fn resolve(&self, class: &str, name: &str, desc: &str) -> (r: Option<F>)
        ensures
            r == self@.get((class@, name@, desc@)),
    {
        let key = NativeKey { class: class.to_owned(), name: name.to_owned(), desc: desc.to_owned() };
        match self.table.get(&key) {
            Some(h) => Some(h.0),
            None => None,
        }
    }
}

/// The last binding of a method counts, and no other method is affected.
pub proof fn law_last_binding_counts<F>(m: Map<Key, F>, key: Key, f: F, g: F, other: Key)
    ensures
        m.insert(key, f).insert(key, g).get(key) == Some(g),
        other != key ==> m.insert(key, f).get(other) == m.get(other),
{
}

} // verus!
