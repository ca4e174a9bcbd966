//! String intern pool: text to heap reference, nothing more.

use vstd::prelude::*;

use super::slot::Reference;
use super::table::Table;

verus! {

/// String intern pool. It never touches the heap: the caller vouches that a reference it registers
/// is the string instance of that text.
#[derive(Debug)]
pub struct StringPool {
    table: Table<String, Reference>,
}

impl View for StringPool {
    type V = Map<Seq<char>, Reference>;

    closed spec fn view(&self) -> Map<Seq<char>, Reference> {
        self.table@
    }
}

impl StringPool {
    /// An empty pool.
    pub fn new() -> (r: Self)
        ensures
            r@ == Map::<Seq<char>, Reference>::empty(),
    {
        StringPool { table: Table::new() }
    }

    /// The reference registered for `text`.
    pub fn get(&self, text: &str) -> (r: Option<&Reference>)
        ensures
            match r {
                Some(v) => self@.contains_key(text@) && self@[text@] == *v,
                None => !self@.contains_key(text@),
            },
    {
        self.table.get(&text.to_owned())
    }

    /// Registers `text` for `r`.
    pub fn insert(&mut self, text: String, r: Reference)
        ensures
            final(self)@ == old(self)@.insert(text@, r),
    {
        self.table.insert(text, r);
    }
}

impl Default for StringPool {
    fn default() -> (r: Self)
        ensures
            r@ == Map::<Seq<char>, Reference>::empty(),
    {
        StringPool::new()
    }
}

/// What was registered last for a text is found again, and no other text is affected.
pub proof fn law_registered_text_is_found(pool: Map<Seq<char>, Reference>, text: Seq<char>, r: Reference)
    ensures
        pool.insert(text, r).contains_key(text),
        pool.insert(text, r)[text] == r,
        forall|other: Seq<char>|
            other != text ==> pool.insert(text, r).contains_key(other) == pool.contains_key(other) && (
            pool.contains_key(other) ==> #[trigger] pool.insert(text, r)[other] == pool[other]),
{
}

} // verus!
