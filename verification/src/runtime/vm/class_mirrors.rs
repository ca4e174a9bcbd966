//! Two-way table between internal class names and class mirrors.

use vstd::prelude::*;

use crate::runtime::slot::Reference;

verus! {

/// Declares `bimap::BiHashMap` to the verifier; nothing is stated of its inside.
#[verifier::external_type_specification]
#[verifier::external_body]
#[verifier::reject_recursive_types(L)]
#[verifier::reject_recursive_types(R)]
#[verifier::reject_recursive_types(LS)]
#[verifier::reject_recursive_types(RS)]
pub struct ExBiHashMap<L, R, LS, RS>(bimap::BiHashMap<L, R, LS, RS>);

/// The pairs of a two-way map, from left to right.
pub uninterp spec fn pairs_of(m: bimap::BiHashMap<String, Option<u32>>) -> Map<Seq<char>, Option<u32>>;

/// `m` with the pair `(left, right)` in place of every pair that shares a side with it.
pub open spec fn paired(m: Map<Seq<char>, Option<u32>>, left: Seq<char>, right: Option<u32>) -> Map<
    Seq<char>,
    Option<u32>,
> {
    Map::new(
        |k: Seq<char>| k == left || (m.contains_key(k) && m[k] != right),
        |k: Seq<char>|
            if k == left {
                right
            } else {
                m[k]
            },
    )
}

/// `bimap::BiHashMap::new` makes a map without pairs.
#[verifier::external_body]
fn bimap_new() -> (r: bimap::BiHashMap<String, Option<u32>>)
    ensures
        pairs_of(r).dom() == Set::<Seq<char>>::empty(),
{
    bimap::BiHashMap::new()
}

/// `bimap::BiHashMap::get_by_left` gives the right side of the pair with this left side, if there is
/// such a pair.
#[verifier::external_body]
fn bimap_get_by_left(m: &bimap::BiHashMap<String, Option<u32>>, left: &str) -> (r: Option<Option<u32>>)
    ensures
        r == pairs_of(*m).get(left@),
{
    m.get_by_left(left).copied()
}

/// `bimap::BiHashMap::get_by_right` gives the left side of a pair with this right side, if there is
/// such a pair.
#[verifier::external_body]
fn bimap_get_by_right(m: &bimap::BiHashMap<String, Option<u32>>, right: Option<u32>) -> (r: Option<String>)
    ensures
        match r {
            Some(l) => pairs_of(*m).contains_pair(l@, right),
            None => forall|l: Seq<char>| !#[trigger] pairs_of(*m).contains_pair(l, right),
        },
{
    m.get_by_right(&right).cloned()
}

/// `bimap::BiHashMap::insert` removes the pair with this left side and the pair with this right side,
/// then adds the new pair.
#[verifier::external_body]
fn bimap_insert(m: &mut bimap::BiHashMap<String, Option<u32>>, left: String, right: Option<u32>)
    ensures
        pairs_of(*final(m)) == paired(pairs_of(*old(m)), left@, right),
{
    m.insert(left, right);
}

/// Whether no two names share a mirror.
pub open spec fn one_to_one(m: Map<Seq<char>, Reference>) -> bool {
    forall|a: Seq<char>, b: Seq<char>|
        m.contains_key(a) && m.contains_key(b) && #[trigger] m[a] == #[trigger] m[b] ==> a == b
}

/// The name that a mirror stands for.
pub open spec fn name_of(m: Map<Seq<char>, Reference>, r: Reference) -> Option<Seq<char>> {
    if exists|n: Seq<char>| #[trigger] m.contains_key(n) && m[n] == r {
        Some(choose|n: Seq<char>| #[trigger] m.contains_key(n) && m[n] == r)
    } else {
        None
    }
}

/// `m` with `name` bound to `r`, without any other name that `r` stood for.
pub open spec fn bound(m: Map<Seq<char>, Reference>, name: Seq<char>, r: Reference) -> Map<Seq<char>, Reference> {
    Map::new(
        |k: Seq<char>| k == name || (m.contains_key(k) && m[k] != r),
        |k: Seq<char>|
            if k == name {
                r
            } else {
                m[k]
            },
    )
}

/// Two-way table between internal class names and class mirrors.
#[derive(Debug)]
pub struct ClassMirrors {
    map: bimap::BiHashMap<String, Option<u32>>,
}

impl View for ClassMirrors {
    type V = Map<Seq<char>, Reference>;

    closed spec fn view(&self) -> Map<Seq<char>, Reference> {
        pairs_of(self.map).map_values(|id: Option<u32>| Reference(id))
    }
}

impl ClassMirrors {
    #[verifier::type_invariant]
    spec fn inv(self) -> bool {
        one_to_one(self@)
    }

    /// An empty table.
    pub fn new() -> (r: Self)
        ensures
            r@ == Map::<Seq<char>, Reference>::empty(),
            one_to_one(r@),
    {
        let map = bimap_new();
        let ghost v = pairs_of(map).map_values(|id: Option<u32>| Reference(id));
        assert(v =~= Map::<Seq<char>, Reference>::empty());
        let m = ClassMirrors { map };
        m
    }

    /// The mirror of a name.
    pub fn get(&self, name: &str) -> (r: Option<Reference>)
        ensures
            r == self@.get(name@),
    {
        match bimap_get_by_left(&self.map, name) {
            Some(id) => Some(Reference(id)),
            None => None,
        }
    }

    /// The name that a mirror stands for.
    pub fn name_of(&self, r: Reference) -> (name: Option<String>)
        ensures
            match name {
                Some(n) => name_of(self@, r) == Some(n@),
                None => name_of(self@, r) is None,
            },
            one_to_one(self@),
    {
        proof {
            use_type_invariant(self);
        }
        let found = bimap_get_by_right(&self.map, r.0);
        proof {
            match &found {
                Some(n) => {
                    assert(self@.contains_key(n@) && self@[n@] == r);
                    let k = choose|k: Seq<char>| #[trigger] self@.contains_key(k) && self@[k] == r;
                    assert(self@.contains_key(k) && self@[k] == r);
                    assert(self@[k] == self@[n@]);
                },
                None => {
                    assert forall|k: Seq<char>| !(#[trigger] self@.contains_key(k) && self@[k] == r) by {
                        assert(!pairs_of(self.map).contains_pair(k, r.0));
                    }
                },
            }
        }
        found
    }

    /// Binds `name` to `r`; a name that `r` stood for before loses its mirror.
    pub fn insert(&mut self, name: String, r: Reference)
        ensures
            final(self)@ == bound(old(self)@, name@, r),
            one_to_one(final(self)@),
    {
        proof {
            use_type_invariant(&*self);
        }
        let mut map = bimap_new();
        proof {
            assert(pairs_of(map).map_values(|id: Option<u32>| Reference(id)) =~= Map::<Seq<char>, Reference>::empty());
        }
        std::mem::swap(&mut map, &mut self.map);
        bimap_insert(&mut map, name, r.0);
        proof {
            let v = pairs_of(map).map_values(|id: Option<u32>| Reference(id));
            assert(v =~= bound(old(self)@, name@, r));
            assert(one_to_one(bound(old(self)@, name@, r)));
        }
        self.map = map;
    }
}

/// A name finds its mirror and the mirror finds its name.
pub proof fn law_bound_both_ways(m: Map<Seq<char>, Reference>, name: Seq<char>, r: Reference)
    requires
        one_to_one(m),
    ensures
        one_to_one(bound(m, name, r)),
        bound(m, name, r).get(name) == Some(r),
        name_of(bound(m, name, r), r) == Some(name),
{
    let b = bound(m, name, r);
    assert(b.contains_key(name) && b[name] == r);
    let k = choose|k: Seq<char>| #[trigger] b.contains_key(k) && b[k] == r;
    assert(b.contains_key(k) && b[k] == r);
}

} // verus!
