//! Association tables.

use vstd::prelude::*;

use super::slot::Reference;

verus! {

/// A key that can be told apart by its view.
pub trait TableKey: View {
    /// Whether both keys are the same.
    fn same(&self, other: &Self) -> (r: bool)
        ensures
            r == (self@ == other@),
    ;
}

impl TableKey for String {
    fn same(&self, other: &Self) -> (r: bool) {
        *self == *other
    }
}

impl View for Reference {
    type V = Reference;

    open spec fn view(&self) -> Reference {
        *self
    }
}

impl TableKey for Reference {
    fn same(&self, other: &Self) -> (r: bool) {
        *self == *other
    }
}

/// The map that a list of pairs stands for; of two pairs with one key the earlier counts.
pub open spec fn pairs_map<K: View, V: View>(s: Seq<(K, V)>) -> Map<K::V, V::V>
    decreases s.len(),
{
    if s.len() == 0 {
        Map::empty()
    } else {
        pairs_map(s.drop_first()).insert(s[0].0@, s[0].1@)
    }
}

proof fn pairs_map_at<K: View, V: View>(s: Seq<(K, V)>, i: int)
    requires
        0 <= i < s.len(),
        forall|j: int| 0 <= j < i ==> (#[trigger] s[j]).0@ != s[i].0@,
    ensures
        pairs_map(s).contains_key(s[i].0@),
        pairs_map(s)[s[i].0@] == s[i].1@,
    decreases s.len(),
{
    if i > 0 {
        let t = s.drop_first();
        assert(t[i - 1] == s[i]);
        assert forall|j: int| 0 <= j < i - 1 implies (#[trigger] t[j]).0@ != t[i - 1].0@ by {
            assert(t[j] == s[j + 1]);
        }
        pairs_map_at(t, i - 1);
        assert(s[0].0@ != s[i].0@);
    }
}

proof fn pairs_map_absent<K: View, V: View>(s: Seq<(K, V)>, key: K::V)
    requires
        forall|j: int| 0 <= j < s.len() ==> (#[trigger] s[j]).0@ != key,
    ensures
        !pairs_map(s).contains_key(key),
    decreases s.len(),
{
    if s.len() > 0 {
        let t = s.drop_first();
        assert forall|j: int| 0 <= j < t.len() implies (#[trigger] t[j]).0@ != key by {
            assert(t[j] == s[j + 1]);
        }
        pairs_map_absent(t, key);
        assert(s[0].0@ != key);
    }
}

proof fn pairs_map_update<K: View, V: View>(s: Seq<(K, V)>, i: int, p: (K, V))
    requires
        0 <= i < s.len(),
        s[i].0@ == p.0@,
        forall|j: int| 0 <= j < i ==> (#[trigger] s[j]).0@ != p.0@,
    ensures
        pairs_map(s.update(i, p)) == pairs_map(s).insert(p.0@, p.1@),
    decreases s.len(),
{
    let t = s.drop_first();
    let u = s.update(i, p);
    if i == 0 {
        assert(u.drop_first() =~= t);
        assert(pairs_map(u) =~= pairs_map(s).insert(p.0@, p.1@));
    } else {
        assert(u.drop_first() =~= t.update(i - 1, p));
        assert forall|j: int| 0 <= j < i - 1 implies (#[trigger] t[j]).0@ != p.0@ by {
            assert(t[j] == s[j + 1]);
        }
        pairs_map_update(t, i - 1, p);
        assert(u[0] == s[0]);
        assert(s[0].0@ != p.0@);
        assert(pairs_map(u) =~= pairs_map(s).insert(p.0@, p.1@));
    }
}

proof fn pairs_map_push<K: View, V: View>(s: Seq<(K, V)>, p: (K, V))
    requires
        forall|j: int| 0 <= j < s.len() ==> (#[trigger] s[j]).0@ != p.0@,
    ensures
        pairs_map(s.push(p)) == pairs_map(s).insert(p.0@, p.1@),
    decreases s.len(),
{
    let u = s.push(p);
    if s.len() == 0 {
        assert(u.drop_first() =~= Seq::<(K, V)>::empty());
        assert(pairs_map(u.drop_first()) =~= Map::<K::V, V::V>::empty());
        assert(pairs_map(u) =~= pairs_map(s).insert(p.0@, p.1@));
    } else {
        let t = s.drop_first();
        assert(u.drop_first() =~= t.push(p));
        assert forall|j: int| 0 <= j < t.len() implies (#[trigger] t[j]).0@ != p.0@ by {
            assert(t[j] == s[j + 1]);
        }
        pairs_map_push(t, p);
        assert(u[0] == s[0]);
        assert(s[0].0@ != p.0@);
        assert(pairs_map(u) =~= pairs_map(s).insert(p.0@, p.1@));
    }
}

proof fn pairs_map_remove<K: View, V: View>(s: Seq<(K, V)>, i: int)
    requires
        0 <= i < s.len(),
    ensures
        pairs_map(s.remove(i)).remove(s[i].0@) == pairs_map(s).remove(s[i].0@),
    decreases s.len(),
{
    let t = s.drop_first();
    let u = s.remove(i);
    if i == 0 {
        assert(u =~= t);
        assert(pairs_map(u).remove(s[i].0@) =~= pairs_map(s).remove(s[i].0@));
    } else {
        assert(u.drop_first() =~= t.remove(i - 1));
        assert(t[i - 1] == s[i]);
        pairs_map_remove(t, i - 1);
        assert(u[0] == s[0]);
        let k = s[i].0@;
        let a = pairs_map(t.remove(i - 1));
        let b = pairs_map(t);
        assert(pairs_map(u) == a.insert(s[0].0@, s[0].1@));
        assert(a.insert(s[0].0@, s[0].1@).remove(k) =~= b.insert(s[0].0@, s[0].1@).remove(k)) by {
            assert forall|x: K::V| a.remove(k).contains_key(x) == b.remove(k).contains_key(x) by {}
            assert forall|x: K::V| x != k && a.contains_key(x) implies a[x] == b[x] by {
                assert(a.remove(k)[x] == b.remove(k)[x]);
            }
            assert forall|x: K::V| x != k implies a.contains_key(x) == b.contains_key(x) by {
                assert(a.remove(k).contains_key(x) == b.remove(k).contains_key(x));
            }
        }
    }
}

/// A map kept as a list of pairs.
#[derive(Debug)]
pub struct Table<K, V> {
    entries: Vec<(K, V)>,
}

impl<K: TableKey, V: View> View for Table<K, V> {
    type V = Map<K::V, V::V>;

    closed spec fn view(&self) -> Map<K::V, V::V> {
        pairs_map(self.entries@)
    }
}

impl<K: TableKey, V: View> Table<K, V> {
    /// The empty map.
    pub fn new() -> (r: Self)
        ensures
            r@ == Map::<K::V, V::V>::empty(),
    {
        Table { entries: Vec::new() }
    }

    fn find(&self, key: &K) -> (r: usize)
        ensures
            r <= self.entries@.len(),
            r < self.entries@.len() ==> self.entries@[r as int].0@ == key@,
            forall|j: int| 0 <= j < r ==> (#[trigger] self.entries@[j]).0@ != key@,
    {
        let mut i: usize = 0;
        while i < self.entries.len()
            invariant
                i <= self.entries@.len(),
                forall|j: int| 0 <= j < i ==> (#[trigger] self.entries@[j]).0@ != key@,
            decreases self.entries@.len() - i,
        {
            if self.entries[i].0.same(key) {
                return i;
            }
            i = i + 1;
        }
        i
    }

    /// The value of `key`.
    pub fn get(&self, key: &K) -> (r: Option<&V>)
        ensures
            match r {
                Some(v) => self@.contains_key(key@) && self@[key@] == v@,
                None => !self@.contains_key(key@),
            },
    {
        let i: usize = self.find(key);
        if i < self.entries.len() {
            proof {
                pairs_map_at(self.entries@, i as int);
            }
            Some(&self.entries[i].1)
        } else {
            proof {
                pairs_map_absent(self.entries@, key@);
            }
            None
        }
    }

    /// Binds `key` to `value`, in place of what it was bound to.
    pub fn insert(&mut self, key: K, value: V)
        ensures
            final(self)@ == old(self)@.insert(key@, value@),
    {
        let i: usize = self.find(&key);
        if i < self.entries.len() {
            proof {
                pairs_map_update(self.entries@, i as int, (key, value));
            }
            self.entries.set(i, (key, value));
        } else {
            proof {
                pairs_map_push(self.entries@, (key, value));
            }
            self.entries.push((key, value));
        }
    }

    /// Unbinds `key`.
    pub fn remove(&mut self, key: &K)
        ensures
            final(self)@ == old(self)@.remove(key@),
    {
        let mut i: usize = 0;
        while i < self.entries.len()
            invariant
                i <= self.entries@.len(),
                pairs_map(self.entries@).remove(key@) == pairs_map(old(self).entries@).remove(key@),
                forall|j: int| 0 <= j < i ==> (#[trigger] self.entries@[j]).0@ != key@,
            decreases self.entries@.len() - i,
        {
            if self.entries[i].0.same(key) {
                proof {
                    pairs_map_remove(self.entries@, i as int);
                }
                self.entries.remove(i);
            } else {
                i = i + 1;
            }
        }
        proof {
            pairs_map_absent(self.entries@, key@);
            assert(pairs_map(self.entries@).remove(key@) =~= pairs_map(self.entries@));
        }
    }
}

} // verus!
