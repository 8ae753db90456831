//! Small maps and sets keyed by strings (issue keys), kept as vectors of
//! entries. A lookup finds the first entry with the key; inserting drops
//! any older entry first, so each key is held once.

use vstd::prelude::*;
use crate::text::chars_of;

verus! {

/// The value of the first entry of `es` with key `k`.
pub open spec fn find_key<V>(es: Seq<(String, V)>, k: Seq<char>) -> Option<V>
    decreases es.len(),
{
    if es.len() == 0 {
        None
    } else if es[0].0@ == k {
        Some(es[0].1)
    } else {
        find_key(es.drop_first(), k)
    }
}

/// `es` without the entries with key `k`.
pub open spec fn without<V>(es: Seq<(String, V)>, k: Seq<char>) -> Seq<(String, V)>
    decreases es.len(),
{
    if es.len() == 0 {
        es
    } else if es[0].0@ == k {
        without(es.drop_first(), k)
    } else {
        seq![es[0]] + without(es.drop_first(), k)
    }
}

proof fn lemma_find_without<V>(es: Seq<(String, V)>, k: Seq<char>, j: Seq<char>)
    ensures
        find_key(without(es, k), j) === (if j == k {
            None
        } else {
            find_key(es, j)
        }),
    decreases es.len(),
{
    if es.len() > 0 {
        lemma_find_without(es.drop_first(), k, j);
        if es[0].0@ != k {
            assert((seq![es[0]] + without(es.drop_first(), k)).drop_first() =~= without(
                es.drop_first(),
                k,
            ));
        }
    }
}

proof fn lemma_find_push<V>(es: Seq<(String, V)>, x: (String, V), j: Seq<char>)
    ensures
        find_key(es.push(x), j) === (match find_key(es, j) {
            Some(v) => Some(v),
            None => if x.0@ == j {
                Some(x.1)
            } else {
                None
            },
        }),
    decreases es.len(),
{
    let ep = es.push(x);
    if es.len() > 0 {
        assert(ep[0] == es[0]);
        assert(ep.drop_first() =~= es.drop_first().push(x));
        lemma_find_push(es.drop_first(), x, j);
        if es[0].0@ == j {
            assert(find_key(ep, j) === Some(es[0].1));
            assert(find_key(es, j) === Some(es[0].1));
        } else {
            assert(find_key(ep, j) === find_key(ep.drop_first(), j));
            assert(find_key(es, j) === find_key(es.drop_first(), j));
        }
    } else {
        assert(ep[0] == x);
        assert(ep.drop_first() =~= Seq::<(String, V)>::empty());
        assert(find_key(es, j) is None);
        if x.0@ == j {
            assert(find_key(ep, j) === Some(x.1));
        } else {
            assert(find_key(ep, j) === find_key(ep.drop_first(), j));
        }
    }
}

/// Values by string key.
pub struct KeyMap<V> {
    pub entries: Vec<(String, V)>,
}

impl<V> KeyMap<V> {
    pub open spec fn lookup(self, k: Seq<char>) -> Option<V> {
        find_key(self.entries@, k)
    }

    pub fn new() -> (m: KeyMap<V>)
        ensures
            forall|k: Seq<char>| #[trigger] m.lookup(k) is None,
    {
        KeyMap { entries: Vec::new() }
    }

    pub fn get(&self, k: &str) -> (r: Option<&V>)
        ensures
            match r {
                Some(v) => self.lookup(k@) == Some(*v),
                None => self.lookup(k@) is None,
            },
    {
        let key = chars_of(k);
        let mut i: usize = 0;
        assert(self.entries@.skip(0) =~= self.entries@);
        while i < self.entries.len()
            invariant
                i <= self.entries.len(),
                key@ == k@,
                self.lookup(k@) == find_key(self.entries@.skip(i as int), k@),
            decreases self.entries.len() - i,
        {
            assert(self.entries@.skip(i as int)[0] == self.entries@[i as int]);
            if crate::branch::vec_equal(&chars_of(self.entries[i].0.as_str()), &key) {
                return Some(&self.entries[i].1);
            }
            assert(self.entries@.skip(i as int).drop_first() =~= self.entries@.skip(i + 1));
            i += 1;
        }
        None
    }

    pub fn contains_key(&self, k: &str) -> (b: bool)
        ensures
            b == self.lookup(k@) is Some,
    {
        self.get(k).is_some()
    }

    /// Drop the entry of `k`, if any.
    pub fn remove(&mut self, k: &str)
        ensures
            final(self).lookup(k@) is None,
            forall|j: Seq<char>| j != k@ ==> #[trigger] final(self).lookup(j) === old(self).lookup(j),
    {
        let ghost orig = self.entries@;
        let key = chars_of(k);
        let mut kept: Vec<(String, V)> = Vec::new();
        while self.entries.len() > 0
            invariant
                key@ == k@,
                kept@ + without(self.entries@, k@) == without(orig, k@),
            decreases self.entries.len(),
        {
            let ghost before = self.entries@;
            let e = self.entries.remove(0);
            assert(before.drop_first() =~= self.entries@);
            if !crate::branch::vec_equal(&chars_of(e.0.as_str()), &key) {
                let ghost k0 = kept@;
                kept.push(e);
                assert(kept@ + without(self.entries@, k@) =~= k0 + without(before, k@));
            }
        }
        assert(without(self.entries@, k@) =~= Seq::<(String, V)>::empty());
        assert(kept@ =~= without(orig, k@));
        self.entries = kept;
        proof {
            assert forall|j: Seq<char>| #[trigger] self.lookup(j) === (if j == k@ {
                None
            } else {
                find_key(orig, j)
            }) by {
                lemma_find_without(orig, k@, j);
            }
        }
    }

    /// Set the value of `k`.
    pub fn insert(&mut self, k: String, v: V)
        ensures
            final(self).lookup(k@) === Some(v),
            forall|j: Seq<char>| j != k@ ==> #[trigger] final(self).lookup(j) === old(self).lookup(j),
    {
        self.remove(k.as_str());
        let ghost mid_map = *self;
        let ghost mid = self.entries@;
        let ghost kv = k@;
        self.entries.push((k, v));
        proof {
            assert forall|j: Seq<char>| #[trigger] self.lookup(j) === (if j == kv {
                Some(v)
            } else {
                old(self).lookup(j)
            }) by {
                lemma_find_push(mid, self.entries@.last(), j);
                assert(mid.push(self.entries@.last()) =~= self.entries@);
                assert(mid_map.lookup(j) === find_key(mid, j));
                if j != kv {
                    assert(mid_map.lookup(j) === old(self).lookup(j));
                }
            }
        }
    }

    pub fn clear(&mut self)
        ensures
            forall|j: Seq<char>| #[trigger] final(self).lookup(j) is None,
    {
        self.entries.clear();
    }
}

/// A set of string keys.
pub struct KeySet {
    pub keys: KeyMap<()>,
}

impl KeySet {
    pub open spec fn has(self, k: Seq<char>) -> bool {
        self.keys.lookup(k) is Some
    }

    pub fn new() -> (s: KeySet)
        ensures
            forall|k: Seq<char>| !#[trigger] s.has(k),
    {
        KeySet { keys: KeyMap::new() }
    }

    pub fn contains(&self, k: &str) -> (b: bool)
        ensures
            b == self.has(k@),
    {
        self.keys.contains_key(k)
    }

    /// Add `k`; true when it was not there yet.
    pub fn insert(&mut self, k: String) -> (added: bool)
        ensures
            added == !old(self).has(k@),
            !added ==> *final(self) == *old(self),
            final(self).has(k@),
            forall|j: Seq<char>| j != k@ ==> #[trigger] final(self).has(j) == old(self).has(j),
    {
        if self.keys.contains_key(k.as_str()) {
            false
        } else {
            self.keys.insert(k, ());
            true
        }
    }

    pub fn remove(&mut self, k: &str)
        ensures
            !final(self).has(k@),
            forall|j: Seq<char>| j != k@ ==> #[trigger] final(self).has(j) == old(self).has(j),
    {
        self.keys.remove(k);
    }

    pub fn clear(&mut self)
        ensures
            forall|j: Seq<char>| !#[trigger] final(self).has(j),
    {
        self.keys.clear();
    }
}

} // verus!
