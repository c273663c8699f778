//! A finite map keyed by strings.
//!
//! The map is kept as an association list: two vectors of equal length, one of
//! keys and one of values, in which no key occurs twice. Its view is the
//! mathematical map from the characters of each key to the value stored beside it.

use vstd::prelude::*;

verus! {

/// The map that an association list stands for: `keys[i]` is bound to `vals[i]`.
pub open spec fn assoc<V>(keys: Seq<Seq<char>>, vals: Seq<V>) -> Map<Seq<char>, V> {
    Map::new(|k: Seq<char>| keys.contains(k), |k: Seq<char>| vals[keys.index_of(k)])
}

/// Every position of a duplicate-free key list is found again through its key.
proof fn lemma_assoc_index<V>(keys: Seq<Seq<char>>, vals: Seq<V>, i: int)
    requires
        keys.no_duplicates(),
        0 <= i < keys.len(),
    ensures
        keys.contains(keys[i]),
        keys.index_of(keys[i]) == i,
        assoc(keys, vals).contains_key(keys[i]),
        assoc(keys, vals)[keys[i]] == vals[i],
{
    let j = keys.index_of(keys[i]);
    assert(0 <= j < keys.len() && keys[j] == keys[i]);
}

/// Appending a fresh key binds it and leaves every other binding alone.
proof fn lemma_assoc_push<V>(keys: Seq<Seq<char>>, vals: Seq<V>, k: Seq<char>, v: V)
    requires
        keys.no_duplicates(),
        keys.len() == vals.len(),
        !keys.contains(k),
    ensures
        keys.push(k).no_duplicates(),
        assoc(keys.push(k), vals.push(v)) == assoc(keys, vals).insert(k, v),
{
    let keys2 = keys.push(k);
    let vals2 = vals.push(v);
    assert forall|i: int, j: int|
        0 <= i < keys2.len() && 0 <= j < keys2.len() && i != j implies keys2[i] != keys2[j] by {
        if i < keys.len() && j < keys.len() {
            assert(keys[i] != keys[j]);
        } else if i < keys.len() {
            assert(keys.contains(keys[i]));
        } else {
            assert(keys.contains(keys[j]));
        }
    }
    assert forall|q: Seq<char>| keys2.contains(q) == (q == k || keys.contains(q)) by {
        if keys.contains(q) {
            let i = keys.index_of(q);
            assert(keys2[i] == q);
        }
        if q == k {
            assert(keys2[keys.len() as int] == q);
        }
        if keys2.contains(q) && q != k {
            let i = keys2.index_of(q);
            assert(keys[i] == q);
        }
    }
    assert forall|q: Seq<char>| keys2.contains(q) implies #[trigger] assoc(keys2, vals2)[q]
        == assoc(keys, vals).insert(k, v)[q] by {
        let i = keys2.index_of(q);
        lemma_assoc_index(keys2, vals2, i);
        if q != k {
            assert(keys[i] == q);
            lemma_assoc_index(keys, vals, i);
        }
    }
    assert(assoc(keys2, vals2) =~= assoc(keys, vals).insert(k, v));
}

/// Overwriting the value at a position rebinds that position's key only.
proof fn lemma_assoc_update<V>(keys: Seq<Seq<char>>, vals: Seq<V>, i: int, v: V)
    requires
        keys.no_duplicates(),
        keys.len() == vals.len(),
        0 <= i < keys.len(),
    ensures
        assoc(keys, vals.update(i, v)) == assoc(keys, vals).insert(keys[i], v),
{
    let vals2 = vals.update(i, v);
    lemma_assoc_index(keys, vals, i);
    assert forall|q: Seq<char>| keys.contains(q) implies #[trigger] assoc(keys, vals2)[q] == assoc(
        keys,
        vals,
    ).insert(keys[i], v)[q] by {
        let j = keys.index_of(q);
        lemma_assoc_index(keys, vals, j);
        lemma_assoc_index(keys, vals2, j);
    }
    assert(assoc(keys, vals2) =~= assoc(keys, vals).insert(keys[i], v));
}

/// Deleting a position unbinds that position's key only.
proof fn lemma_assoc_remove<V>(keys: Seq<Seq<char>>, vals: Seq<V>, i: int)
    requires
        keys.no_duplicates(),
        keys.len() == vals.len(),
        0 <= i < keys.len(),
    ensures
        keys.remove(i).no_duplicates(),
        !keys.remove(i).contains(keys[i]),
        assoc(keys.remove(i), vals.remove(i)) == assoc(keys, vals).remove(keys[i]),
{
    let keys2 = keys.remove(i);
    let vals2 = vals.remove(i);
    assert forall|a: int, b: int|
        0 <= a < keys2.len() && 0 <= b < keys2.len() && a != b implies keys2[a] != keys2[b] by {
        let a0 = if a < i { a } else { a + 1 };
        let b0 = if b < i { b } else { b + 1 };
        assert(keys2[a] == keys[a0] && keys2[b] == keys[b0]);
    }
    assert forall|q: Seq<char>| keys2.contains(q) == (q != keys[i] && keys.contains(q)) by {
        if keys2.contains(q) {
            let a = keys2.index_of(q);
            let a0 = if a < i { a } else { a + 1 };
            assert(keys[a0] == q);
        }
        if q != keys[i] && keys.contains(q) {
            let a0 = keys.index_of(q);
            let a = if a0 < i { a0 } else { a0 - 1 };
            assert(keys2[a] == q);
        }
    }
    assert forall|q: Seq<char>| keys2.contains(q) implies #[trigger] assoc(keys2, vals2)[q]
        == assoc(keys, vals).remove(keys[i])[q] by {
        let a = keys2.index_of(q);
        let a0 = if a < i { a } else { a + 1 };
        lemma_assoc_index(keys2, vals2, a);
        assert(keys[a0] == q);
        lemma_assoc_index(keys, vals, a0);
    }
    assert(assoc(keys2, vals2) =~= assoc(keys, vals).remove(keys[i]));
}

/// A duplicate-free key list binds exactly as many keys as it is long.
proof fn lemma_assoc_len<V>(keys: Seq<Seq<char>>, vals: Seq<V>)
    requires
        keys.no_duplicates(),
    ensures
        assoc(keys, vals).dom().finite(),
        assoc(keys, vals).dom().len() == keys.len(),
{
    assert(assoc(keys, vals).dom() =~= keys.to_set());
    keys.unique_seq_to_set();
    vstd::seq_lib::seq_to_set_is_finite(keys);
}

/// The characters of each key, in storage order.
pub open spec fn key_views(keys: Seq<String>) -> Seq<Seq<char>> {
    keys.map_values(|k: String| k@)
}

/// A finite map from strings to values of type `V`.
#[derive(Debug)]
pub struct StringMap<V> {
    keys: Vec<String>,
    vals: Vec<V>,
}

impl<V> View for StringMap<V> {
    type V = Map<Seq<char>, V>;

    closed spec fn view(&self) -> Map<Seq<char>, V> {
        assoc(key_views(self.keys@), self.vals@)
    }
}

impl<V> StringMap<V> {
    /// Keys and values pair up, and no key occurs twice.
    pub closed spec fn wf(&self) -> bool {
        &&& self.keys@.len() == self.vals@.len()
        &&& key_views(self.keys@).no_duplicates()
    }

    /// The keys in storage order, as character sequences.
    pub closed spec fn key_order(&self) -> Seq<Seq<char>> {
        key_views(self.keys@)
    }

    /// The key order lists the keys of the view, each exactly once.
    pub proof fn lemma_key_order(&self)
        requires
            self.wf(),
        ensures
            self.key_order().no_duplicates(),
            self.key_order().to_set() == self@.dom(),
            self@.dom().finite(),
            self@.dom().len() == self.key_order().len(),
    {
        lemma_assoc_len(key_views(self.keys@), self.vals@);
        assert(self@.dom() =~= self.key_order().to_set());
    }

    /// The empty map.
    pub fn new() -> (m: Self)
        ensures
            m.wf(),
            m@ == Map::<Seq<char>, V>::empty(),
    {
        let m = StringMap { keys: Vec::new(), vals: Vec::new() };
        assert(m@ =~= Map::<Seq<char>, V>::empty());
        m
    }

    /// The number of bindings.
    pub fn len(&self) -> (n: usize)
        requires
            self.wf(),
        ensures
            n == self@.dom().len(),
            n == self.key_order().len(),
    {
        proof {
            self.lemma_key_order();
        }
        self.keys.len()
    }

    /// Whether the map binds nothing.
    pub fn is_empty(&self) -> (r: bool)
        requires
            self.wf(),
        ensures
            r == (self@ == Map::<Seq<char>, V>::empty()),
    {
        proof {
            self.lemma_key_order();
            if self.keys@.len() == 0 {
                assert(self@ =~= Map::<Seq<char>, V>::empty());
            }
        }
        self.keys.len() == 0
    }

    /// The position at which `key` is stored, if it is bound.
    fn find(&self, key: &String) -> (r: Option<usize>)
        requires
            self.wf(),
        ensures
            match r {
                Some(i) => i < self.keys@.len() && self.keys@[i as int]@ == key@,
                None => !key_views(self.keys@).contains(key@),
            },
    {
        let mut i: usize = 0;
        while i < self.keys.len()
            invariant
                i <= self.keys@.len(),
                forall|j: int| 0 <= j < i ==> key_views(self.keys@)[j] != key@,
            decreases self.keys@.len() - i,
        {
            if self.keys[i] == *key {
                return Some(i);
            }
            i = i + 1;
        }
        None
    }

    /// Whether `key` is bound.
    pub fn contains_key(&self, key: &String) -> (r: bool)
        requires
            self.wf(),
        ensures
            r == self@.contains_key(key@),
    {
        match self.find(key) {
            Some(i) => {
                proof {
                    lemma_assoc_index(key_views(self.keys@), self.vals@, i as int);
                }
                true
            },
            None => false,
        }
    }

    /// What `key` is bound to, if it is bound.
    pub fn get(&self, key: &String) -> (r: Option<&V>)
        requires
            self.wf(),
        ensures
            match r {
                Some(v) => self@.contains_key(key@) && *v == self@[key@],
                None => !self@.contains_key(key@),
            },
    {
        match self.find(key) {
            Some(i) => {
                proof {
                    lemma_assoc_index(key_views(self.keys@), self.vals@, i as int);
                }
                Some(&self.vals[i])
            },
            None => None,
        }
    }

    /// Binds `key` to `value`, replacing what `key` was bound to before.
    pub fn insert(&mut self, key: String, value: V)
        requires
            old(self).wf(),
        ensures
            final(self).wf(),
            final(self)@ == old(self)@.insert(key@, value),
    {
        match self.find(&key) {
            Some(i) => {
                proof {
                    lemma_assoc_update(key_views(self.keys@), self.vals@, i as int, value);
                }
                self.vals.set(i, value);
            },
            None => {
                proof {
                    lemma_assoc_push(key_views(self.keys@), self.vals@, key@, value);
                    assert(key_views(self.keys@.push(key)) =~= key_views(self.keys@).push(key@));
                }
                self.keys.push(key);
                self.vals.push(value);
            },
        }
    }

    /// Unbinds `key` and hands back what it was bound to.
    pub fn remove(&mut self, key: &String) -> (r: Option<V>)
        requires
            old(self).wf(),
        ensures
            final(self).wf(),
            final(self)@ == old(self)@.remove(key@),
            match r {
                Some(v) => old(self)@.contains_key(key@) && v == old(self)@[key@],
                None => !old(self)@.contains_key(key@),
            },
    {
        match self.find(key) {
            Some(i) => {
                proof {
                    lemma_assoc_index(key_views(self.keys@), self.vals@, i as int);
                    lemma_assoc_remove(key_views(self.keys@), self.vals@, i as int);
                    assert(key_views(self.keys@.remove(i as int)) =~= key_views(
                        self.keys@,
                    ).remove(i as int));
                }
                self.keys.remove(i);
                let v = self.vals.remove(i);
                Some(v)
            },
            None => {
                proof {
                    assert(self@.remove(key@) =~= self@);
                }
                None
            },
        }
    }

    /// Unbinds every key.
    pub fn clear(&mut self)
        requires
            old(self).wf(),
        ensures
            final(self).wf(),
            final(self)@ == Map::<Seq<char>, V>::empty(),
    {
        self.keys.clear();
        self.vals.clear();
        assert(self@ =~= Map::<Seq<char>, V>::empty());
    }

    /// A copy of every key, in storage order.
    pub fn keys(&self) -> (ks: Vec<String>)
        requires
            self.wf(),
        ensures
            key_views(ks@) == self.key_order(),
            key_views(ks@).no_duplicates(),
            key_views(ks@).to_set() == self@.dom(),
    {
        proof {
            self.lemma_key_order();
        }
        let ks = self.keys.clone();
        assert(ks@ =~= self.keys@);
        ks
    }

    /// The key stored at position `i` of the key order.
    pub fn key_at(&self, i: usize) -> (k: &String)
        requires
            self.wf(),
            i < self.key_order().len(),
        ensures
            k@ == self.key_order()[i as int],
            self@.contains_key(k@),
    {
        proof {
            lemma_assoc_index(key_views(self.keys@), self.vals@, i as int);
        }
        &self.keys[i]
    }

    /// The value bound to the key at position `i` of the key order.
    pub fn value_at(&self, i: usize) -> (v: &V)
        requires
            self.wf(),
            i < self.key_order().len(),
        ensures
            self@.contains_key(self.key_order()[i as int]),
            *v == self@[self.key_order()[i as int]],
    {
        proof {
            lemma_assoc_index(key_views(self.keys@), self.vals@, i as int);
        }
        &self.vals[i]
    }
}

impl Clone for StringMap<u64> {
    /// A map with the same bindings, stored in the same order.
    fn clone(&self) -> (r: Self)
        ensures
            r@ == self@,
            self.wf() ==> r.wf(),
            r.key_order() == self.key_order(),
    {
        let keys = self.keys.clone();
        let vals = self.vals.clone();
        assert(keys@ =~= self.keys@);
        assert(vals@ =~= self.vals@);
        StringMap { keys, vals }
    }
}

} // verus!
