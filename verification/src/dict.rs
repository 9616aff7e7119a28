//! An insertion-ordered map with string keys.
//!
//! Entries are kept in the order in which their keys were first inserted,
//! so that walking the map is deterministic. Inserting under a key that is
//! already present replaces the value and keeps the key's position.

use vstd::prelude::*;

verus! {

/// Whether some entry of `s` has the key `key`.
pub open spec fn has_key<V>(s: Seq<(Seq<char>, V)>, key: Seq<char>) -> bool {
    exists|i: int| 0 <= i < s.len() && (#[trigger] s[i]).0 == key
}

/// The position of an entry with the key `key`, where there is one.
pub open spec fn key_index<V>(s: Seq<(Seq<char>, V)>, key: Seq<char>) -> int {
    choose|i: int| 0 <= i < s.len() && (#[trigger] s[i]).0 == key
}

/// No key occurs in two entries.
pub open spec fn distinct_keys<V>(s: Seq<(Seq<char>, V)>) -> bool {
    forall|i: int, j: int| 0 <= i < j < s.len() ==> (#[trigger] s[i]).0 != (#[trigger] s[j]).0
}

/// The entries after inserting `value` under `key`: the value is replaced
/// in place where the key is present, and appended otherwise.
pub open spec fn put<V>(s: Seq<(Seq<char>, V)>, key: Seq<char>, value: V) -> Seq<(Seq<char>, V)> {
    if has_key(s, key) {
        s.update(key_index(s, key), (key, value))
    } else {
        s.push((key, value))
    }
}

/// The entries read as a mathematical map.
pub open spec fn as_map<V>(s: Seq<(Seq<char>, V)>) -> Map<Seq<char>, V> {
    Map::new(|k: Seq<char>| has_key(s, k), |k: Seq<char>| s[key_index(s, k)].1)
}

/// Inserting keeps keys distinct.
pub proof fn lemma_put_distinct<V>(s: Seq<(Seq<char>, V)>, key: Seq<char>, value: V)
    requires
        distinct_keys(s),
    ensures
        distinct_keys(put(s, key, value)),
        has_key(put(s, key, value), key),
        put(s, key, value)[key_index(put(s, key, value), key)].1 == value,
        put(s, key, value).len() == if has_key(s, key) {
            s.len()
        } else {
            s.len() + 1
        },
{
    let t = put(s, key, value);
    if has_key(s, key) {
        let k = key_index(s, key);
        assert(t[k].0 == key);
        assert forall|i: int, j: int| 0 <= i < j < t.len() implies (#[trigger] t[i]).0 != (
        #[trigger] t[j]).0 by {
            assert(s[i].0 != s[j].0);
        }
    } else {
        assert(t[s.len() as int].0 == key);
        assert forall|i: int, j: int| 0 <= i < j < t.len() implies (#[trigger] t[i]).0 != (
        #[trigger] t[j]).0 by {
            if j < s.len() {
                assert(s[i].0 != s[j].0);
            } else {
                assert(s[i].0 != key);
            }
        }
    }
    let m = key_index(t, key);
    assert(t[m].0 == key);
    if has_key(s, key) {
        let k = key_index(s, key);
        if m != k {
            if m < k {
                assert(t[m].0 != t[k].0);
            } else {
                assert(t[k].0 != t[m].0);
            }
        }
    } else {
        if m != s.len() {
            assert(s[m].0 == key);
        }
    }
}

/// Inserting under `key` leaves what the map holds under every other key.
pub proof fn lemma_put_map<V>(s: Seq<(Seq<char>, V)>, key: Seq<char>, value: V)
    requires
        distinct_keys(s),
    ensures
        as_map(put(s, key, value)) == as_map(s).insert(key, value),
{
    let t = put(s, key, value);
    lemma_put_distinct(s, key, value);
    assert forall|k: Seq<char>| has_key(t, k) <==> (k == key || has_key(s, k)) by {
        if has_key(t, k) && k != key {
            let i = key_index(t, k);
            assert(t[i].0 == k);
            assert(s[i].0 == k);
        }
        if has_key(s, k) && k != key {
            let i = key_index(s, k);
            assert(s[i].0 == k);
            assert(t[i].0 == k);
        }
    }
    assert forall|k: Seq<char>| has_key(t, k) && k != key implies t[key_index(t, k)].1
        == s[key_index(s, k)].1 by {
        let i = key_index(t, k);
        let j = key_index(s, k);
        assert(t[i].0 == k);
        assert(s[i].0 == k);
        assert(s[j].0 == k);
        if i < j {
            assert(s[i].0 != s[j].0);
        } else if j < i {
            assert(s[j].0 != s[i].0);
        }
    }
    assert(as_map(t) =~= as_map(s).insert(key, value));
}

/// The entries with each value as what it holds.
pub open spec fn deep_pairs<V: DeepView>(s: Seq<(Seq<char>, V)>) -> Seq<(Seq<char>, V::V)> {
    Seq::new(s.len(), |i: int| (s[i].0, s[i].1.deep_view()))
}

/// Taking what each value holds commutes with inserting.
pub proof fn lemma_deep_pairs_put<V: DeepView>(s: Seq<(Seq<char>, V)>, key: Seq<char>, value: V)
    requires
        distinct_keys(s),
    ensures
        deep_pairs(put(s, key, value)) == put(deep_pairs(s), key, value.deep_view()),
        distinct_keys(deep_pairs(s)),
{
    let t = deep_pairs(s);
    assert forall|i: int, j: int| 0 <= i < j < t.len() implies (#[trigger] t[i]).0 != (
    #[trigger] t[j]).0 by {
        assert(s[i].0 != s[j].0);
    }
    if has_key(s, key) {
        let k = key_index(s, key);
        assert(t[k].0 == key);
        let m = key_index(t, key);
        assert(t[m].0 == key);
        if m < k {
            assert(t[m].0 != t[k].0);
        } else if k < m {
            assert(t[k].0 != t[m].0);
        }
        assert(deep_pairs(put(s, key, value)) =~= put(t, key, value.deep_view()));
    } else {
        if has_key(t, key) {
            let m = key_index(t, key);
            assert(t[m].0 == key);
            assert(s[m].0 == key);
        }
        assert(deep_pairs(put(s, key, value)) =~= put(t, key, value.deep_view()));
    }
}

/// An insertion-ordered map from strings to `V`.
#[derive(Debug)]
pub struct Dict<V> {
    entries: Vec<(String, V)>,
}

impl<V> View for Dict<V> {
    type V = Seq<(Seq<char>, V)>;

    /// The entries, in order of first insertion, each key as its text.
    closed spec fn view(&self) -> Seq<(Seq<char>, V)> {
        Seq::new(self.entries@.len(), |i: int| (self.entries@[i].0@, self.entries@[i].1))
    }
}

impl<V> Dict<V> {
    /// The validity of a dictionary: no key occurs twice.
    #[verifier::type_invariant]
    pub closed spec fn wf(&self) -> bool {
        distinct_keys(self@)
    }

    /// Every dictionary that running code holds is valid.
    pub proof fn lemma_wf(&self)
        requires
            self.wf(),
        ensures
            distinct_keys(self@),
    {
    }

    /// An empty dictionary.
    pub fn new() -> (d: Self)
        ensures
            d@ == Seq::<(Seq<char>, V)>::empty(),
            d.wf(),
    {
        let d = Dict { entries: Vec::new() };
        assert(d@ =~= Seq::<(Seq<char>, V)>::empty());
        d
    }

    /// The number of entries.
    pub fn len(&self) -> (n: usize)
        ensures
            n == self@.len(),
    {
        self.entries.len()
    }

    /// Whether there is no entry.
    pub fn is_empty(&self) -> (b: bool)
        ensures
            b == (self@.len() == 0),
    {
        self.entries.len() == 0
    }

    /// The key of the entry at position `i`.
    pub fn key_at(&self, i: usize) -> (k: &String)
        requires
            i < self@.len(),
        ensures
            k@ == self@[i as int].0,
    {
        &self.entries[i].0
    }

    /// The value of the entry at position `i`.
    pub fn value_at(&self, i: usize) -> (v: &V)
        requires
            i < self@.len(),
        ensures
            *v == self@[i as int].1,
    {
        &self.entries[i].1
    }

    /// The position of the entry with the key `key`, if there is one.
    pub fn position(&self, key: &str) -> (r: Option<usize>)
        ensures
            self.wf(),
            r is Some <==> has_key(self@, key@),
            r matches Some(i) ==> i < self@.len() && i == key_index(self@, key@),
    {
        proof {
            use_type_invariant(self);
        }
        let wanted = key.to_owned();
        let mut i: usize = 0;
        while i < self.entries.len()
            invariant
                i <= self.entries@.len(),
                wanted@ == key@,
                distinct_keys(self@),
                forall|j: int| 0 <= j < i ==> (#[trigger] self@[j]).0 != key@,
            decreases self.entries@.len() - i,
        {
            if self.entries[i].0 == wanted {
                assert(self@[i as int].0 == key@);
                proof {
                    let k = key_index(self@, key@);
                    assert(self@[k].0 == key@);
                    if k < i {
                        assert(self@[k].0 != self@[i as int].0);
                    } else if i < k {
                        assert(self@[i as int].0 != self@[k].0);
                    }
                }
                return Some(i);
            }
            i += 1;
        }
        assert(!has_key(self@, key@)) by {
            if has_key(self@, key@) {
                let k = key_index(self@, key@);
                assert(self@[k].0 != key@);
            }
        }
        None
    }

    /// Whether there is an entry with the key `key`.
    pub fn contains_key(&self, key: &str) -> (b: bool)
        ensures
            b == has_key(self@, key@),
            b == as_map(self@).dom().contains(key@),
    {
        self.position(key).is_some()
    }

    /// The value under the key `key`, if there is one.
    pub fn get(&self, key: &str) -> (r: Option<&V>)
        ensures
            r is Some <==> has_key(self@, key@),
            r matches Some(v) ==> *v == self@[key_index(self@, key@)].1 && *v == as_map(self@)[key@],
    {
        match self.position(key) {
            Some(i) => Some(&self.entries[i].1),
            None => None,
        }
    }

    /// Inserts `value` under `key`, replacing the value of an entry that has
    /// this key already.
    pub fn insert(&mut self, key: &str, value: V)
        ensures
            final(self)@ == put(old(self)@, key@, value),
            final(self).wf(),
    {
        proof {
            use_type_invariant(&*self);
            lemma_put_distinct(self@, key@, value);
        }
        let found = self.position(key);
        let ghost before = self@;
        let owned = key.to_owned();
        let mut entries: Vec<(String, V)> = Vec::new();
        core::mem::swap(&mut self.entries, &mut entries);
        match found {
            Some(i) => {
                entries.set(i, (owned, value));
            },
            None => {
                entries.push((owned, value));
            },
        }
        assert(Seq::new(entries@.len(), |i: int| (entries@[i].0@, entries@[i].1)) =~= put(
            before,
            key@,
            value,
        ));
        self.entries = entries;
    }
}

impl<V: DeepView> DeepView for Dict<V> {
    type V = Seq<(Seq<char>, V::V)>;

    /// The entries, each value as what it holds.
    open spec fn deep_view(&self) -> Seq<(Seq<char>, V::V)> {
        deep_pairs(self@)
    }
}

impl<V: DeepView> Dict<V> {
    /// Inserts `value` under `key` as [`Dict::insert`] does; the contract
    /// speaks of what the values hold.
    pub fn set(&mut self, key: &str, value: V)
        ensures
            final(self).deep_view() == put(old(self).deep_view(), key@, value.deep_view()),
            final(self)@ == put(old(self)@, key@, value),
            final(self).wf(),
    {
        proof {
            use_type_invariant(&*self);
            lemma_deep_pairs_put(self@, key@, value);
        }
        self.insert(key, value);
    }
}

impl<V: Clone> Clone for Dict<V> {
    /// A copy with the same keys in the same order, each value cloned.
    fn clone(&self) -> (res: Self)
        ensures
            res@.len() == self@.len(),
            forall|i: int|
                0 <= i < self@.len() ==> (#[trigger] res@[i]).0 == self@[i].0 && cloned::<V>(
                    self@[i].1,
                    res@[i].1,
                ),
            res.wf(),
    {
        proof {
            use_type_invariant(self);
        }
        let mut entries: Vec<(String, V)> = Vec::new();
        let mut i: usize = 0;
        while i < self.entries.len()
            invariant
                i <= self.entries@.len(),
                entries@.len() == i,
                forall|j: int|
                    0 <= j < i ==> (#[trigger] entries@[j]).0@ == self.entries@[j].0@ && cloned::<V>(
                        self.entries@[j].1,
                        entries@[j].1,
                    ),
            decreases self.entries@.len() - i,
        {
            let k = self.entries[i].0.clone();
            let v = self.entries[i].1.clone();
            entries.push((k, v));
            i += 1;
        }
        proof {
            let copy = Seq::new(entries@.len(), |i: int| (entries@[i].0@, entries@[i].1));
            assert forall|a: int, b: int| 0 <= a < b < copy.len() implies (#[trigger] copy[a]).0
                != (#[trigger] copy[b]).0 by {
                assert(self@[a].0 != self@[b].0);
            }
        }
        Dict { entries }
    }
}

} // verus!
