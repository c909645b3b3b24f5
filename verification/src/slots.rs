//! A map from type identities to values, kept as a list of entries.
//!
//! Nothing is known of a `TypeId` but whether it equals another, so the map
//! finds an entry by comparing keys one by one. No key occurs twice.
use vstd::prelude::*;
use std::any::TypeId;
use crate::erasure::same_key;

verus! {

/// A finite map keyed by type identity. Its view is the map itself.
pub struct TypeMap<V> {
    entries: Vec<(TypeId, V)>,
}

/// The entry at index `i` of `s` exists and has the key `key`.
spec fn keyed_at<V>(s: Seq<(TypeId, V)>, i: int, key: TypeId) -> bool {
    0 <= i < s.len() && s[i].0 == key
}

/// The map that a list of entries stands for: each key that occurs, with the
/// value of an entry that has it.
spec fn map_of<V>(s: Seq<(TypeId, V)>) -> Map<TypeId, V> {
    Map::new(
        |key: TypeId| exists|i: int| keyed_at(s, i, key),
        |key: TypeId| s[choose|i: int| keyed_at(s, i, key)].1,
    )
}

/// No two entries of `s` have the same key.
spec fn distinct_keys<V>(s: Seq<(TypeId, V)>) -> bool {
    forall|i: int, j: int| 0 <= i < j < s.len() ==> s[i].0 != s[j].0
}

impl<V> View for TypeMap<V> {
    type V = Map<TypeId, V>;

    closed spec fn view(&self) -> Map<TypeId, V> {
        map_of(self.entries@)
    }
}

impl<V> TypeMap<V> {
    /// Every `TypeMap` has distinct keys.
    #[verifier::type_invariant]
    spec fn well_formed(&self) -> bool {
        distinct_keys(self.entries@)
    }

    /// An empty map.
    pub fn new() -> (m: Self)
        ensures
            m@ == Map::<TypeId, V>::empty(),
    {
        let m = TypeMap { entries: Vec::new() };
        assert(m@ =~= Map::<TypeId, V>::empty());
        m
    }

    /// The index of the entry with the key `key`, if there is one.
    fn position(&self, key: &TypeId) -> (found: Option<usize>)
        ensures
            match found {
                Some(i) => keyed_at(self.entries@, i as int, *key),
                None => forall|i: int| !keyed_at(self.entries@, i, *key),
            },
    {
        let mut i: usize = 0;
        while i < self.entries.len()
            invariant
                i <= self.entries@.len(),
                forall|j: int| 0 <= j < i ==> !keyed_at(self.entries@, j, *key),
            decreases self.entries@.len() - i,
        {
            if same_key(&self.entries[i].0, key) {
                return Some(i);
            }
            i += 1;
        }
        None
    }

    /// The value under `key`, if there is one.
    pub fn get(&self, key: &TypeId) -> (found: Option<&V>)
        ensures
            found == (if self@.contains_key(*key) {
                Some(&self@[*key])
            } else {
                None
            }),
    {
        proof {
            use_type_invariant(self);
        }
        match self.position(key) {
            Some(i) => {
                proof {
                    lemma_map_of_at(self.entries@, i as int);
                }
                Some(&self.entries[i].1)
            },
            None => None,
        }
    }

    /// Puts `value` under `key`, in place of the value that was there.
    pub fn insert(&mut self, key: TypeId, value: V)
        ensures
            final(self)@ == old(self)@.insert(key, value),
    {
        proof {
            use_type_invariant(&*self);
        }
        let found = self.position(&key);
        let mut entries: Vec<(TypeId, V)> = Vec::new();
        std::mem::swap(&mut entries, &mut self.entries);
        match found {
            Some(i) => {
                proof {
                    lemma_map_of_update(entries@, i as int, value);
                }
                entries.set(i, (key, value));
            },
            None => {
                proof {
                    lemma_map_of_push(entries@, key, value);
                }
                entries.push((key, value));
            },
        }
        self.entries = entries;
    }
}

/// Where keys are distinct, the map has each entry's value under its key.
proof fn lemma_map_of_at<V>(s: Seq<(TypeId, V)>, i: int)
    requires
        distinct_keys(s),
        0 <= i < s.len(),
    ensures
        map_of(s).contains_key(s[i].0),
        map_of(s)[s[i].0] == s[i].1,
{
    let key = s[i].0;
    assert(keyed_at(s, i, key));
    let c = choose|c: int| keyed_at(s, c, key);
    assert(c == i);
}

/// Replacing the value of entry `i` puts the new value under that entry's
/// key and keeps the keys distinct.
proof fn lemma_map_of_update<V>(s: Seq<(TypeId, V)>, i: int, value: V)
    requires
        distinct_keys(s),
        0 <= i < s.len(),
    ensures
        distinct_keys(s.update(i, (s[i].0, value))),
        map_of(s.update(i, (s[i].0, value))) == map_of(s).insert(s[i].0, value),
{
    let key = s[i].0;
    let t = s.update(i, (key, value));
    assert forall|k: TypeId| #[trigger]
        map_of(t).contains_key(k) <==> map_of(s).insert(key, value).contains_key(k) by {
        if map_of(t).contains_key(k) {
            let c = choose|c: int| keyed_at(t, c, k);
            assert(keyed_at(s, c, k));
        }
        if map_of(s).insert(key, value).contains_key(k) {
            if k == key {
                assert(keyed_at(t, i, k));
            } else {
                let c = choose|c: int| keyed_at(s, c, k);
                assert(keyed_at(t, c, k));
            }
        }
    }
    assert forall|k: TypeId| #[trigger] map_of(t).contains_key(k) implies map_of(t)[k]
        == map_of(s).insert(key, value)[k] by {
        let c = choose|c: int| keyed_at(t, c, k);
        lemma_map_of_at(t, c);
        if k != key {
            lemma_map_of_at(s, c);
        }
    }
    assert(map_of(t) =~= map_of(s).insert(key, value));
}

/// Appending an entry with a key that does not occur yet puts its value
/// under that key and keeps the keys distinct.
proof fn lemma_map_of_push<V>(s: Seq<(TypeId, V)>, key: TypeId, value: V)
    requires
        distinct_keys(s),
        forall|i: int| !keyed_at(s, i, key),
    ensures
        distinct_keys(s.push((key, value))),
        map_of(s.push((key, value))) == map_of(s).insert(key, value),
{
    let t = s.push((key, value));
    assert forall|i: int, j: int| 0 <= i < j < t.len() implies t[i].0 != t[j].0 by {
        if j == s.len() {
            assert(!keyed_at(s, i, key));
        }
    }
    assert forall|k: TypeId| #[trigger]
        map_of(t).contains_key(k) <==> map_of(s).insert(key, value).contains_key(k) by {
        if map_of(t).contains_key(k) {
            let c = choose|c: int| keyed_at(t, c, k);
            if c < s.len() {
                assert(keyed_at(s, c, k));
            }
        }
        if map_of(s).insert(key, value).contains_key(k) {
            if k == key {
                assert(keyed_at(t, s.len() as int, k));
            } else {
                let c = choose|c: int| keyed_at(s, c, k);
                assert(keyed_at(t, c, k));
            }
        }
    }
    assert forall|k: TypeId| #[trigger] map_of(t).contains_key(k) implies map_of(t)[k]
        == map_of(s).insert(key, value)[k] by {
        let c = choose|c: int| keyed_at(t, c, k);
        lemma_map_of_at(t, c);
        if k != key {
            lemma_map_of_at(s, c);
        } else if c < s.len() {
            assert(keyed_at(s, c, key));
        }
    }
    assert(map_of(t) =~= map_of(s).insert(key, value));
}

} // verus!
