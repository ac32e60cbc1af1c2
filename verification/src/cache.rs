//! A small keyed cache, used for connections to remote relays (by URL), for
//! tracks subscribed on a remote relay (by namespace and name), and for the
//! local registry of namespaces and tracks (by name).
//!
//! Entries are kept in a vector and found by comparing key contents, so that
//! lookups by string keys come with proofs over the keys' views.
use vstd::prelude::*;

use crate::seq_facts::{lemma_unique_len, strings_view};

verus! {

/// A key that can be compared with another key by its contents.
pub trait CacheKey: View + Sized {
    /// Whether two keys have the same contents.
    fn same_key(&self, other: &Self) -> (r: bool)
        ensures
            r == (self@ == other@);
}

impl CacheKey for String {
    fn same_key(&self, other: &Self) -> (r: bool) {
        *self == *other
    }
}

/// Whether two lists of strings have the same contents.
pub fn strings_equal(a: &Vec<String>, b: &Vec<String>) -> (r: bool)
    ensures
        r == (strings_view(a@) == strings_view(b@)),
{
    if a.len() != b.len() {
        return false;
    }
    let mut i: usize = 0;
    while i < a.len()
        invariant
            a@.len() == b@.len(),
            i <= a@.len(),
            forall|j: int| 0 <= j < i ==> a@[j]@ == b@[j]@,
        decreases a@.len() - i,
    {
        if !(a[i] == b[i]) {
            proof {
                assert(strings_view(a@)[i as int] != strings_view(b@)[i as int]);
            }
            return false;
        }
        i += 1;
    }
    proof {
        assert(strings_view(a@) =~= strings_view(b@));
    }
    true
}

/// A track on a remote relay: its namespace and name.
pub struct TrackKey {
    pub namespace: Vec<String>,
    pub name: String,
}

impl View for TrackKey {
    type V = (Seq<Seq<char>>, Seq<char>);

    open spec fn view(&self) -> (Seq<Seq<char>>, Seq<char>) {
        (strings_view(self.namespace@), self.name@)
    }
}

impl CacheKey for TrackKey {
    fn same_key(&self, other: &Self) -> (r: bool) {
        strings_equal(&self.namespace, &other.namespace) && self.name == other.name
    }
}

/// One cached value and its key.
pub struct CacheEntry<K, V> {
    pub key: K,
    pub value: V,
}

/// Values by key; each key is held at most once.
pub struct KeyedCache<K: CacheKey, V> {
    entries: Vec<CacheEntry<K, V>>,
}

/// Whether no two entries have keys with the same contents.
pub open spec fn unique_keys<K: View, V>(s: Seq<CacheEntry<K, V>>) -> bool {
    forall|i: int, j: int| 0 <= i < s.len() && 0 <= j < s.len() && #[trigger] s[i].key@ == #[trigger] s[j].key@ ==> i == j
}

/// The map that a sequence of entries with distinct keys denotes.
pub open spec fn entries_map<K: View, V>(s: Seq<CacheEntry<K, V>>) -> Map<K::V, V> {
    Map::new(
        |k: K::V| exists|i: int| 0 <= i < s.len() && s[i].key@ == k,
        |k: K::V| s[choose|i: int| 0 <= i < s.len() && s[i].key@ == k].value,
    )
}

impl<K: CacheKey, V> View for KeyedCache<K, V> {
    type V = Map<K::V, V>;

    closed spec fn view(&self) -> Map<K::V, V> {
        entries_map(self.entries@)
    }
}

impl<K: CacheKey, V> KeyedCache<K, V> {
    #[verifier::type_invariant]
    closed spec fn wf(self) -> bool {
        unique_keys(self.entries@)
    }

    /// An empty cache.
    pub fn new() -> (r: Self)
        ensures
            r@ == Map::<K::V, V>::empty(),
    {
        let r = KeyedCache { entries: Vec::new() };
        r
    }

    fn find(&self, key: &K) -> (r: Option<usize>)
        ensures
            match r {
                Some(i) => i < self.entries@.len() && self.entries@[i as int].key@ == key@,
                None => forall|i: int| 0 <= i < self.entries@.len() ==> self.entries@[i].key@ != key@,
            },
    {
        let mut i: usize = 0;
        while i < self.entries.len()
            invariant
                i <= self.entries@.len(),
                forall|j: int| 0 <= j < i ==> self.entries@[j].key@ != key@,
            decreases self.entries@.len() - i,
        {
            if self.entries[i].key.same_key(key) {
                return Some(i);
            }
            i += 1;
        }
        None
    }

    /// The value cached under `key`, if any.
    pub fn get(&self, key: &K) -> (r: Option<&V>)
        ensures
            match r {
                Some(v) => self@.contains_key(key@) && *v == self@[key@],
                None => !self@.contains_key(key@),
            },
    {
        proof {
            use_type_invariant(self);
        }
        match self.find(key) {
            Some(i) => Some(&self.entries[i].value),
            None => None,
        }
    }

    /// The number of keys cached.
    pub fn len(&self) -> (r: usize)
        ensures
            self@.dom().finite(),
            r == self@.dom().len(),
    {
        proof {
            use_type_invariant(self);
            let s = self.entries@;
            let keys = s.map_values(|e: CacheEntry<K, V>| e.key@);
            assert(keys.no_duplicates());
            lemma_unique_len(keys);
            assert(self@.dom() =~= keys.to_set()) by {
                assert forall|k: K::V| self@.dom().contains(k) implies keys.to_set().contains(k) by {
                    let x = choose|x: int| 0 <= x < s.len() && s[x].key@ == k;
                    assert(keys[x] == k);
                }
                assert forall|k: K::V| keys.to_set().contains(k) implies self@.dom().contains(k) by {
                    let x = choose|x: int| 0 <= x < keys.len() && keys[x] == k;
                    assert(s[x].key@ == k);
                }
            }
        }
        self.entries.len()
    }

    /// Whether a value is cached under `key`.
    pub fn contains(&self, key: &K) -> (r: bool)
        ensures
            r == self@.contains_key(key@),
    {
        self.find(key).is_some()
    }

    /// Cache `value` under `key`, replacing any value cached there before.
    pub fn insert(&mut self, key: K, value: V)
        ensures
            final(self)@ == old(self)@.insert(key@, value),
    {
        proof {
            use_type_invariant(&*self);
        }
        let ghost before = self.entries@;
        let ghost kv = key@;
        let mut entries: Vec<CacheEntry<K, V>> = Vec::new();
        std::mem::swap(&mut entries, &mut self.entries);
        match self.find_in(&entries, &key) {
            Some(i) => {
                entries.remove(i);
                entries.insert(i, CacheEntry { key, value });
                proof {
                    let s = entries@;
                    assert forall|k: K::V| #[trigger] entries_map(s).contains_key(k)
                        == entries_map(before).insert(kv, value).contains_key(k) by {
                        if exists|x: int| 0 <= x < before.len() && before[x].key@ == k {
                            let x = choose|x: int| 0 <= x < before.len() && before[x].key@ == k;
                            assert(s[x].key@ == k);
                        }
                    }
                }
            },
            None => {
                entries.push(CacheEntry { key, value });
                proof {
                    let s = entries@;
                    let n = before.len() as int;
                    assert forall|k: K::V| #[trigger] entries_map(s).contains_key(k)
                        == entries_map(before).insert(kv, value).contains_key(k) by {
                        if exists|x: int| 0 <= x < before.len() && before[x].key@ == k {
                            let x = choose|x: int| 0 <= x < before.len() && before[x].key@ == k;
                            assert(s[x].key@ == k);
                        }
                        if k == kv {
                            assert(s[n].key@ == k);
                        }
                    }
                }
            },
        }
        self.entries = entries;
    }

    fn find_in(&self, entries: &Vec<CacheEntry<K, V>>, key: &K) -> (r: Option<usize>)
        ensures
            match r {
                Some(i) => i < entries@.len() && entries@[i as int].key@ == key@,
                None => forall|i: int| 0 <= i < entries@.len() ==> entries@[i].key@ != key@,
            },
    {
        let mut i: usize = 0;
        while i < entries.len()
            invariant
                i <= entries@.len(),
                forall|j: int| 0 <= j < i ==> entries@[j].key@ != key@,
            decreases entries@.len() - i,
        {
            if entries[i].key.same_key(key) {
                return Some(i);
            }
            i += 1;
        }
        None
    }

    /// Remove and return the value cached under `key`, if any.
    pub fn remove(&mut self, key: &K) -> (r: Option<V>)
        ensures
            final(self)@ == old(self)@.remove(key@),
            match r {
                Some(v) => old(self)@.contains_key(key@) && v == old(self)@[key@],
                None => !old(self)@.contains_key(key@),
            },
    {
        proof {
            use_type_invariant(&*self);
        }
        let ghost before = self.entries@;
        let ghost kv = key@;
        let mut entries: Vec<CacheEntry<K, V>> = Vec::new();
        std::mem::swap(&mut entries, &mut self.entries);
        let r = match self.find_in(&entries, key) {
            Some(i) => {
                let removed = entries.remove(i);
                proof {
                    let s = entries@;
                    assert forall|k: K::V| #[trigger] entries_map(s).contains_key(k)
                        == entries_map(before).remove(kv).contains_key(k) by {
                        if k != kv && exists|x: int| 0 <= x < before.len() && before[x].key@ == k {
                            let x = choose|x: int| 0 <= x < before.len() && before[x].key@ == k;
                            if x < i {
                                assert(s[x].key@ == k);
                            } else {
                                assert(s[x - 1].key@ == k);
                            }
                        }
                    }
                }
                Some(removed.value)
            },
            None => None,
        };
        self.entries = entries;
        r
    }

    /// Remove every entry, handing them out.
    pub fn drain(&mut self) -> (r: Vec<CacheEntry<K, V>>)
        ensures
            final(self)@ == Map::<K::V, V>::empty(),
            entries_map(r@) == old(self)@,
            unique_keys(r@),
    {
        proof {
            use_type_invariant(&*self);
        }
        let mut entries: Vec<CacheEntry<K, V>> = Vec::new();
        std::mem::swap(&mut entries, &mut self.entries);
        entries
    }
}

/// A value cached under a key is what a later lookup of that key finds, and
/// caching under one key leaves every other key as it was.
pub proof fn lemma_insert_then_get<K, V>(m: Map<K, V>, key: K, value: V, other: K)
    requires
        other != key,
    ensures
        m.insert(key, value).contains_key(key),
        m.insert(key, value)[key] == value,
        m.insert(key, value).contains_key(other) == m.contains_key(other),
        m.contains_key(other) ==> m.insert(key, value)[other] == m[other],
        !m.remove(key).contains_key(key),
{
}

} // verus!
