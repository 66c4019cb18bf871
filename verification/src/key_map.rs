use crate::keys::LogicalKey;
use vstd::prelude::*;

verus! {

/// Some entry of `s` is stored under `k`.
pub open spec fn has_key<V>(s: Seq<(LogicalKey, V)>, k: LogicalKey) -> bool {
    exists|i: int| 0 <= i < s.len() && (#[trigger] s[i]).0 == k
}

/// The place of an entry stored under `k`; meaningful where `has_key(s, k)`.
pub open spec fn index_of<V>(s: Seq<(LogicalKey, V)>, k: LogicalKey) -> int {
    choose|i: int| 0 <= i < s.len() && (#[trigger] s[i]).0 == k
}

/// No key is stored twice.
pub open spec fn distinct_keys<V>(s: Seq<(LogicalKey, V)>) -> bool {
    forall|i: int, j: int| 0 <= i < j < s.len() ==> (#[trigger] s[i]).0 != (#[trigger] s[j]).0
}

/// The value stored under `k`, if any.
pub open spec fn lookup<V>(s: Seq<(LogicalKey, V)>, k: LogicalKey) -> Option<V> {
    if has_key(s, k) {
        Some(s[index_of(s, k)].1)
    } else {
        None
    }
}

/// `s` with `v` stored under `k`: in place where `k` was stored already,
/// at the end otherwise.
pub open spec fn upsert<V>(s: Seq<(LogicalKey, V)>, k: LogicalKey, v: V) -> Seq<(LogicalKey, V)> {
    if has_key(s, k) {
        s.update(index_of(s, k), (k, v))
    } else {
        s.push((k, v))
    }
}

/// The entries as a finite map, forgetting their order.
pub open spec fn to_map<V>(s: Seq<(LogicalKey, V)>) -> Map<LogicalKey, V> {
    Map::new(|k: LogicalKey| has_key(s, k), |k: LogicalKey| s[index_of(s, k)].1)
}

/// With distinct keys, an entry's key leads back to its place.
pub proof fn lemma_index_of_unique<V>(s: Seq<(LogicalKey, V)>, i: int)
    requires
        distinct_keys(s),
        0 <= i < s.len(),
    ensures
        has_key(s, s[i].0),
        index_of(s, s[i].0) == i,
        lookup(s, s[i].0) == Some(s[i].1),
{
    let k = s[i].0;
    let j = index_of(s, k);
    assert(0 <= j < s.len() && s[j].0 == k);
    if j < i {
        assert(s[j].0 != s[i].0);
    } else if i < j {
        assert(s[i].0 != s[j].0);
    }
}

/// What storing a value does to the keys and to every lookup.
pub proof fn lemma_upsert<V>(s: Seq<(LogicalKey, V)>, k: LogicalKey, v: V)
    requires
        distinct_keys(s),
    ensures
        distinct_keys(upsert(s, k, v)),
        lookup(upsert(s, k, v), k) == Some(v),
        forall|other: LogicalKey|
            other != k ==> lookup(#[trigger] upsert(s, k, v), other) == lookup(s, other),
        forall|other: LogicalKey|
            has_key(#[trigger] upsert(s, k, v), other) <==> (other == k || has_key(s, other)),
{
    let t = upsert(s, k, v);
    if has_key(s, k) {
        let p = index_of(s, k);
        assert(0 <= p < s.len() && s[p].0 == k);
        assert forall|i: int, j: int| 0 <= i < j < t.len() implies (#[trigger] t[i]).0 != (
        #[trigger] t[j]).0 by {
            assert(t[i].0 == s[i].0);
            assert(t[j].0 == s[j].0);
        }
        assert(t[p].0 == k);
        lemma_index_of_unique(t, p);
        assert forall|other: LogicalKey| has_key(t, other) <==> (other == k || has_key(
            s,
            other,
        )) by {
            if has_key(t, other) {
                let i = index_of(t, other);
                assert(t[i].0 == s[i].0);
            }
            if has_key(s, other) {
                let i = index_of(s, other);
                assert(t[i].0 == other);
            }
        }
        assert forall|other: LogicalKey| other != k implies lookup(t, other) == lookup(
            s,
            other,
        ) by {
            if has_key(s, other) {
                let i = index_of(s, other);
                assert(s[i].0 == other);
                assert(t[i] == s[i]);
                lemma_index_of_unique(s, i);
                lemma_index_of_unique(t, i);
            }
        }
    } else {
        let p = s.len() as int;
        assert forall|i: int, j: int| 0 <= i < j < t.len() implies (#[trigger] t[i]).0 != (
        #[trigger] t[j]).0 by {
            if j < s.len() {
                assert(t[i] == s[i]);
                assert(t[j] == s[j]);
            } else {
                assert(t[i] == s[i]);
                assert(t[j].0 == k);
            }
        }
        assert(t[p].0 == k);
        lemma_index_of_unique(t, p);
        assert forall|other: LogicalKey| has_key(t, other) <==> (other == k || has_key(
            s,
            other,
        )) by {
            if has_key(t, other) {
                let i = index_of(t, other);
                if i < s.len() {
                    assert(t[i] == s[i]);
                }
            }
            if has_key(s, other) {
                let i = index_of(s, other);
                assert(t[i] == s[i]);
            }
        }
        assert forall|other: LogicalKey| other != k implies lookup(t, other) == lookup(
            s,
            other,
        ) by {
            if has_key(s, other) {
                let i = index_of(s, other);
                assert(s[i].0 == other);
                assert(t[i] == s[i]);
                lemma_index_of_unique(s, i);
                lemma_index_of_unique(t, i);
            }
        }
    }
}

/// Every entry after storing a value is the stored one or was there before,
/// and nothing that was there under another key is lost.
pub proof fn lemma_upsert_entries<V>(s: Seq<(LogicalKey, V)>, k: LogicalKey, v: V)
    ensures
        upsert(s, k, v).len() >= s.len(),
        forall|i: int|
            0 <= i < upsert(s, k, v).len() ==> (#[trigger] upsert(s, k, v)[i]) == (k, v) || (i
                < s.len() && upsert(s, k, v)[i] == s[i]),
        forall|i: int|
            0 <= i < s.len() && (#[trigger] s[i]).0 != k ==> upsert(s, k, v)[i] == s[i],
{
    if has_key(s, k) {
        let p = index_of(s, k);
        assert(0 <= p < s.len() && s[p].0 == k);
    }
}

/// As a map, storing a value is `Map::insert`.
pub proof fn lemma_to_map_upsert<V>(s: Seq<(LogicalKey, V)>, k: LogicalKey, v: V)
    requires
        distinct_keys(s),
    ensures
        to_map(upsert(s, k, v)) == to_map(s).insert(k, v),
{
    lemma_upsert(s, k, v);
    let t = upsert(s, k, v);
    assert forall|other: LogicalKey| #[trigger]
        to_map(t).dom().contains(other) <==> to_map(s).insert(k, v).dom().contains(other) by {
        assert(has_key(t, other) <==> (other == k || has_key(s, other)));
    }
    assert forall|other: LogicalKey| #[trigger] to_map(t).dom().contains(other) implies to_map(
        t,
    )[other] == to_map(s).insert(k, v)[other] by {
        assert(has_key(t, other));
        if other == k {
            assert(lookup(t, k) == Some(v));
        } else {
            assert(lookup(t, other) == lookup(s, other));
        }
    }
    assert(to_map(t) =~= to_map(s).insert(k, v));
}

/// The entries with `f` applied to each value; keys and order stay.
pub open spec fn map_entries<V, W>(s: Seq<(LogicalKey, V)>, f: spec_fn(V) -> W) -> Seq<
    (LogicalKey, W),
> {
    Seq::new(s.len(), |i: int| (s[i].0, f(s[i].1)))
}

/// Mapping the values changes neither which keys are stored nor where.
pub proof fn lemma_map_entries<V, W>(s: Seq<(LogicalKey, V)>, f: spec_fn(V) -> W)
    requires
        distinct_keys(s),
    ensures
        distinct_keys(map_entries(s, f)),
        forall|k: LogicalKey| #[trigger] has_key(map_entries(s, f), k) <==> has_key(s, k),
        forall|k: LogicalKey|
            has_key(s, k) ==> #[trigger] index_of(map_entries(s, f), k) == index_of(s, k),
        forall|k: LogicalKey|
            #[trigger] lookup(map_entries(s, f), k) == match lookup(s, k) {
                Some(v) => Some(f(v)),
                None => None,
            },
{
    let t = map_entries(s, f);
    assert forall|i: int, j: int| 0 <= i < j < t.len() implies (#[trigger] t[i]).0 != (
    #[trigger] t[j]).0 by {
        assert(s[i].0 != s[j].0);
    }
    assert forall|k: LogicalKey| #[trigger] has_key(t, k) <==> has_key(s, k) by {
        if has_key(t, k) {
            let i = index_of(t, k);
            assert(s[i].0 == k);
        }
        if has_key(s, k) {
            let i = index_of(s, k);
            assert(t[i].0 == k);
        }
    }
    assert forall|k: LogicalKey| has_key(s, k) implies #[trigger] index_of(t, k) == index_of(
        s,
        k,
    ) by {
        let i = index_of(s, k);
        assert(t[i].0 == k);
        lemma_index_of_unique(t, i);
    }
}

/// Storing a value and then mapping is mapping and then storing the mapped
/// value.
pub proof fn lemma_map_entries_upsert<V, W>(
    s: Seq<(LogicalKey, V)>,
    f: spec_fn(V) -> W,
    k: LogicalKey,
    v: V,
)
    requires
        distinct_keys(s),
    ensures
        map_entries(upsert(s, k, v), f) == upsert(map_entries(s, f), k, f(v)),
{
    lemma_map_entries(s, f);
    if has_key(s, k) {
        let p = index_of(s, k);
        assert(0 <= p < s.len() && s[p].0 == k);
    }
    assert(map_entries(upsert(s, k, v), f) =~= upsert(map_entries(s, f), k, f(v)));
}

/// A small map from logical keys to values that keeps its entries in the
/// order in which their keys were first stored.
#[derive(Debug)]
pub struct KeyMap<V> {
    entries: Vec<(LogicalKey, V)>,
}

impl<V> View for KeyMap<V> {
    type V = Seq<(LogicalKey, V)>;

    closed spec fn view(&self) -> Seq<(LogicalKey, V)> {
        self.entries@
    }
}

impl<V> KeyMap<V> {
    /// No key is stored twice.
    #[verifier::type_invariant]
    pub open spec fn inv(self) -> bool {
        distinct_keys(self@)
    }

    /// An empty map.
    pub fn new() -> (m: KeyMap<V>)
        ensures
            m@ == Seq::<(LogicalKey, V)>::empty(),
    {
        KeyMap { entries: Vec::new() }
    }

    /// The number of entries.
    pub fn len(&self) -> (n: usize)
        ensures
            n == self@.len(),
            distinct_keys(self@),
    {
        proof {
            use_type_invariant(self);
        }
        self.entries.len()
    }

    /// The key of the entry at place `i`.
    pub fn key_at(&self, i: usize) -> (k: LogicalKey)
        requires
            i < self@.len(),
        ensures
            k == self@[i as int].0,
    {
        self.entries[i].0
    }

    /// The value of the entry at place `i`.
    pub fn value_at(&self, i: usize) -> (v: &V)
        requires
            i < self@.len(),
        ensures
            *v == self@[i as int].1,
    {
        &self.entries[i].1
    }

    /// The place of the entry stored under `key`, if there is one.
    pub fn position(&self, key: &LogicalKey) -> (r: Option<usize>)
        ensures
            distinct_keys(self@),
            match r {
                Some(i) => i < self@.len() && self@[i as int].0 == *key && has_key(self@, *key)
                    && index_of(self@, *key) == i,
                None => !has_key(self@, *key),
            },
    {
        proof {
            use_type_invariant(self);
        }
        let mut i: usize = 0;
        while i < self.entries.len()
            invariant
                i <= self.entries@.len(),
                distinct_keys(self.entries@),
                forall|j: int| 0 <= j < i ==> (#[trigger] self.entries@[j]).0 != *key,
            decreases self.entries@.len() - i,
        {
            if self.entries[i].0 == *key {
                proof {
                    lemma_index_of_unique(self.entries@, i as int);
                }
                return Some(i);
            }
            i += 1;
        }
        None
    }

    /// Tells whether a value is stored under `key`.
    pub fn contains_key(&self, key: &LogicalKey) -> (b: bool)
        ensures
            b == has_key(self@, *key),
    {
        self.position(key).is_some()
    }

    /// The value stored under `key`, if any.
    pub fn get(&self, key: &LogicalKey) -> (r: Option<&V>)
        ensures
            match r {
                Some(v) => lookup(self@, *key) == Some(*v),
                None => lookup(self@, *key).is_none(),
            },
    {
        match self.position(key) {
            Some(i) => Some(&self.entries[i].1),
            None => None,
        }
    }

    /// Puts `value` in the entry at place `i`, whose key stays, and hands
    /// back the value that was there.
    pub fn set_value_at(&mut self, i: usize, value: V) -> (prev: V)
        requires
            i < old(self)@.len(),
        ensures
            final(self)@ == old(self)@.update(i as int, (old(self)@[i as int].0, value)),
            prev == old(self)@[i as int].1,
            distinct_keys(final(self)@),
    {
        proof {
            use_type_invariant(&*self);
        }
        let mut entries: Vec<(LogicalKey, V)> = Vec::new();
        core::mem::swap(&mut self.entries, &mut entries);
        let mut incoming = value;
        core::mem::swap(&mut entries[i].1, &mut incoming);
        proof {
            let before = old(self)@;
            assert forall|a: int, b: int| 0 <= a < b < entries@.len() implies (
            #[trigger] entries@[a]).0 != (#[trigger] entries@[b]).0 by {
                assert(entries@[a].0 == before[a].0);
                assert(entries@[b].0 == before[b].0);
            }
        }
        self.entries = entries;
        incoming
    }

    /// Stores `value` under a key that the map does not hold yet.
    pub fn insert_new(&mut self, key: LogicalKey, value: V)
        requires
            !has_key(old(self)@, key),
        ensures
            final(self)@ == old(self)@.push((key, value)),
            distinct_keys(final(self)@),
    {
        self.insert(key, value);
    }

    /// Stores `value` under `key` and hands back the value it replaces.
    /// A key that is new goes to the end; a known key keeps its place.
    pub fn insert(&mut self, key: LogicalKey, value: V) -> (prev: Option<V>)
        ensures
            final(self)@ == upsert(old(self)@, key, value),
            prev == lookup(old(self)@, key),
            distinct_keys(final(self)@),
    {
        proof {
            use_type_invariant(&*self);
            lemma_upsert(self@, key, value);
        }
        let found = self.position(&key);
        let mut entries: Vec<(LogicalKey, V)> = Vec::new();
        core::mem::swap(&mut self.entries, &mut entries);
        let prev = match found {
            Some(i) => {
                let mut incoming = value;
                core::mem::swap(&mut entries[i].1, &mut incoming);
                Some(incoming)
            },
            None => {
                entries.push((key, value));
                None
            },
        };
        self.entries = entries;
        prev
    }
}

impl<V: Clone> Clone for KeyMap<V> {
    /// A map with the same keys in the same order, each value cloned.
    fn clone(&self) -> (m: KeyMap<V>)
        ensures
            m@.len() == self@.len(),
            forall|i: int|
                0 <= i < self@.len() ==> (#[trigger] m@[i]).0 == self@[i].0 && cloned::<V>(
                    self@[i].1,
                    m@[i].1,
                ),
    {
        proof {
            use_type_invariant(self);
        }
        let mut entries: Vec<(LogicalKey, V)> = Vec::new();
        let mut i: usize = 0;
        while i < self.entries.len()
            invariant
                i <= self.entries@.len(),
                entries@.len() == i,
                distinct_keys(self.entries@),
                forall|j: int|
                    0 <= j < i ==> (#[trigger] entries@[j]).0 == self.entries@[j].0 && cloned::<V>(
                        self.entries@[j].1,
                        entries@[j].1,
                    ),
            decreases self.entries@.len() - i,
        {
            let value = self.entries[i].1.clone();
            entries.push((self.entries[i].0, value));
            i += 1;
        }
        assert forall|a: int, b: int| 0 <= a < b < entries@.len() implies (#[trigger] entries@[a]).0
            != (#[trigger] entries@[b]).0 by {
            assert(self.entries@[a].0 != self.entries@[b].0);
        }
        KeyMap { entries }
    }
}

} // verus!
