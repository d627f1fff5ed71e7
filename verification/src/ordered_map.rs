//! An ordered map, kept as a vector of entries sorted by key.
//!
//! The keys of the MSL override tables are records of integers ordered
//! field by field; each key type gives its position in that order as a
//! natural number (its rank), and the map keeps its entries in strictly
//! increasing rank order, so that walking the entries visits the keys in
//! ascending order, each once.
use vstd::prelude::*;

verus! {

/// A key type whose values are totally ordered by a rank that identifies
/// them.
pub trait OrderedKey: Sized {
    /// The position of the key in the order.
    spec fn rank(&self) -> nat;

    /// Computes the rank of the key.
    fn rank_of(&self) -> (r: u128)
        ensures
            r == self.rank(),
    ;

    /// A copy of the key.
    fn copy_key(&self) -> (r: Self)
        ensures
            r == *self,
    ;

    /// Two keys of the same rank are the same key.
    proof fn lemma_rank_determines_key(a: Self, b: Self)
        requires
            a.rank() == b.rank(),
        ensures
            a == b,
    ;
}

/// The entries are in strictly increasing rank order.
pub open spec fn sorted_by_rank<K: OrderedKey, V>(s: Seq<(K, V)>) -> bool {
    forall|i: int, j: int| 0 <= i < j < s.len() ==> #[trigger] s[i].0.rank() < #[trigger] s[j].0.rank()
}

/// Some entry of `s` has key `k`.
pub open spec fn has_key<K, V>(s: Seq<(K, V)>, k: K) -> bool {
    exists|i: int| 0 <= i < s.len() && #[trigger] s[i].0 == k
}

/// The map that a list of entries stands for: each key of the list maps to
/// the value of an entry with that key.
pub open spec fn entries_to_map<K, V>(s: Seq<(K, V)>) -> Map<K, V> {
    Map::new(
        |k: K| has_key(s, k),
        |k: K| s[choose|i: int| 0 <= i < s.len() && #[trigger] s[i].0 == k].1,
    )
}

/// In a sorted list, the entry at `j` is the one that the map reads for its key.
pub proof fn lemma_entry_in_map<K: OrderedKey, V>(s: Seq<(K, V)>, j: int)
    requires
        sorted_by_rank(s),
        0 <= j < s.len(),
    ensures
        entries_to_map(s).contains_key(s[j].0),
        entries_to_map(s)[s[j].0] == s[j].1,
{
    let k = s[j].0;
    assert(has_key(s, k));
    let c = choose|i: int| 0 <= i < s.len() && #[trigger] s[i].0 == k;
    assert(0 <= c < s.len() && s[c].0 == k);
    if c < j {
        assert(s[c].0.rank() < s[j].0.rank());
    } else if c > j {
        assert(s[j].0.rank() < s[c].0.rank());
    }
}

/// Replacing the value of the entry at `i` keeps the list sorted and maps
/// its key to the new value.
pub proof fn lemma_replace_entry<K: OrderedKey, V>(s: Seq<(K, V)>, i: int, v: V)
    requires
        sorted_by_rank(s),
        0 <= i < s.len(),
    ensures
        sorted_by_rank(s.update(i, (s[i].0, v))),
        entries_to_map(s.update(i, (s[i].0, v))) == entries_to_map(s).insert(s[i].0, v),
{
    let k = s[i].0;
    let s2 = s.update(i, (k, v));
    assert(sorted_by_rank(s2)) by {
        assert forall|a: int, b: int| 0 <= a < b < s2.len() implies #[trigger] s2[a].0.rank()
            < #[trigger] s2[b].0.rank() by {
            assert(s2[a].0 == s[a].0);
            assert(s2[b].0 == s[b].0);
            assert(s[a].0.rank() < s[b].0.rank());
        }
    }
    let m = entries_to_map(s).insert(k, v);
    let m2 = entries_to_map(s2);
    assert forall|k2: K| #[trigger] m2.contains_key(k2) <==> m.contains_key(k2) by {
        if m2.contains_key(k2) {
            let j = choose|j: int| 0 <= j < s2.len() && #[trigger] s2[j].0 == k2;
            assert(s[j].0 == k2);
        }
        if m.contains_key(k2) && k2 != k {
            let j = choose|j: int| 0 <= j < s.len() && #[trigger] s[j].0 == k2;
            assert(s2[j].0 == k2);
        }
        if k2 == k {
            assert(s2[i].0 == k2);
        }
    }
    assert forall|k2: K| #[trigger] m2.contains_key(k2) implies m2[k2] == m[k2] by {
        let j = choose|j: int| 0 <= j < s2.len() && #[trigger] s2[j].0 == k2;
        lemma_entry_in_map(s2, j);
        if j != i {
            lemma_entry_in_map(s, j);
            assert(s2[j] == s[j]);
            if j < i {
                assert(s[j].0.rank() < s[i].0.rank());
            } else {
                assert(s[i].0.rank() < s[j].0.rank());
            }
            assert(k2 != k);
        } else {
            assert(s2[i] == (k, v));
        }
    }
    assert(m2 =~= m);
}

/// Inserting an entry at `i`, where every key before `i` ranks below `k` and
/// every key from `i` on ranks above it, keeps the list sorted and adds `k`
/// to the map.
pub proof fn lemma_insert_entry<K: OrderedKey, V>(s: Seq<(K, V)>, i: int, k: K, v: V)
    requires
        sorted_by_rank(s),
        0 <= i <= s.len(),
        forall|j: int| 0 <= j < i ==> #[trigger] s[j].0.rank() < k.rank(),
        i < s.len() ==> k.rank() < s[i].0.rank(),
    ensures
        sorted_by_rank(s.insert(i, (k, v))),
        !entries_to_map(s).contains_key(k),
        entries_to_map(s.insert(i, (k, v))) == entries_to_map(s).insert(k, v),
{
    let s2 = s.insert(i, (k, v));
    assert forall|j: int| i <= j < s.len() implies k.rank() < #[trigger] s[j].0.rank() by {
        if j > i {
            assert(s[i].0.rank() < s[j].0.rank());
        }
    }
    assert(sorted_by_rank(s2)) by {
        assert forall|a: int, b: int| 0 <= a < b < s2.len() implies #[trigger] s2[a].0.rank()
            < #[trigger] s2[b].0.rank() by {
            if a < i && b < i {
                assert(s[a].0.rank() < s[b].0.rank());
            } else if a < i && b == i {
            } else if a < i {
                assert(s2[b] == s[b - 1]);
                assert(s[a].0.rank() < s[b - 1].0.rank());
            } else if a == i {
                assert(s2[b] == s[b - 1]);
            } else {
                assert(s2[a] == s[a - 1]);
                assert(s2[b] == s[b - 1]);
                assert(s[a - 1].0.rank() < s[b - 1].0.rank());
            }
        }
    }
    assert(!entries_to_map(s).contains_key(k)) by {
        if has_key(s, k) {
            let j = choose|j: int| 0 <= j < s.len() && #[trigger] s[j].0 == k;
            if j < i {
                assert(s[j].0.rank() < k.rank());
            } else {
                assert(k.rank() < s[j].0.rank());
            }
        }
    }
    let m = entries_to_map(s).insert(k, v);
    let m2 = entries_to_map(s2);
    assert forall|k2: K| #[trigger] m2.contains_key(k2) <==> m.contains_key(k2) by {
        if m2.contains_key(k2) {
            let j = choose|j: int| 0 <= j < s2.len() && #[trigger] s2[j].0 == k2;
            if j < i {
                assert(s[j].0 == k2);
            } else if j > i {
                assert(s[j - 1].0 == k2);
            }
        }
        if m.contains_key(k2) && k2 != k {
            let j = choose|j: int| 0 <= j < s.len() && #[trigger] s[j].0 == k2;
            if j < i {
                assert(s2[j].0 == k2);
            } else {
                assert(s2[j + 1].0 == k2);
            }
        }
        if k2 == k {
            assert(s2[i].0 == k2);
        }
    }
    assert forall|k2: K| #[trigger] m2.contains_key(k2) implies m2[k2] == m[k2] by {
        let j = choose|j: int| 0 <= j < s2.len() && #[trigger] s2[j].0 == k2;
        lemma_entry_in_map(s2, j);
        if j < i {
            lemma_entry_in_map(s, j);
        } else if j > i {
            lemma_entry_in_map(s, j - 1);
        }
    }
    assert(m2 =~= m);
}

/// Removing the entry at `i` keeps the list sorted and drops its key from
/// the map.
pub proof fn lemma_remove_entry<K: OrderedKey, V>(s: Seq<(K, V)>, i: int)
    requires
        sorted_by_rank(s),
        0 <= i < s.len(),
    ensures
        sorted_by_rank(s.remove(i)),
        entries_to_map(s.remove(i)) == entries_to_map(s).remove(s[i].0),
{
    let k = s[i].0;
    let s2 = s.remove(i);
    assert(sorted_by_rank(s2)) by {
        assert forall|a: int, b: int| 0 <= a < b < s2.len() implies #[trigger] s2[a].0.rank()
            < #[trigger] s2[b].0.rank() by {
            let a0 = if a < i { a } else { a + 1 };
            let b0 = if b < i { b } else { b + 1 };
            assert(s2[a] == s[a0]);
            assert(s2[b] == s[b0]);
            assert(s[a0].0.rank() < s[b0].0.rank());
        }
    }
    let m = entries_to_map(s).remove(k);
    let m2 = entries_to_map(s2);
    assert forall|k2: K| #[trigger] m2.contains_key(k2) <==> m.contains_key(k2) by {
        if m2.contains_key(k2) {
            let j = choose|j: int| 0 <= j < s2.len() && #[trigger] s2[j].0 == k2;
            let j0 = if j < i { j } else { j + 1 };
            assert(s[j0].0 == k2);
            if j0 < i {
                assert(s[j0].0.rank() < s[i].0.rank());
            } else {
                assert(s[i].0.rank() < s[j0].0.rank());
            }
        }
        if m.contains_key(k2) {
            let j = choose|j: int| 0 <= j < s.len() && #[trigger] s[j].0 == k2;
            assert(j != i);
            if j < i {
                assert(s2[j].0 == k2);
            } else {
                assert(s2[j - 1].0 == k2);
            }
        }
    }
    assert forall|k2: K| #[trigger] m2.contains_key(k2) implies m2[k2] == m[k2] by {
        let j = choose|j: int| 0 <= j < s2.len() && #[trigger] s2[j].0 == k2;
        lemma_entry_in_map(s2, j);
        let j0 = if j < i { j } else { j + 1 };
        assert(s2[j] == s[j0]);
        lemma_entry_in_map(s, j0);
    }
    assert(m2 =~= m);
}

/// A sorted list has as many entries as its map has keys.
pub proof fn lemma_entry_count<K: OrderedKey, V>(s: Seq<(K, V)>)
    requires
        sorted_by_rank(s),
    ensures
        entries_to_map(s).dom().len() == s.len(),
        entries_to_map(s).dom().finite(),
{
    let keys = s.map_values(|e: (K, V)| e.0);
    assert(keys.no_duplicates()) by {
        assert forall|a: int, b: int| 0 <= a < keys.len() && 0 <= b < keys.len() && a != b
            implies keys[a] != keys[b] by {
            if a < b {
                assert(s[a].0.rank() < s[b].0.rank());
            } else {
                assert(s[b].0.rank() < s[a].0.rank());
            }
        }
    }
    assert(entries_to_map(s).dom() =~= keys.to_set()) by {
        assert forall|k: K| entries_to_map(s).dom().contains(k) <==> keys.to_set().contains(k) by {
            if entries_to_map(s).dom().contains(k) {
                let j = choose|j: int| 0 <= j < s.len() && #[trigger] s[j].0 == k;
                assert(keys[j] == k);
            }
            if keys.to_set().contains(k) {
                let j = choose|j: int| 0 <= j < keys.len() && keys[j] == k;
                assert(s[j].0 == k);
            }
        }
    }
    keys.unique_seq_to_set();
    vstd::seq_lib::seq_to_set_is_finite(keys);
}

/// A map from ordered keys to values, walked in ascending key order.
#[derive(Debug, Hash, PartialEq, Eq)]
pub struct OrderedMap<K: OrderedKey, V> {
    entries: Vec<(K, V)>,
}

impl<K: OrderedKey, V> View for OrderedMap<K, V> {
    type V = Map<K, V>;

    closed spec fn view(&self) -> Map<K, V> {
        entries_to_map(self.entries@)
    }
}

impl<K: OrderedKey, V> OrderedMap<K, V> {
    #[verifier::type_invariant]
    closed spec fn is_sorted(self) -> bool {
        sorted_by_rank(self.entries@)
    }

    /// The entries of the map, in ascending key order.
    pub closed spec fn entry_seq(&self) -> Seq<(K, V)> {
        self.entries@
    }

    /// The view is the map that the entry list stands for.
    pub proof fn lemma_view_is_entries(&self)
        ensures
            self@ == entries_to_map(self.entry_seq()),
    {
    }

    /// Creates an empty map.
    pub fn new() -> (m: Self)
        ensures
            m@ == Map::<K, V>::empty(),
            m.entry_seq() == Seq::<(K, V)>::empty(),
    {
        let m = OrderedMap { entries: Vec::new() };
        assert(m@ =~= Map::<K, V>::empty());
        m
    }

    /// Whether the map has no entry.
    pub fn is_empty(&self) -> (r: bool)
        ensures
            r == (self@ == Map::<K, V>::empty()),
            r == (self.entry_seq().len() == 0),
    {
        proof {
            use_type_invariant(self);
            if self.entries@.len() > 0 {
                lemma_entry_in_map(self.entries@, 0);
            } else {
                assert(self@ =~= Map::<K, V>::empty());
            }
        }
        self.entries.len() == 0
    }

    /// The value of `key`, if the map has the key.
    pub fn get(&self, key: &K) -> (r: Option<&V>)
        ensures
            r is Some <==> self@.contains_key(*key),
            r matches Some(v) ==> *v == self@[*key],
    {
        proof {
            use_type_invariant(self);
        }
        let target = key.rank_of();
        let n = self.entries.len();
        let mut i: usize = 0;
        while i < n
            invariant
                n == self.entries@.len(),
                i <= n,
                sorted_by_rank(self.entries@),
                target == key.rank(),
                forall|j: int| 0 <= j < i ==> #[trigger] self.entries@[j].0.rank() < key.rank(),
            decreases n - i,
        {
            let r = self.entries[i].0.rank_of();
            if r == target {
                proof {
                    K::lemma_rank_determines_key(self.entries@[i as int].0, *key);
                    lemma_entry_in_map(self.entries@, i as int);
                }
                return Some(&self.entries[i].1);
            } else if r > target {
                proof {
                    assert forall|j: int| 0 <= j < n implies #[trigger] self.entries@[j].0 != *key by {
                        if j > i {
                            assert(self.entries@[i as int].0.rank() < self.entries@[j].0.rank());
                        }
                    }
                }
                return None;
            }
            i += 1;
        }
        proof {
            assert forall|j: int| 0 <= j < n implies #[trigger] self.entries@[j].0 != *key by {
                assert(self.entries@[j].0.rank() < key.rank());
            }
        }
        None
    }

    /// Maps `key` to `value`, and returns the value the key had before, if any.
    /// The entries stay in ascending key order.
    pub fn insert(&mut self, key: K, value: V) -> (r: Option<V>)
        ensures
            final(self)@ == old(self)@.insert(key, value),
            r is Some <==> old(self)@.contains_key(key),
            r matches Some(v) ==> v == old(self)@[key],
    {
        proof {
            use_type_invariant(&*self);
        }
        let mut entries: Vec<(K, V)> = Vec::new();
        std::mem::swap(&mut entries, &mut self.entries);
        let ghost s = entries@;
        assert(s == old(self).entries@);
        let target = key.rank_of();
        let n = entries.len();
        let mut i: usize = 0;
        while i < n
            invariant
                n == entries@.len(),
                entries@ == s,
                old(self)@ == entries_to_map(s),
                i <= n,
                sorted_by_rank(s),
                target == key.rank(),
                forall|j: int| 0 <= j < i ==> #[trigger] s[j].0.rank() < key.rank(),
            decreases n - i,
        {
            let r = entries[i].0.rank_of();
            if r == target {
                proof {
                    K::lemma_rank_determines_key(s[i as int].0, key);
                    lemma_entry_in_map(s, i as int);
                    lemma_replace_entry(s, i as int, value);
                }
                let (_old_key, old_value) = entries.remove(i);
                entries.insert(i, (key, value));
                assert(entries@ =~= s.update(i as int, (key, value)));
                self.entries = entries;
                return Some(old_value);
            } else if r > target {
                proof {
                    lemma_insert_entry(s, i as int, key, value);
                }
                entries.insert(i, (key, value));
                self.entries = entries;
                return None;
            }
            i += 1;
        }
        proof {
            lemma_insert_entry(s, n as int, key, value);
        }
        entries.push((key, value));
        assert(entries@ =~= s.insert(n as int, (key, value)));
        self.entries = entries;
        None
    }

    /// The number of entries, that is, of keys in the map.
    pub fn len(&self) -> (r: usize)
        ensures
            r == self@.dom().len(),
            r == self.entry_seq().len(),
    {
        proof {
            use_type_invariant(self);
            lemma_entry_count(self.entries@);
        }
        self.entries.len()
    }

    /// Removes `key`, and returns the value it had, if any. The other entries
    /// stay in ascending key order.
    pub fn remove(&mut self, key: &K) -> (r: Option<V>)
        ensures
            final(self)@ == old(self)@.remove(*key),
            r is Some <==> old(self)@.contains_key(*key),
            r matches Some(v) ==> v == old(self)@[*key],
    {
        proof {
            use_type_invariant(&*self);
        }
        let mut entries: Vec<(K, V)> = Vec::new();
        std::mem::swap(&mut entries, &mut self.entries);
        let ghost s = entries@;
        let target = key.rank_of();
        let n = entries.len();
        let mut i: usize = 0;
        while i < n
            invariant
                n == entries@.len(),
                entries@ == s,
                old(self)@ == entries_to_map(s),
                i <= n,
                sorted_by_rank(s),
                target == key.rank(),
                forall|j: int| 0 <= j < i ==> #[trigger] s[j].0.rank() < key.rank(),
            decreases n - i,
        {
            let r = entries[i].0.rank_of();
            if r == target {
                proof {
                    K::lemma_rank_determines_key(s[i as int].0, *key);
                    lemma_entry_in_map(s, i as int);
                    lemma_remove_entry(s, i as int);
                }
                let (_old_key, old_value) = entries.remove(i);
                self.entries = entries;
                return Some(old_value);
            } else if r > target {
                proof {
                    assert forall|j: int| 0 <= j < n implies #[trigger] s[j].0 != *key by {
                        if j > i {
                            assert(s[i as int].0.rank() < s[j].0.rank());
                        }
                    }
                    assert(entries_to_map(s).remove(*key) =~= entries_to_map(s));
                }
                self.entries = entries;
                return None;
            }
            i += 1;
        }
        proof {
            assert forall|j: int| 0 <= j < n implies #[trigger] s[j].0 != *key by {
                assert(s[j].0.rank() < key.rank());
            }
            assert(entries_to_map(s).remove(*key) =~= entries_to_map(s));
        }
        self.entries = entries;
        None
    }

    /// The entries of the map, in strictly ascending key order; they list
    /// exactly the map's keys, each with its value.
    pub fn entries(&self) -> (r: &Vec<(K, V)>)
        ensures
            r@ == self.entry_seq(),
            sorted_by_rank(r@),
            entries_to_map(r@) == self@,
    {
        proof {
            use_type_invariant(self);
        }
        &self.entries
    }
}

impl<K: OrderedKey, V: Clone> Clone for OrderedMap<K, V> {
    /// Copies the map: the same keys in the same order, each value cloned.
    fn clone(&self) -> (r: Self)
        ensures
            r.entry_seq().len() == self.entry_seq().len(),
            forall|i: int|
                0 <= i < self.entry_seq().len() ==> #[trigger] r.entry_seq()[i].0
                    == self.entry_seq()[i].0,
            forall|i: int|
                0 <= i < self.entry_seq().len() ==> vstd::pervasive::cloned::<V>(
                    self.entry_seq()[i].1,
                    #[trigger] r.entry_seq()[i].1,
                ),
    {
        proof {
            use_type_invariant(self);
        }
        let mut entries: Vec<(K, V)> = Vec::new();
        let n = self.entries.len();
        let mut i: usize = 0;
        while i < n
            invariant
                n == self.entries@.len(),
                i <= n,
                entries@.len() == i,
                sorted_by_rank(self.entries@),
                forall|j: int| 0 <= j < i ==> #[trigger] entries@[j].0 == self.entries@[j].0,
                forall|j: int|
                    0 <= j < i ==> vstd::pervasive::cloned::<V>(
                        self.entries@[j].1,
                        #[trigger] entries@[j].1,
                    ),
            decreases n - i,
        {
            let key = self.entries[i].0.copy_key();
            let value = self.entries[i].1.clone();
            entries.push((key, value));
            i += 1;
        }
        assert(sorted_by_rank(entries@)) by {
            assert forall|a: int, b: int| 0 <= a < b < entries@.len() implies
                #[trigger] entries@[a].0.rank() < #[trigger] entries@[b].0.rank() by {
                assert(entries@[a].0 == self.entries@[a].0);
                assert(entries@[b].0 == self.entries@[b].0);
            }
        }
        OrderedMap { entries }
    }
}

/// Reading after a write: once `insert(k, v)` has turned `before` into
/// `after`, `get(k)` on `after` gives `v`, and `get` of every other key gives
/// on `after` what it gave on `before`.
pub proof fn lemma_get_after_insert<K: OrderedKey, V>(
    before: OrderedMap<K, V>,
    after: OrderedMap<K, V>,
    k: K,
    v: V,
    other: K,
)
    requires
        after@ == before@.insert(k, v),
    ensures
        after@.contains_key(k),
        after@[k] == v,
        other != k ==> (after@.contains_key(other) <==> before@.contains_key(other)),
        other != k && before@.contains_key(other) ==> after@[other] == before@[other],
{
}

} // verus!
