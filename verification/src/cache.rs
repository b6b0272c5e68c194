//! Generic bounded cache with FIFO eviction and hit/miss statistics.
//!
//! The domain-specific caches (geometry, text, axis, grid, indicator) all
//! delegate to this single implementation.
//!
//! Model: a cache is a finite map from keys to values (`entries`), the
//! sequence of its keys in insertion order (`order`, each cached key exactly
//! once, oldest first), a capacity, and two counters of lookups that hit and
//! missed. A cache of capacity `m >= 1` never holds more than `m` entries.

use vstd::prelude::*;
use vstd::laws_eq::obeys_concrete_eq;
use vstd::pervasive::cloned;
use crate::cache_keys::{AxisKey, GeometryKey, GridKey, IndicatorKey};

verus! {

/// Keys whose `==` holds exactly of equal values and whose `clone` gives
/// back an equal value. This is more than the standard library's `Eq` asks
/// (an equivalence relation); the cache's contracts speak of its keys as
/// values, so they need it.
pub open spec fn well_behaved_key<K: Clone + PartialEq>() -> bool {
    &&& obeys_concrete_eq::<K>()
    &&& forall|a: K, b: K| #[trigger] cloned(a, b) ==> a == b
}

/// The test that keeps every key other than `key`.
pub open spec fn other_than<K>(key: K) -> spec_fn(K) -> bool {
    |k: K| k != key
}

/// The map that a list of (key, value) pairs denotes: later pairs win.
pub open spec fn pairs_to_map<K, V>(s: Seq<(K, V)>) -> Map<K, V>
    decreases s.len(),
{
    if s.len() == 0 {
        Map::empty()
    } else {
        pairs_to_map(s.drop_last()).insert(s.last().0, s.last().1)
    }
}

/// No key occurs twice in a list of pairs.
pub open spec fn keys_distinct<K, V>(s: Seq<(K, V)>) -> bool {
    forall|i: int, j: int| 0 <= i < j < s.len() ==> s[i].0 != s[j].0
}

/// What remains of the insertion order after each key `o[i]` for which
/// `drop[i]` holds has been taken out.
pub open spec fn kept_keys<K>(o: Seq<K>, drop: Seq<bool>) -> Seq<K>
    decreases o.len(),
{
    if o.len() == 0 || drop.len() == 0 {
        Seq::empty()
    } else {
        let rest = kept_keys(o.drop_last(), drop.drop_last());
        if drop.last() {
            rest
        } else {
            rest.push(o.last())
        }
    }
}

/// The entries left after removing, for each `i` with `drop[i]`, the key `o[i]`.
pub open spec fn entries_without<K, V>(e: Map<K, V>, o: Seq<K>, drop: Seq<bool>) -> Map<K, V>
    decreases o.len(),
{
    if o.len() == 0 || drop.len() == 0 {
        e
    } else {
        let rest = entries_without(e, o.drop_last(), drop.drop_last());
        if drop.last() {
            rest.remove(o.last())
        } else {
            rest
        }
    }
}

proof fn lemma_entries_without<K, V>(e: Map<K, V>, o: Seq<K>, drop: Seq<bool>, k: K)
    requires
        drop.len() == o.len(),
    ensures
        entries_without(e, o, drop).contains_key(k) ==> e.contains_key(k) && entries_without(e, o, drop)[k] == e[k],
        e.contains_key(k) && (forall|i: int| 0 <= i < o.len() && o[i] == k ==> !drop[i])
            ==> entries_without(e, o, drop).contains_key(k),
        (exists|i: int| 0 <= i < o.len() && o[i] == k && drop[i]) ==> !entries_without(e, o, drop).contains_key(k),
    decreases o.len(),
{
    if o.len() > 0 {
        let o1 = o.drop_last();
        let d1 = drop.drop_last();
        lemma_entries_without(e, o1, d1, k);
        if exists|i: int| 0 <= i < o.len() && o[i] == k && drop[i] {
            let i = choose|i: int| 0 <= i < o.len() && o[i] == k && drop[i];
            if i < o.len() - 1 {
                assert(o1[i] == k && d1[i]);
            }
        }
        if e.contains_key(k) && (forall|i: int| 0 <= i < o.len() && o[i] == k ==> !drop[i]) {
            assert forall|i: int| 0 <= i < o1.len() && o1[i] == k implies !d1[i] by {
                assert(o[i] == k);
            }
        }
    }
}

proof fn lemma_kept_keys<K>(o: Seq<K>, drop: Seq<bool>)
    requires
        drop.len() == o.len(),
        o.no_duplicates(),
    ensures
        kept_keys(o, drop).no_duplicates(),
        forall|k: K| #[trigger] kept_keys(o, drop).contains(k)
            <==> exists|i: int| 0 <= i < o.len() && o[i] == k && !drop[i],
    decreases o.len(),
{
    if o.len() > 0 {
        let o1 = o.drop_last();
        let d1 = drop.drop_last();
        assert(o1.no_duplicates()) by {
            assert forall|i: int, j: int| 0 <= i < o1.len() && 0 <= j < o1.len() && i != j implies o1[i] != o1[j] by {
                assert(o1[i] == o[i] && o1[j] == o[j]);
            }
        }
        lemma_kept_keys(o1, d1);
        let r = kept_keys(o1, d1);
        let x = o.last();
        assert(!r.contains(x)) by {
            if r.contains(x) {
                let i = choose|i: int| 0 <= i < o1.len() && o1[i] == x && !d1[i];
                assert(o[i] == o[o.len() - 1]);
            }
        }
        assert forall|k: K| #[trigger] kept_keys(o, drop).contains(k)
            <==> exists|i: int| 0 <= i < o.len() && o[i] == k && !drop[i] by {
            if exists|i: int| 0 <= i < o.len() && o[i] == k && !drop[i] {
                let i = choose|i: int| 0 <= i < o.len() && o[i] == k && !drop[i];
                if i < o.len() - 1 {
                    assert(o1[i] == k && !d1[i]);
                    assert(r.contains(k));
                    let a = choose|a: int| 0 <= a < r.len() && r[a] == k;
                    if !drop.last() {
                        assert(r.push(x)[a] == k);
                    }
                } else {
                    assert(r.push(x)[r.len() as int] == k);
                }
            }
            if kept_keys(o, drop).contains(k) {
                if r.contains(k) {
                    let i = choose|i: int| 0 <= i < o1.len() && o1[i] == k && !d1[i];
                    assert(o[i] == k && !drop[i]);
                } else {
                    let a = choose|a: int| 0 <= a < kept_keys(o, drop).len() && kept_keys(o, drop)[a] == k;
                    if a < r.len() {
                        assert(r[a] == k);
                    }
                    assert(o[o.len() - 1] == k);
                }
            }
        }
        if !drop.last() {
            let g = r.push(x);
            assert forall|i: int, j: int| 0 <= i < g.len() && 0 <= j < g.len() && i != j implies g[i] != g[j] by {
                if i < r.len() && j < r.len() {
                    assert(g[i] == r[i] && g[j] == r[j]);
                } else if i < r.len() {
                    assert(g[i] == r[i]);
                    assert(r.contains(r[i]));
                } else {
                    assert(g[j] == r[j]);
                    assert(r.contains(r[j]));
                }
            }
        }
    }
}

/// Whether an `insert` on a cache in state (`e`, `o`) of capacity `max`
/// first evicts the oldest key: the cache holds `max` entries or more and
/// has a key to evict.
pub open spec fn insert_evicts<K, V>(e: Map<K, V>, o: Seq<K>, max: nat) -> bool {
    e.len() >= max && o.len() > 0
}

/// Entries after an `insert(key, value)` on a cache in state (`e`, `o`) of
/// capacity `max`: the oldest key is evicted when the cache is full, then
/// `key` gets `value`.
pub open spec fn entries_after_insert<K, V>(e: Map<K, V>, o: Seq<K>, max: nat, key: K, value: V) -> Map<K, V> {
    if insert_evicts(e, o, max) {
        e.remove(o[0]).insert(key, value)
    } else {
        e.insert(key, value)
    }
}

/// Insertion order after an `insert(key, value)` on a cache in state (`e`,
/// `o`) of capacity `max`: the oldest key leaves when the cache is full;
/// then `key` is added as the newest unless it is still cached, in which
/// case it keeps its place.
pub open spec fn order_after_insert<K, V>(e: Map<K, V>, o: Seq<K>, max: nat, key: K) -> Seq<K> {
    let (e1, o1) = if insert_evicts(e, o, max) {
        (e.remove(o[0]), o.drop_first())
    } else {
        (e, o)
    };
    if e1.contains_key(key) {
        o1
    } else {
        o1.push(key)
    }
}

/// The insertion order lists each cached key exactly once, and nothing else.
pub open spec fn order_matches_entries<K, V>(e: Map<K, V>, o: Seq<K>) -> bool {
    &&& o.no_duplicates()
    &&& forall|k: K| #[trigger] o.contains(k) <==> e.contains_key(k)
}

/// A cache of `len` entries respects capacity `max`: at most `max` entries,
/// or at most one when the capacity is 0.
pub open spec fn within_capacity(len: nat, max: nat) -> bool {
    len <= max || len <= 1
}

/// Bounded cache with FIFO eviction and hit-rate tracking.
///
/// When the cache holds `max_entries` entries, the next `insert` first
/// evicts the oldest key in insertion order, so a cache of capacity `m >= 1`
/// never holds more than `m` entries.
pub struct Cache<K, V> {
    /// The cached entries, each key once. A `Vec` searched by `==` rather
    /// than a `HashMap`: vstd specifies `HashMap` only for key types that
    /// obey its hashing model, which it grants to primitive types alone,
    /// while the caches here are keyed by structs.
    entries: Vec<(K, V)>,
    /// Insertion order for FIFO eviction.
    order: Vec<K>,
    max_entries: usize,
    hits: u64,
    misses: u64,
}

proof fn lemma_pairs_to_map<K, V>(s: Seq<(K, V)>)
    requires
        keys_distinct(s),
    ensures
        pairs_to_map(s).dom().finite(),
        pairs_to_map(s).len() == s.len(),
        forall|k: K| #[trigger] pairs_to_map(s).contains_key(k) <==> exists|i: int| 0 <= i < s.len() && s[i].0 == k,
        forall|i: int| 0 <= i < s.len() ==> #[trigger] pairs_to_map(s)[s[i].0] == s[i].1,
    decreases s.len(),
{
    if s.len() > 0 {
        let p = s.drop_last();
        assert(keys_distinct(p));
        lemma_pairs_to_map(p);
        let k = s.last().0;
        assert(!pairs_to_map(p).contains_key(k)) by {
            if pairs_to_map(p).contains_key(k) {
                let i = choose|i: int| 0 <= i < p.len() && p[i].0 == k;
                assert(s[i].0 == s[s.len() - 1].0);
            }
        }
        assert forall|k2: K| #[trigger] pairs_to_map(s).contains_key(k2) <==> exists|i: int| 0 <= i < s.len() && s[i].0 == k2 by {
            if pairs_to_map(s).contains_key(k2) && k2 != k {
                let i = choose|i: int| 0 <= i < p.len() && p[i].0 == k2;
                assert(s[i].0 == k2);
            }
            if exists|i: int| 0 <= i < s.len() && s[i].0 == k2 {
                let i = choose|i: int| 0 <= i < s.len() && s[i].0 == k2;
                if i < s.len() - 1 {
                    assert(p[i].0 == k2);
                }
            }
        }
        assert forall|i: int| 0 <= i < s.len() implies #[trigger] pairs_to_map(s)[s[i].0] == s[i].1 by {
            if i < s.len() - 1 {
                assert(p[i] == s[i]);
                assert(s[i].0 != k);
            }
        }
    }
}

proof fn lemma_pairs_remove<K, V>(s: Seq<(K, V)>, i: int)
    requires
        keys_distinct(s),
        0 <= i < s.len(),
    ensures
        keys_distinct(s.remove(i)),
        pairs_to_map(s.remove(i)) == pairs_to_map(s).remove(s[i].0),
{
    let r = s.remove(i);
    assert forall|a: int, b: int| 0 <= a < b < r.len() implies r[a].0 != r[b].0 by {
        let a2 = if a < i { a } else { a + 1 };
        let b2 = if b < i { b } else { b + 1 };
        assert(r[a] == s[a2] && r[b] == s[b2]);
    }
    lemma_pairs_to_map(s);
    lemma_pairs_to_map(r);
    let m = pairs_to_map(s).remove(s[i].0);
    assert forall|k: K| #[trigger] pairs_to_map(r).contains_key(k) <==> m.contains_key(k) by {
        if pairs_to_map(r).contains_key(k) {
            let j = choose|j: int| 0 <= j < r.len() && r[j].0 == k;
            let j2 = if j < i { j } else { j + 1 };
            assert(s[j2].0 == k);
        }
        if m.contains_key(k) {
            let j = choose|j: int| 0 <= j < s.len() && s[j].0 == k;
            assert(j != i);
            let j2 = if j < i { j } else { j - 1 };
            assert(r[j2].0 == k);
        }
    }
    assert forall|k: K| #[trigger] pairs_to_map(r).contains_key(k) implies pairs_to_map(r)[k] == m[k] by {
        let j = choose|j: int| 0 <= j < r.len() && r[j].0 == k;
        let j2 = if j < i { j } else { j + 1 };
        assert(r[j] == s[j2]);
    }
    assert(pairs_to_map(r) =~= m);
}

proof fn lemma_pairs_update<K, V>(s: Seq<(K, V)>, i: int, v: V)
    requires
        keys_distinct(s),
        0 <= i < s.len(),
    ensures
        keys_distinct(s.update(i, (s[i].0, v))),
        pairs_to_map(s.update(i, (s[i].0, v))) == pairs_to_map(s).insert(s[i].0, v),
{
    let r = s.update(i, (s[i].0, v));
    assert forall|a: int, b: int| 0 <= a < b < r.len() implies r[a].0 != r[b].0 by {
        assert(r[a].0 == s[a].0 && r[b].0 == s[b].0);
    }
    lemma_pairs_to_map(s);
    lemma_pairs_to_map(r);
    let m = pairs_to_map(s).insert(s[i].0, v);
    assert forall|k: K| #[trigger] pairs_to_map(r).contains_key(k) <==> m.contains_key(k) by {
        if pairs_to_map(r).contains_key(k) {
            let j = choose|j: int| 0 <= j < r.len() && r[j].0 == k;
            assert(s[j].0 == k);
        }
        if m.contains_key(k) {
            if k == s[i].0 {
                assert(r[i].0 == k);
            } else {
                let j = choose|j: int| 0 <= j < s.len() && s[j].0 == k;
                assert(r[j].0 == k);
            }
        }
    }
    assert forall|k: K| #[trigger] pairs_to_map(r).contains_key(k) implies pairs_to_map(r)[k] == m[k] by {
        let j = choose|j: int| 0 <= j < r.len() && r[j].0 == k;
        assert(r[j].0 == s[j].0);
    }
    assert(pairs_to_map(r) =~= m);
}

proof fn lemma_pairs_push<K, V>(s: Seq<(K, V)>, k: K, v: V)
    requires
        keys_distinct(s),
        !pairs_to_map(s).contains_key(k),
    ensures
        keys_distinct(s.push((k, v))),
        pairs_to_map(s.push((k, v))) == pairs_to_map(s).insert(k, v),
{
    lemma_pairs_to_map(s);
    let r = s.push((k, v));
    assert forall|a: int, b: int| 0 <= a < b < r.len() implies r[a].0 != r[b].0 by {
        if b == s.len() {
            assert(r[a] == s[a]);
        } else {
            assert(r[a] == s[a] && r[b] == s[b]);
        }
    }
    assert(r.drop_last() =~= s);
}

/// Index of `key` in `entries`, if it is there.
fn find_key<K: Clone + Eq + std::hash::Hash, V>(entries: &Vec<(K, V)>, key: &K) -> (r: Option<usize>)
    requires
        obeys_concrete_eq::<K>(),
    ensures
        match r {
            Some(i) => i < entries@.len() && entries@[i as int].0 == *key,
            None => forall|i: int| 0 <= i < entries@.len() ==> entries@[i].0 != *key,
        },
{
    let n = entries.len();
    let mut i: usize = 0;
    while i < n
        invariant
            n == entries@.len(),
            i <= n,
            obeys_concrete_eq::<K>(),
            forall|j: int| 0 <= j < i ==> entries@[j].0 != *key,
        decreases n - i,
    {
        proof {
            reveal(obeys_concrete_eq);
        }
        if entries[i].0 == *key {
            return Some(i);
        }
        i = i + 1;
    }
    None
}

/// Take every occurrence of `key` out of `order`.
fn remove_from_order<K: Clone + Eq + std::hash::Hash>(order: &mut Vec<K>, key: &K)
    requires
        well_behaved_key::<K>(),
    ensures
        final(order)@ == old(order)@.filter(other_than(*key)),
{
    let ghost o0 = order@;
    let ghost keep = other_than(*key);
    let mut kept: Vec<K> = Vec::new();
    let n = order.len();
    let mut j: usize = 0;
    while j < n
        invariant
            n == order@.len(),
            o0 == order@,
            j <= n,
            well_behaved_key::<K>(),
            keep == other_than(*key),
            kept@ == o0.take(j as int).filter(keep),
        decreases n - j,
    {
        proof {
            assert(o0.take(j + 1) =~= o0.take(j as int).push(o0[j as int]));
            o0.take(j as int).lemma_filter_push(o0[j as int], keep);
        }
        let is_key = order[j] == *key;
        assert(is_key == (o0[j as int] == *key)) by {
            reveal(obeys_concrete_eq);
        }
        if !is_key {
            let c = order[j].clone();
            assert(cloned(order@[j as int], c));
            kept.push(c);
        }
        j = j + 1;
    }
    proof {
        assert(o0.take(n as int) =~= o0);
    }
    *order = kept;
}

impl<K: Clone + Eq + std::hash::Hash, V> Cache<K, V> {
    /// The cached entries.
    pub closed spec fn entries(&self) -> Map<K, V> {
        pairs_to_map(self.entries@)
    }

    /// The keys in insertion order (oldest first).
    pub closed spec fn order(&self) -> Seq<K> {
        self.order@
    }

    /// The capacity the cache was made with.
    pub closed spec fn capacity(&self) -> nat {
        self.max_entries as nat
    }

    /// Lookups that found their key since creation or the last `clear`.
    pub closed spec fn hit_count(&self) -> nat {
        self.hits as nat
    }

    /// Lookups that did not find their key since creation or the last `clear`.
    pub closed spec fn miss_count(&self) -> nat {
        self.misses as nat
    }

    /// The cache's internal invariant: each key is stored once, the
    /// insertion order lists exactly the cached keys, each once, the cache is
    /// within its capacity, and keys behave as values.
    pub closed spec fn wf(&self) -> bool {
        &&& well_behaved_key::<K>()
        &&& keys_distinct(self.entries@)
        &&& order_matches_entries(pairs_to_map(self.entries@), self.order@)
        &&& within_capacity(pairs_to_map(self.entries@).len(), self.max_entries as nat)
    }

    /// Every state a cache reaches lists each cached key exactly once in its
    /// insertion order, and holds at most `capacity` entries (at most one
    /// when the capacity is 0).
    pub proof fn law_reachable_state(&self)
        requires
            self.wf(),
        ensures
            self.entries().dom().finite(),
            order_matches_entries(self.entries(), self.order()),
            within_capacity(self.entries().len(), self.capacity()),
            self.capacity() >= 1 ==> self.entries().len() <= self.capacity(),
    {
        lemma_pairs_to_map(self.entries@);
    }

    /// Create a new, empty cache with the given capacity.
    pub fn new(max_entries: usize) -> (r: Self)
        requires
            well_behaved_key::<K>(),
        ensures
            r.wf(),
            r.entries() == Map::<K, V>::empty(),
            r.order() == Seq::<K>::empty(),
            r.capacity() == max_entries,
            r.hit_count() == 0,
            r.miss_count() == 0,
    {
        let r = Cache { entries: Vec::new(), order: Vec::new(), max_entries, hits: 0, misses: 0 };
        assert(r.entries@ =~= Seq::<(K, V)>::empty());
        assert(r.order@ =~= Seq::<K>::empty());
        r
    }

    /// Look up an entry, counting the lookup as a hit or a miss.
    pub fn get(&mut self, key: &K) -> (r: Option<&V>)
        requires
            old(self).wf(),
            old(self).entries().contains_key(*key) ==> old(self).hit_count() < u64::MAX,
            !old(self).entries().contains_key(*key) ==> old(self).miss_count() < u64::MAX,
        ensures
            final(self).wf(),
            final(self).entries() == old(self).entries(),
            final(self).order() == old(self).order(),
            final(self).capacity() == old(self).capacity(),
            old(self).entries().contains_key(*key) ==> {
                &&& r == Some(&old(self).entries()[*key])
                &&& final(self).hit_count() == old(self).hit_count() + 1
                &&& final(self).miss_count() == old(self).miss_count()
            },
            !old(self).entries().contains_key(*key) ==> {
                &&& r.is_none()
                &&& final(self).hit_count() == old(self).hit_count()
                &&& final(self).miss_count() == old(self).miss_count() + 1
            },
    {
        proof {
            lemma_pairs_to_map(self.entries@);
        }
        match find_key(&self.entries, key) {
            Some(i) => {
                self.hits = self.hits + 1;
                Some(&self.entries[i].1)
            },
            None => {
                self.misses = self.misses + 1;
                None
            },
        }
    }

    /// Whether `key` is cached (no lookup is counted).
    pub fn contains_key(&self, key: &K) -> (r: bool)
        requires
            self.wf(),
        ensures
            r == self.entries().contains_key(*key),
    {
        proof {
            lemma_pairs_to_map(self.entries@);
        }
        find_key(&self.entries, key).is_some()
    }

    /// Insert an entry. When the cache already holds `capacity` entries, the
    /// oldest key in insertion order is evicted first. The key then gets the
    /// new value; a key that is still cached keeps its place in insertion
    /// order, any other becomes the newest.
    pub fn insert(&mut self, key: K, value: V)
        requires
            old(self).wf(),
        ensures
            final(self).wf(),
            final(self).entries() == entries_after_insert(
                old(self).entries(),
                old(self).order(),
                old(self).capacity(),
                key,
                value,
            ),
            final(self).order() == order_after_insert(
                old(self).entries(),
                old(self).order(),
                old(self).capacity(),
                key,
            ),
            old(self).capacity() >= 1 ==> final(self).entries().len() <= old(self).capacity(),
            final(self).capacity() == old(self).capacity(),
            final(self).hit_count() == old(self).hit_count(),
            final(self).miss_count() == old(self).miss_count(),
    {
        let ghost e0 = pairs_to_map(self.entries@);
        let ghost o0 = self.order@;
        proof {
            lemma_pairs_to_map(self.entries@);
            law_insert_stays_bounded(e0, o0, self.max_entries as nat, key, value);
        }
        if self.entries.len() >= self.max_entries && self.order.len() > 0 {
            let found = find_key(&self.entries, &self.order[0]);
            if let Some(j) = found {
                proof {
                    lemma_pairs_remove(self.entries@, j as int);
                }
                self.entries.remove(j);
            } else {
                assert(o0.contains(o0[0]));
            }
            self.order.remove(0);
        }
        assert(self.order@ == if insert_evicts(e0, o0, self.max_entries as nat) { o0.drop_first() } else { o0 });
        proof {
            lemma_pairs_to_map(self.entries@);
        }
        let stored = key.clone();
        assert(cloned(key, stored));
        match find_key(&self.entries, &key) {
            Some(i) => {
                proof {
                    lemma_pairs_update(self.entries@, i as int, value);
                }
                self.entries.set(i, (stored, value));
            },
            None => {
                proof {
                    lemma_pairs_push(self.entries@, key, value);
                }
                self.entries.push((stored, value));
                self.order.push(key);
            },
        }
        proof {
            lemma_pairs_to_map(self.entries@);
        }
    }

    /// Remove the entry for `key`, and every occurrence of `key` in the
    /// insertion order. Returns whether there was an entry.
    pub fn invalidate(&mut self, key: &K) -> (r: bool)
        requires
            old(self).wf(),
        ensures
            final(self).wf(),
            r == old(self).entries().contains_key(*key),
            r ==> final(self).entries() == old(self).entries().remove(*key),
            r ==> final(self).order() == old(self).order().filter(other_than(*key)),
            !r ==> final(self).entries() == old(self).entries(),
            !r ==> final(self).order() == old(self).order(),
            final(self).capacity() == old(self).capacity(),
            final(self).hit_count() == old(self).hit_count(),
            final(self).miss_count() == old(self).miss_count(),
    {
        proof {
            lemma_pairs_to_map(self.entries@);
        }
        match find_key(&self.entries, key) {
            None => false,
            Some(i) => {
                proof {
                    lemma_pairs_remove(self.entries@, i as int);
                }
                self.entries.remove(i);
                remove_from_order(&mut self.order, key);
                proof {
                    lemma_pairs_to_map(self.entries@);
                    law_invalidate_keeps_order(pairs_to_map(old(self).entries@), old(self).order@, *key);
                }
                true
            },
        }
    }

    /// Remove every key in the insertion order for which `pred` answers
    /// `true`, together with its entry.
    pub fn invalidate_where(&mut self, pred: impl Fn(&K) -> bool)
        requires
            old(self).wf(),
            forall|k: &K| #[trigger] pred.requires((k,)),
        ensures
            final(self).wf(),
            exists|drop: Seq<bool>|
                {
                    &&& drop.len() == old(self).order().len()
                    &&& forall|i: int|
                        0 <= i < drop.len() ==> #[trigger] pred.ensures((&old(self).order()[i],), drop[i])
                    &&& final(self).order() == kept_keys(old(self).order(), drop)
                    &&& final(self).entries() == entries_without(old(self).entries(), old(self).order(), drop)
                },
            forall|k: K| #[trigger] final(self).entries().contains_key(k)
                ==> old(self).entries().contains_key(k) && final(self).entries()[k] == old(self).entries()[k],
            forall|k: K| old(self).entries().contains_key(k) && (forall|b: bool| pred.ensures((&k,), b) ==> !b)
                ==> #[trigger] final(self).entries().contains_key(k),
            forall|k: K| old(self).entries().contains_key(k) && (forall|b: bool| pred.ensures((&k,), b) ==> b)
                ==> !#[trigger] final(self).entries().contains_key(k),
            final(self).capacity() == old(self).capacity(),
            final(self).hit_count() == old(self).hit_count(),
            final(self).miss_count() == old(self).miss_count(),
    {
        let ghost o0 = self.order@;
        let ghost e0 = pairs_to_map(self.entries@);
        let ghost mut drop: Seq<bool> = Seq::empty();
        let mut kept: Vec<K> = Vec::new();
        let n = self.order.len();
        let mut j: usize = 0;
        proof {
            lemma_pairs_to_map(self.entries@);
            assert(o0.skip(0) =~= o0);
            assert(o0.take(0) =~= Seq::<K>::empty());
        }
        while j < n
            invariant
                n == self.order@.len(),
                o0 == self.order@,
                self.max_entries == old(self).max_entries,
                self.hits == old(self).hits,
                self.misses == old(self).misses,
                j <= n,
                well_behaved_key::<K>(),
                forall|k: &K| #[trigger] pred.requires((k,)),
                keys_distinct(self.entries@),
                drop.len() == j,
                forall|i: int| 0 <= i < j ==> #[trigger] pred.ensures((&o0[i],), drop[i]),
                kept@ == kept_keys(o0.take(j as int), drop),
                pairs_to_map(self.entries@) == entries_without(e0, o0.take(j as int), drop),
                forall|k: K| #[trigger] pairs_to_map(self.entries@).contains_key(k)
                    ==> kept@.contains(k) || o0.skip(j as int).contains(k),
            decreases n - j,
        {
            let ghost oj = o0.take(j as int);
            let ghost oj1 = o0.take(j + 1);
            let ghost d0 = drop;
            let ghost kept0 = kept@;
            let ghost m0 = pairs_to_map(self.entries@);
            proof {
                lemma_pairs_to_map(self.entries@);
                assert(oj1.drop_last() =~= oj);
            }
            let d = pred(&self.order[j]);
            if d {
                let found = find_key(&self.entries, &self.order[j]);
                if let Some(i) = found {
                    proof {
                        lemma_pairs_remove(self.entries@, i as int);
                    }
                    self.entries.remove(i);
                } else {
                    assert(m0.remove(o0[j as int]) =~= m0);
                }
            } else {
                let c = self.order[j].clone();
                assert(cloned(self.order@[j as int], c));
                kept.push(c);
            }
            proof {
                drop = drop.push(d);
                assert(drop.drop_last() =~= d0);
                lemma_pairs_to_map(self.entries@);
                assert forall|k: K| #[trigger] pairs_to_map(self.entries@).contains_key(k)
                    implies kept@.contains(k) || o0.skip(j + 1).contains(k) by {
                    assert(m0.contains_key(k));
                    if kept0.contains(k) {
                        let a = choose|a: int| 0 <= a < kept0.len() && kept0[a] == k;
                        assert(kept@[a] == k);
                    } else {
                        let a = choose|a: int| 0 <= a < o0.skip(j as int).len() && o0.skip(j as int)[a] == k;
                        if a == 0 {
                            assert(!d);
                            assert(kept@[kept@.len() - 1] == k);
                        } else {
                            assert(o0.skip(j + 1)[a - 1] == k);
                        }
                    }
                }
            }
            j = j + 1;
        }
        proof {
            assert(o0.take(n as int) =~= o0);
            lemma_pairs_to_map(self.entries@);
        }
        self.order = kept;
        proof {
            assert forall|k: K| #[trigger] pairs_to_map(self.entries@).contains_key(k)
                implies e0.contains_key(k) && pairs_to_map(self.entries@)[k] == e0[k] by {
                lemma_entries_without(e0, o0, drop, k);
            }
            let e1 = pairs_to_map(self.entries@);
            lemma_kept_keys(o0, drop);
            assert forall|k: K| #[trigger] self.order@.contains(k) <==> e1.contains_key(k) by {
                lemma_entries_without(e0, o0, drop, k);
                if e0.contains_key(k) {
                    assert(o0.contains(k));
                    let i = choose|i: int| 0 <= i < o0.len() && o0[i] == k;
                    assert forall|j: int| 0 <= j < o0.len() && o0[j] == k implies j == i by {
                        if j != i {
                            assert(o0[j] != o0[i]);
                        }
                    }
                    if drop[i] {
                        assert(!e1.contains_key(k));
                    } else {
                        assert(e1.contains_key(k));
                    }
                } else {
                    assert(!o0.contains(k));
                    if self.order@.contains(k) {
                        let i = choose|i: int| 0 <= i < o0.len() && o0[i] == k && !drop[i];
                        assert(o0.contains(k));
                    }
                }
            }
            assert(e1.dom().subset_of(e0.dom()));
            vstd::set_lib::lemma_len_subset(e1.dom(), e0.dom());
            assert forall|k: K| e0.contains_key(k) && (forall|b: bool| pred.ensures((&k,), b) ==> !b)
                implies #[trigger] pairs_to_map(self.entries@).contains_key(k) by {
                lemma_entries_without(e0, o0, drop, k);
                assert forall|i: int| 0 <= i < o0.len() && o0[i] == k implies !drop[i] by {
                    assert(pred.ensures((&o0[i],), drop[i]));
                }
            }
            assert forall|k: K| e0.contains_key(k) && (forall|b: bool| pred.ensures((&k,), b) ==> b)
                implies !#[trigger] pairs_to_map(self.entries@).contains_key(k) by {
                lemma_entries_without(e0, o0, drop, k);
                assert(o0.contains(k));
                let i = choose|i: int| 0 <= i < o0.len() && o0[i] == k;
                assert(pred.ensures((&o0[i],), drop[i]));
            }
        }
    }

    /// Remove all entries and reset the statistics.
    pub fn clear(&mut self)
        requires
            old(self).wf(),
        ensures
            final(self).wf(),
            final(self).entries() == Map::<K, V>::empty(),
            final(self).order() == Seq::<K>::empty(),
            final(self).capacity() == old(self).capacity(),
            final(self).hit_count() == 0,
            final(self).miss_count() == 0,
    {
        self.entries.clear();
        self.order.clear();
        self.hits = 0;
        self.misses = 0;
        assert(self.entries@ =~= Seq::<(K, V)>::empty());
    }

    /// Lookups that hit and missed since creation or the last `clear`, in
    /// that order (the hit rate is their ratio).
    pub fn lookup_counts(&self) -> (r: (u64, u64))
        ensures
            r.0 == self.hit_count(),
            r.1 == self.miss_count(),
    {
        (self.hits, self.misses)
    }

    /// Number of entries currently cached.
    pub fn len(&self) -> (r: usize)
        requires
            self.wf(),
        ensures
            r == self.entries().len(),
    {
        proof {
            lemma_pairs_to_map(self.entries@);
        }
        self.entries.len()
    }

    /// Whether the cache holds no entry.
    pub fn is_empty(&self) -> (r: bool)
        requires
            self.wf(),
        ensures
            r == (self.entries().len() == 0),
    {
        proof {
            lemma_pairs_to_map(self.entries@);
        }
        self.entries.len() == 0
    }
}

/// Read after write: right after `insert(key, value)`, the cache holds
/// `value` under `key`, whatever it held before and whatever was evicted.
pub proof fn law_insert_then_lookup<K, V>(e: Map<K, V>, o: Seq<K>, max: nat, key: K, value: V)
    ensures
        entries_after_insert(e, o, max, key, value).contains_key(key),
        entries_after_insert(e, o, max, key, value)[key] == value,
{
}

/// FIFO eviction: inserting into a full cache evicts the oldest cached key,
/// which leaves the front of the insertion order, and leaves every other
/// entry but the inserted one alone.
pub proof fn law_insert_evicts_oldest<K, V>(e: Map<K, V>, o: Seq<K>, max: nat, key: K, value: V)
    requires
        order_matches_entries(e, o),
        e.len() >= max,
        o.len() > 0,
    ensures
        e.contains_key(o[0]),
        key != o[0] ==> !entries_after_insert(e, o, max, key, value).contains_key(o[0]),
        !e.contains_key(key) ==> order_after_insert(e, o, max, key) == o.drop_first().push(key),
        forall|k: K|
            k != o[0] && k != key && e.contains_key(k) ==> #[trigger] entries_after_insert(e, o, max, key, value).contains_key(k)
                && entries_after_insert(e, o, max, key, value)[k] == e[k],
{
    assert(o.contains(o[0]));
}

/// Below capacity nothing is evicted: the insert only adds or overwrites
/// `key`. A new key becomes the newest in insertion order; a cached key
/// keeps its place, and the set of cached keys stays the same.
pub proof fn law_insert_below_capacity<K, V>(e: Map<K, V>, o: Seq<K>, max: nat, key: K, value: V)
    requires
        order_matches_entries(e, o),
        e.len() < max,
    ensures
        entries_after_insert(e, o, max, key, value) == e.insert(key, value),
        e.contains_key(key) ==> entries_after_insert(e, o, max, key, value).dom() == e.dom(),
        e.contains_key(key) ==> order_after_insert(e, o, max, key) == o,
        !e.contains_key(key) ==> order_after_insert(e, o, max, key) == o.push(key),
{
    assert(e.contains_key(key) ==> e.insert(key, value).dom() =~= e.dom());
}

proof fn lemma_filter_no_duplicates<K>(o: Seq<K>, p: spec_fn(K) -> bool)
    requires
        o.no_duplicates(),
    ensures
        o.filter(p).no_duplicates(),
        forall|k: K| #[trigger] o.filter(p).contains(k) <==> o.contains(k) && p(k),
    decreases o.len(),
{
    reveal_with_fuel(Seq::<_>::filter, 1);
    if o.len() > 0 {
        let d = o.drop_last();
        assert(d.no_duplicates()) by {
            assert forall|i: int, j: int| 0 <= i < d.len() && 0 <= j < d.len() && i != j implies d[i] != d[j] by {
                assert(d[i] == o[i] && d[j] == o[j]);
            }
        }
        lemma_filter_no_duplicates(d, p);
        let x = o.last();
        assert(!d.contains(x)) by {
            if d.contains(x) {
                let i = choose|i: int| 0 <= i < d.len() && d[i] == x;
                assert(o[i] == o[o.len() - 1]);
            }
        }
        let f = d.filter(p);
        assert forall|k: K| #[trigger] o.filter(p).contains(k) <==> o.contains(k) && p(k) by {
            if o.contains(k) && k != x {
                let i = choose|i: int| 0 <= i < o.len() && o[i] == k;
                assert(d[i] == k);
            }
            if p(x) {
                assert(o.filter(p) == f.push(x));
                if f.push(x).contains(k) && k != x {
                    let i = choose|i: int| 0 <= i < f.push(x).len() && f.push(x)[i] == k;
                    assert(f[i] == k);
                }
                if k == x {
                    assert(f.push(x)[f.len() as int] == x);
                }
                if f.contains(k) {
                    let i = choose|i: int| 0 <= i < f.len() && f[i] == k;
                    assert(f.push(x)[i] == k);
                }
            }
            if d.contains(k) {
                let i = choose|i: int| 0 <= i < d.len() && d[i] == k;
                assert(o[i] == k);
            }
            if k == x {
                assert(o[o.len() - 1] == k);
            }
        }
        if p(x) {
            let g = f.push(x);
            assert forall|i: int, j: int| 0 <= i < g.len() && 0 <= j < g.len() && i != j implies g[i] != g[j] by {
                if i < f.len() && j < f.len() {
                    assert(g[i] == f[i] && g[j] == f[j]);
                } else if i < f.len() {
                    assert(g[i] == f[i]);
                    assert(f.contains(f[i]));
                } else {
                    assert(g[j] == f[j]);
                    assert(f.contains(f[j]));
                }
            }
        }
    }
}

/// Bounded size: in every state that a cache can reach (the insertion order
/// lists each cached key once, and the cache is within its capacity), an
/// insert of any key keeps both properties; with capacity `max >= 1` the
/// cache never holds more than `max` entries.
pub proof fn law_insert_stays_bounded<K, V>(e: Map<K, V>, o: Seq<K>, max: nat, key: K, value: V)
    requires
        e.dom().finite(),
        order_matches_entries(e, o),
        within_capacity(e.len(), max),
    ensures
        entries_after_insert(e, o, max, key, value).dom().finite(),
        order_matches_entries(
            entries_after_insert(e, o, max, key, value),
            order_after_insert(e, o, max, key),
        ),
        within_capacity(entries_after_insert(e, o, max, key, value).len(), max),
        max >= 1 ==> entries_after_insert(e, o, max, key, value).len() <= max,
{
    let e2 = entries_after_insert(e, o, max, key, value);
    let o2 = order_after_insert(e, o, max, key);
    let evict = insert_evicts(e, o, max);
    if e.len() > 0 {
        let k = e.dom().choose();
        assert(e.contains_key(k));
        assert(o.contains(k));
    }
    let e1 = if evict { e.remove(o[0]) } else { e };
    let o1 = if evict { o.drop_first() } else { o };
    assert(o1.no_duplicates()) by {
        if evict {
            assert forall|i: int, j: int| 0 <= i < o1.len() && 0 <= j < o1.len() && i != j implies o1[i] != o1[j] by {
                assert(o1[i] == o[i + 1] && o1[j] == o[j + 1]);
            }
        }
    }
    assert forall|k: K| #[trigger] o1.contains(k) <==> e1.contains_key(k) by {
        if evict {
            if o1.contains(k) {
                let i = choose|i: int| 0 <= i < o1.len() && o1[i] == k;
                assert(o[i + 1] == k);
                assert(o.contains(k));
                assert(k != o[0]);
            }
            if e1.contains_key(k) {
                assert(o.contains(k));
                let i = choose|i: int| 0 <= i < o.len() && o[i] == k;
                assert(i != 0);
                assert(o1[i - 1] == k);
            }
        }
    }
    if evict {
        assert(e.contains_key(o[0])) by {
            assert(o.contains(o[0]));
        }
        assert(e1.len() == e.len() - 1);
    } else {
        assert(e.len() < max || e.len() == 0);
    }
    assert(e2 == e1.insert(key, value));
    if e1.contains_key(key) {
        assert(o2 == o1);
        assert(e2.dom() =~= e1.dom());
    } else {
        assert(o2 == o1.push(key));
        assert(!o1.contains(key));
        assert forall|i: int, j: int| 0 <= i < o2.len() && 0 <= j < o2.len() && i != j implies o2[i] != o2[j] by {
            if i < o1.len() && j < o1.len() {
                assert(o2[i] == o1[i] && o2[j] == o1[j]);
            } else if i < o1.len() {
                assert(o2[i] == o1[i]);
                assert(o1.contains(o1[i]));
            } else {
                assert(o2[j] == o1[j]);
                assert(o1.contains(o1[j]));
            }
        }
        assert forall|k: K| #[trigger] o2.contains(k) <==> e2.contains_key(k) by {
            if o2.contains(k) && k != key {
                let i = choose|i: int| 0 <= i < o2.len() && o2[i] == k;
                assert(o1[i] == k);
                assert(o1.contains(k));
            }
            if e2.contains_key(k) {
                if k == key {
                    assert(o2[o2.len() - 1] == key);
                } else {
                    assert(o1.contains(k));
                    let i = choose|i: int| 0 <= i < o1.len() && o1[i] == k;
                    assert(o2[i] == k);
                }
            }
        }
    }
}

/// Invalidating keeps the insertion order listing each cached key once.
pub proof fn law_invalidate_keeps_order<K, V>(e: Map<K, V>, o: Seq<K>, key: K)
    requires
        e.dom().finite(),
        order_matches_entries(e, o),
    ensures
        order_matches_entries(e.remove(key), o.filter(other_than(key))),
        e.remove(key).len() <= e.len(),
{
    lemma_filter_no_duplicates(o, other_than(key));
    if e.contains_key(key) {
        assert(e.remove(key).len() == e.len() - 1);
    } else {
        assert(e.remove(key) =~= e);
    }
}

/// Invalidating a key that a fresh insert added below capacity gives back
/// the entries from before the insert.
pub proof fn law_invalidate_undoes_fresh_insert<K, V>(e: Map<K, V>, o: Seq<K>, max: nat, key: K, value: V)
    requires
        e.len() < max,
        !e.contains_key(key),
    ensures
        entries_after_insert(e, o, max, key, value).remove(key) == e,
{
    assert(e.insert(key, value).remove(key) =~= e);
}

/// The keys made of integer fields alone compare by value and clone to
/// equal values, so they can key a [`Cache`].
pub proof fn lemma_integer_keys_well_behaved()
    ensures
        well_behaved_key::<AxisKey>(),
        well_behaved_key::<GeometryKey>(),
        well_behaved_key::<GridKey>(),
        well_behaved_key::<IndicatorKey>(),
{
    reveal(obeys_concrete_eq);
}

} // verus!
