//! A small associative cache of shared, read-only values.
//!
//! Each entry carries the count of the operation that last touched it.
//! When the cache grows beyond its limit, the entry with the smallest
//! count leaves.

use std::collections::HashMap;
use std::hash::Hash;
use std::sync::Arc;
use vstd::prelude::*;
use vstd::rwlock::RwLock;
use vstd::std_specs::hash::*;
use vstd::std_specs::iter::IteratorSpec;

verus! {

broadcast use vstd::std_specs::hash::group_hash_axioms;

/// An entry of the cache: a shared value and the count of its last use.
pub struct SimpleCacheEntry<V: Send + Sync> {
    value: Arc<V>,
    counter: u64,
}

impl<V: Send + Sync> View for SimpleCacheEntry<V> {
    type V = (Arc<V>, u64);

    /// The value and the count.
    closed spec fn view(&self) -> (Arc<V>, u64) {
        (self.value, self.counter)
    }
}

impl<V: Send + Sync> SimpleCacheEntry<V> {
    /// Creates an entry that shares `value`.
    pub fn new(value: &Arc<V>, counter: u64) -> (e: Self)
        ensures
            e@ == (*value, counter),
    {
        Self { value: Arc::clone(value), counter }
    }

    /// Returns a new handle to the value.
    pub fn get_value(&self) -> (v: Arc<V>)
        ensures
            v == self@.0,
    {
        Arc::clone(&self.value)
    }

    /// Returns the count of the last use. The entry with the smallest count
    /// is the oldest of a cache.
    pub fn counter(&self) -> (c: u64)
        ensures
            c == self@.1,
    {
        self.counter
    }

    /// Sets the count of the last use.
    pub fn set_counter(&mut self, counter: u64)
        ensures
            final(self)@ == (old(self)@.0, counter),
    {
        self.counter = counter
    }
}

/// What a map of entries holds: each key with the value and the count of
/// its entry.
pub open spec fn entry_views<K, V: Send + Sync>(m: Map<K, SimpleCacheEntry<V>>) -> Map<
    K,
    (Arc<V>, u64),
> {
    m.map_values(|e: SimpleCacheEntry<V>| e@)
}

/// `k` is a key of `m` whose count is below `u64::MAX`, and no key of `m`
/// has a smaller count.
pub open spec fn is_oldest<K, V>(m: Map<K, (Arc<V>, u64)>, k: K) -> bool {
    &&& m.contains_key(k)
    &&& m[k].1 < u64::MAX
    &&& forall|j: K| #[trigger] m.contains_key(j) ==> m[k].1 <= m[j].1
}

/// `after` is `before` without one of its oldest entries, or `before`
/// itself where it has none.
pub open spec fn oldest_removed<K, V>(
    before: Map<K, (Arc<V>, u64)>,
    after: Map<K, (Arc<V>, u64)>,
) -> bool {
    if exists|k: K| is_oldest(before, k) {
        exists|k: K| is_oldest(before, k) && after == before.remove(k)
    } else {
        after == before
    }
}

/// Every count of `m` is below `next`, and no two keys of `m` share a
/// count: the counts put the entries in the order of their last use.
pub open spec fn counts_in_order<K, V>(m: Map<K, (Arc<V>, u64)>, next: u64) -> bool {
    &&& forall|j: K| #[trigger] m.contains_key(j) ==> m[j].1 < next
    &&& forall|j: K, k: K|
        #[trigger] m.contains_key(j) && #[trigger] m.contains_key(k) && j != k ==> m[j].1
            != m[k].1
}

/// Where the counts are in order, at most one entry is the oldest: which
/// entry leaves is then determined.
pub proof fn lemma_oldest_is_unique<K, V>(m: Map<K, (Arc<V>, u64)>, next: u64, j: K, k: K)
    requires
        counts_in_order(m, next),
        is_oldest(m, j),
        is_oldest(m, k),
    ensures
        j == k,
{
}

/// A map that has an entry, and no entry with the count `u64::MAX`, has an
/// oldest entry.
pub proof fn lemma_oldest_exists<K, V>(m: Map<K, (Arc<V>, u64)>)
    requires
        m.dom().finite(),
        m.len() > 0,
        forall|j: K| #[trigger] m.contains_key(j) ==> m[j].1 < u64::MAX,
    ensures
        exists|k: K| is_oldest(m, k),
    decreases m.len(),
{
    let first = m.dom().choose();
    let rest = m.remove(first);
    if rest.len() == 0 {
        assert forall|j: K| #[trigger] m.contains_key(j) implies j == first by {
            if j != first {
                assert(rest.contains_key(j));
                rest.dom().lemma_len0_is_empty();
            }
        }
        assert(is_oldest(m, first));
    } else {
        lemma_oldest_exists(rest);
        let other = choose|k: K| is_oldest(rest, k);
        if m[first].1 <= m[other].1 {
            assert forall|j: K| #[trigger] m.contains_key(j) implies m[first].1 <= m[j].1 by {
                if j != first {
                    assert(rest.contains_key(j));
                }
            }
            assert(is_oldest(m, first));
        } else {
            assert forall|j: K| #[trigger] m.contains_key(j) implies m[other].1 <= m[j].1 by {
                if j != first {
                    assert(rest.contains_key(j));
                }
            }
            assert(is_oldest(m, other));
        }
    }
}

/// The count that follows `c`: after `u64::MAX` comes 0.
pub open spec fn next_count(c: u64) -> u64 {
    if c == u64::MAX {
        0
    } else {
        (c + 1) as u64
    }
}

/// A cache of shared, read-only values that many threads may use at once.
/// What a call finds depends on what other threads have done, so nothing is
/// promised of it here.
pub trait ValueCache<K: Eq + Hash + Copy + Sync, V: Send + Sync>: Send {
    /// Returns the value of `key`, if the cache holds one.
    fn get(&self, key: &K) -> Option<Arc<V>>
        requires
            obeys_key_model::<K>(),
    ;

    /// Stores `value` under `key`, in place of what was there.
    fn insert(&self, key: K, value: &Arc<V>)
        requires
            obeys_key_model::<K>(),
    ;

    /// Removes all entries.
    fn clear(&self)
    ;

    /// Returns the number of entries.
    fn len(&self) -> usize
        requires
            obeys_key_model::<K>(),
    ;

    /// Returns true if there is no entry.
    fn is_empty(&self) -> bool
        requires
            obeys_key_model::<K>(),
    ;
}

/// What every engine of a cache offers. How entries are chosen to leave is
/// up to the engine.
pub trait CacheEngine<K: Eq + Hash + Copy + Sync, V: Send + Sync>: Sync {
    /// The values that the engine holds, by key.
    spec fn values(&self) -> Map<K, Arc<V>>;

    /// Returns the value of `key`, if the engine holds one.
    fn get(&mut self, key: &K) -> (v: Option<Arc<V>>)
        requires
            obeys_key_model::<K>(),
        ensures
            final(self).values() == old(self).values(),
            v == if old(self).values().contains_key(*key) {
                Some(old(self).values()[*key])
            } else {
                None
            },
    ;

    /// Stores `value` under `key`, in place of what was there. Entries may
    /// leave to make room, the new one among them.
    fn insert(&mut self, key: K, value: &Arc<V>)
        requires
            obeys_key_model::<K>(),
        ensures
            final(self).values().submap_of(old(self).values().insert(key, *value)),
    ;

    /// Removes all entries.
    fn clear(&mut self)
        ensures
            final(self).values() == Map::<K, Arc<V>>::empty(),
    ;

    /// Returns the number of entries.
    fn len(&self) -> (n: usize)
        requires
            obeys_key_model::<K>(),
        ensures
            n == self.values().len(),
    ;

    /// Returns true if there is no entry.
    fn is_empty(&self) -> (b: bool)
        requires
            obeys_key_model::<K>(),
        ensures
            b == (self.values().len() == 0),
    ;
}

/// The engine of [`SimpleCache`]: a map of entries, the limit on their
/// number, and the count of the operations so far. It is not synchronised.
pub struct SimpleCacheEngine<K: Eq + Hash + Copy + Send + Sync, V: Send + Sync> {
    map: HashMap<K, SimpleCacheEntry<V>>,
    max_size: usize,
    counter: u64,
}

impl<K: Eq + Hash + Copy + Send + Sync, V: Send + Sync> SimpleCacheEngine<K, V> {
    /// The entries: each key with its value and the count of its last use.
    pub closed spec fn entries(&self) -> Map<K, (Arc<V>, u64)> {
        entry_views(self.map@)
    }

    /// The number of entries that the cache keeps at most.
    pub closed spec fn spec_max_size(&self) -> usize {
        self.max_size
    }

    /// The count that the next operation gets.
    pub closed spec fn spec_counter(&self) -> u64 {
        self.counter
    }

    /// The counts of the entries are in order, and the next count has not
    /// reached the end of its range. An engine is so from its creation and
    /// for its next `u64::MAX` operations, as long as its entries are
    /// written by its own methods only.
    pub open spec fn in_order(&self) -> bool {
        self.spec_counter() < u64::MAX && counts_in_order(self.entries(), self.spec_counter())
    }

    /// Creates an empty engine that keeps at most `max_size` entries.
    pub fn new(max_size: usize) -> (e: Self)
        ensures
            e.entries() == Map::<K, (Arc<V>, u64)>::empty(),
            e.spec_max_size() == max_size,
            e.spec_counter() == 0,
            e.in_order(),
    {
        let e = Self { map: HashMap::new(), max_size, counter: 0 };
        assert(e.entries() =~= Map::<K, (Arc<V>, u64)>::empty());
        e
    }

    /// Returns the entries.
    pub fn map(&self) -> (m: &HashMap<K, SimpleCacheEntry<V>>)
        ensures
            entry_views(m@) == self.entries(),
    {
        &self.map
    }

    /// Returns the entries for writing.
    pub fn mut_map(&mut self) -> (m: &mut HashMap<K, SimpleCacheEntry<V>>)
        ensures
            entry_views(m@) == old(self).entries(),
            final(self).entries() == entry_views(final(m)@),
            final(self).spec_max_size() == old(self).spec_max_size(),
            final(self).spec_counter() == old(self).spec_counter(),
    {
        &mut self.map
    }

    /// Returns the number of entries that the cache keeps at most.
    pub fn max_size(&self) -> (n: usize)
        ensures
            n == self.spec_max_size(),
    {
        self.max_size
    }

    /// Returns the count that the next operation gets.
    pub fn counter(&self) -> (c: u64)
        ensures
            c == self.spec_counter(),
    {
        self.counter
    }

    /// Returns the current count and advances it by one. After `u64::MAX`
    /// the count starts again at 0.
    pub fn next_counter(&mut self) -> (c: u64)
        ensures
            c == old(self).spec_counter(),
            final(self).spec_counter() == next_count(c),
            final(self).entries() == old(self).entries(),
            final(self).spec_max_size() == old(self).spec_max_size(),
    {
        let ret: u64 = self.counter;
        self.counter = ret.wrapping_add(1);
        ret
    }

    /// Removes the entry with the smallest count, among those whose count
    /// is below `u64::MAX`. Where several entries share that count, one of
    /// them leaves.
    pub fn remove_oldest(&mut self)
        requires
            obeys_key_model::<K>(),
        ensures
            oldest_removed(old(self).entries(), final(self).entries()),
            final(self).spec_max_size() == old(self).spec_max_size(),
            final(self).spec_counter() == old(self).spec_counter(),
            old(self).in_order() ==> final(self).in_order(),
    {
        let mut key: Option<K> = None;
        let mut oldest: u64 = u64::MAX;
        let ghost m = self.entries();
        let ghost all = spec_hash_map_iter(&self.map).remaining();
        for (k, v) in it: self.map.iter()
            invariant
                obeys_key_model::<K>(),
                m == entry_views(self.map@),
                it.seq() == all,
                all == spec_hash_map_iter(&self.map).remaining(),
                key is None ==> oldest == u64::MAX,
                key matches Some(kk) ==> m.contains_key(kk) && m[kk].1 == oldest && oldest
                    < u64::MAX,
                forall|i: int| 0 <= i < it.index() ==> oldest <= (#[trigger] all[i]).1@.1,
        {
            if v.counter() < oldest {
                key = Some(*k);
                oldest = v.counter()
            }
        }
        assert forall|j: K| #[trigger] m.contains_key(j) implies oldest <= m[j].1 by {
            assert(all.contains((&j, &self.map@[j])));
            let i = choose|i: int| 0 <= i < all.len() && all[i] == (&j, &self.map@[j]);
            assert(oldest <= all[i].1@.1);
        }
        match key {
            Some(k) => {
                self.map.remove(&k);
                assert(is_oldest(m, k));
                assert(self.entries() =~= m.remove(k));
            },
            None => (),
        };
    }
}

impl<K: Eq + Hash + Copy + Send + Sync, V: Send + Sync> CacheEngine<K, V> for SimpleCacheEngine<
    K,
    V,
> {
    open spec fn values(&self) -> Map<K, Arc<V>> {
        self.entries().map_values(|e: (Arc<V>, u64)| e.0)
    }

    /// Returns the value of `key`, if there is one, and gives its entry the
    /// current count. The count advances whether the key is there or not.
    fn get(&mut self, key: &K) -> (v: Option<Arc<V>>)
        ensures
            final(self).spec_counter() == next_count(old(self).spec_counter()),
            final(self).spec_max_size() == old(self).spec_max_size(),
            old(self).in_order() && final(self).spec_counter() < u64::MAX
                ==> final(self).in_order(),
            final(self).entries() == if old(self).entries().contains_key(*key) {
                old(self).entries().insert(
                    *key,
                    (old(self).entries()[*key].0, old(self).spec_counter()),
                )
            } else {
                old(self).entries()
            },
    {
        let counter: u64 = self.next_counter();
        let value = match self.map.get(key) {
            Some(entry) => entry.get_value(),
            None => {
                return None;
            },
        };
        let ghost before = self.entries();
        self.map.insert(*key, SimpleCacheEntry::new(&value, counter));
        assert(self.entries() =~= before.insert(*key, (value, counter)));
        assert(self.values() =~= old(self).values());
        Some(value)
    }

    /// Stores `value` under `key` with the current count, and advances the
    /// count. If the cache then holds more than its limit, its oldest entry
    /// leaves.
    fn insert(&mut self, key: K, value: &Arc<V>)
        ensures
            final(self).spec_counter() == next_count(old(self).spec_counter()),
            final(self).spec_max_size() == old(self).spec_max_size(),
            old(self).in_order() && final(self).spec_counter() < u64::MAX
                ==> final(self).in_order(),
            old(self).in_order() && old(self).entries().len() <= old(self).spec_max_size()
                ==> final(self).entries().len() <= old(self).spec_max_size(),
            ({
                let stored = old(self).entries().insert(key, (*value, old(self).spec_counter()));
                if stored.len() <= old(self).spec_max_size() {
                    final(self).entries() == stored
                } else {
                    oldest_removed(stored, final(self).entries())
                }
            }),
    {
        let counter: u64 = self.next_counter();
        let ghost before = self.entries();
        assert(before.dom() =~= self.map@.dom());
        self.map.insert(key, SimpleCacheEntry::new(value, counter));
        let ghost stored = before.insert(key, (*value, counter));
        assert(self.entries() =~= stored);
        assert(stored.dom() =~= self.map@.dom());
        assert(stored.dom() =~= before.dom().insert(key));
        if self.map.len() > self.max_size {
            proof {
                if old(self).in_order() {
                    lemma_oldest_exists(stored);
                    assert forall|k: K| is_oldest(stored, k) implies #[trigger] stored.remove(
                        k,
                    ).len() == stored.len() - 1 by {
                        assert(stored.remove(k).dom() =~= stored.dom().remove(k));
                    }
                }
            }
            self.remove_oldest();
        }
        assert(self.values().submap_of(old(self).values().insert(key, *value)));
    }

    fn clear(&mut self)
        ensures
            final(self).entries() == Map::<K, (Arc<V>, u64)>::empty(),
            final(self).spec_counter() == old(self).spec_counter(),
            final(self).spec_max_size() == old(self).spec_max_size(),
            old(self).in_order() ==> final(self).in_order(),
    {
        self.map.clear();
        assert(self.entries() =~= Map::<K, (Arc<V>, u64)>::empty());
        assert(self.values() =~= Map::<K, Arc<V>>::empty());
    }

    fn len(&self) -> (n: usize)
        ensures
            n == self.entries().len(),
    {
        assert(self.entries().dom() =~= self.map@.dom());
        assert(self.values().dom() =~= self.map@.dom());
        self.map.len()
    }

    fn is_empty(&self) -> (b: bool)
        ensures
            b == (self.entries().len() == 0),
    {
        assert(self.entries().dom() =~= self.map@.dom());
        assert(self.values().dom() =~= self.map@.dom());
        self.map.is_empty()
    }
}

/// A cache that holds up to a fixed number of entries and lets the one
/// that was used longest ago leave when it is full. Every method may be
/// called from any thread.
#[verifier::reject_recursive_types(K)]
#[verifier::reject_recursive_types(V)]
pub struct SimpleCache<K: Eq + Hash + Copy + Send + Sync, V: Send + Sync> {
    engine: RwLock<SimpleCacheEngine<K, V>, spec_fn(SimpleCacheEngine<K, V>) -> bool>,
    max_size: Ghost<usize>,
}

impl<K: Eq + Hash + Copy + Send + Sync, V: Send + Sync> SimpleCache<K, V> {
    #[verifier::type_invariant]
    spec fn inv(&self) -> bool {
        forall|e: SimpleCacheEngine<K, V>| #[trigger]
            self.engine.inv(e) <==> e.spec_max_size() == self.max_size@
    }

    /// The number of entries that the cache keeps at most.
    pub closed spec fn spec_max_size(&self) -> usize {
        self.max_size@
    }

    /// Creates an empty cache that keeps at most `max_size` entries.
    pub fn new(max_size: usize) -> (c: Self)
        ensures
            c.spec_max_size() == max_size,
    {
        let ghost pred = |e: SimpleCacheEngine<K, V>| e.spec_max_size() == max_size;
        Self {
            engine: RwLock::new(SimpleCacheEngine::new(max_size), Ghost(pred)),
            max_size: Ghost(max_size),
        }
    }
}

impl<K: Eq + Hash + Copy + Send + Sync, V: Send + Sync> ValueCache<K, V> for SimpleCache<K, V> {
    fn get(&self, key: &K) -> Option<Arc<V>> {
        proof {
            use_type_invariant(self);
        }
        let (mut s, handle) = self.engine.acquire_write();
        let v = s.get(key);
        handle.release_write(s);
        v
    }

    fn insert(&self, key: K, value: &Arc<V>) {
        proof {
            use_type_invariant(self);
        }
        let (mut s, handle) = self.engine.acquire_write();
        s.insert(key, value);
        handle.release_write(s);
    }

    fn clear(&self) {
        proof {
            use_type_invariant(self);
        }
        let (mut s, handle) = self.engine.acquire_write();
        s.clear();
        handle.release_write(s);
    }

    fn len(&self) -> usize {
        let handle = self.engine.acquire_read();
        let n: usize = handle.borrow().len();
        handle.release_read();
        n
    }

    fn is_empty(&self) -> bool {
        let handle = self.engine.acquire_read();
        let b: bool = handle.borrow().is_empty();
        handle.release_read();
        b
    }
}

} // verus!
