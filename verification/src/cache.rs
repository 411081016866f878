use vstd::prelude::*;
use crate::serial::bytes_eq;
use crate::hasher::BufHash;

verus! {

/// One cached buffer: its digest key, its byte weight, and the shared
/// handle itself.
pub struct CacheEntry<V> {
    pub key: BufHash,
    pub weight: usize,
    pub value: V,
}

/// The summed byte weight of a run of entries.
pub open spec fn total_weight<V>(s: Seq<CacheEntry<V>>) -> int
    decreases s.len(),
{
    if s.len() == 0 {
        0
    } else {
        total_weight(s.drop_last()) + s.last().weight
    }
}

/// No two entries share a key.
pub open spec fn keys_distinct<V>(s: Seq<CacheEntry<V>>) -> bool {
    forall|i: int, j: int| 0 <= i < j < s.len() ==> s[i].key != s[j].key
}

/// Some entry holds the key.
pub open spec fn has_key<V>(s: Seq<CacheEntry<V>>, key: BufHash) -> bool {
    exists|i: int| 0 <= i < s.len() && s[i].key == key
}

/// Drop least-recently-used entries from the back until the run's weight
/// is within the capacity.
pub open spec fn evict_spec<V>(s: Seq<CacheEntry<V>>, cap: int) -> Seq<CacheEntry<V>>
    decreases s.len(),
{
    if total_weight(s) <= cap || s.len() == 0 {
        s
    } else {
        evict_spec(s.drop_last(), cap)
    }
}

proof fn lemma_total_weight_concat<V>(a: Seq<CacheEntry<V>>, b: Seq<CacheEntry<V>>)
    ensures
        total_weight(a + b) == total_weight(a) + total_weight(b),
    decreases b.len(),
{
    if b.len() == 0 {
        assert(a + b =~= a);
    } else {
        lemma_total_weight_concat(a, b.drop_last());
        assert((a + b).drop_last() =~= a + b.drop_last());
        assert((a + b).last() == b.last());
    }
}

proof fn lemma_total_weight_remove<V>(s: Seq<CacheEntry<V>>, i: int)
    requires
        0 <= i < s.len(),
    ensures
        total_weight(s.remove(i)) == total_weight(s) - s[i].weight,
    decreases s.len(),
{
    if i == s.len() - 1 {
        assert(s.remove(i) =~= s.drop_last());
    } else {
        lemma_total_weight_remove(s.drop_last(), i);
        assert(s.remove(i).drop_last() =~= s.drop_last().remove(i));
        assert(s.remove(i).last() == s.last());
    }
}

proof fn lemma_total_weight_nonneg<V>(s: Seq<CacheEntry<V>>)
    ensures
        total_weight(s) >= 0,
    decreases s.len(),
{
    if s.len() > 0 {
        lemma_total_weight_nonneg(s.drop_last());
    }
}

/// A bounded byte-size content-addressed store: shared buffer handles keyed
/// by digest, most recently used first, total weight held under the
/// capacity by evicting from the back.
pub struct BufferCache<V> {
    capacity: usize,
    total: usize,
    entries: Vec<CacheEntry<V>>,
}

impl<V> BufferCache<V> {
    /// The entries, most recently used first.
    pub closed spec fn view_spec(&self) -> Seq<CacheEntry<V>> {
        self.entries@
    }

    pub closed spec fn capacity_spec(&self) -> int {
        self.capacity as int
    }

    /// The bookkeeping holds: the stored weight matches, stays within the
    /// capacity, and keys are unique.
    pub closed spec fn inv(&self) -> bool {
        &&& self.total == total_weight(self.entries@)
        &&& self.total <= self.capacity
        &&& keys_distinct(self.entries@)
    }

    pub fn new(capacity: usize) -> (r: BufferCache<V>)
        ensures
            r.inv(),
            r.view_spec() =~= Seq::<CacheEntry<V>>::empty(),
            r.capacity_spec() == capacity,
    {
        BufferCache { capacity, total: 0, entries: Vec::new() }
    }

    /// The position of a key, if it is present.
    fn find(&self, key: &BufHash) -> (r: Option<usize>)
        ensures
            match r {
                Some(i) => 0 <= i < self.view_spec().len() && self.view_spec()[i as int].key
                    == *key,
                None => !has_key(self.view_spec(), *key),
            },
    {
        let mut i: usize = 0;
        while i < self.entries.len()
            invariant
                i <= self.entries@.len(),
                forall|j: int| 0 <= j < i ==> self.entries@[j].key != *key,
            decreases self.entries@.len() - i,
        {
            if bytes_eq(self.entries[i].key.as_slice(), key.as_slice()) {
                proof {
                    assert(self.entries@[i as int].key@ == key@);
                    assert(self.entries@[i as int].key =~= *key);
                }
                return Some(i);
            }
            proof {
                assert(self.entries@[i as int].key@ != key@);
            }
            i = i + 1;
        }
        None
    }

    /// Whether the key is cached; a hit becomes the most recently used
    /// entry, and the contents are otherwise unchanged.
    pub fn get(&mut self, key: &BufHash) -> (found: bool)
        requires
            old(self).inv(),
        ensures
            final(self).inv(),
            final(self).capacity_spec() == old(self).capacity_spec(),
            found == has_key(old(self).view_spec(), *key),
            !found ==> final(self).view_spec() == old(self).view_spec(),
            found ==> exists|i: int|
                0 <= i < old(self).view_spec().len() && old(self).view_spec()[i].key == *key
                    && final(self).view_spec() =~= seq![old(self).view_spec()[i]] + old(
                    self,
                ).view_spec().remove(i),
            found ==> final(self).view_spec().len() > 0 && final(self).view_spec()[0].key == *key,
            forall|k: BufHash|
                has_key(final(self).view_spec(), k) == has_key(old(self).view_spec(), k),
    {
        match self.find(key) {
            None => false,
            Some(i) => {
                let ghost s = self.entries@;
                let ghost gi = i as int;
                let entry = self.entries.remove(i);
                self.entries.insert(0, entry);
                proof {
                    assert(self.entries@ =~= seq![s[gi]] + s.remove(gi));
                    lemma_total_weight_remove(s, gi);
                    lemma_total_weight_concat(seq![s[gi]], s.remove(gi));
                    assert(seq![s[gi]].drop_last() =~= Seq::<CacheEntry<V>>::empty());
                    assert(seq![s[gi]].last() == s[gi]);
                    assert(total_weight(Seq::<CacheEntry<V>>::empty()) == 0);
                    assert(total_weight(seq![s[gi]]) == s[gi].weight);
                    let t = self.entries@;
                    assert forall|a: int, b: int| 0 <= a < b < t.len() implies t[a].key
                        != t[b].key by {
                        if a == 0 {
                            assert(t[b] == s.remove(gi)[b - 1]);
                        } else {
                            assert(t[a] == s.remove(gi)[a - 1] && t[b] == s.remove(gi)[b - 1]);
                        }
                    }
                    assert forall|k: BufHash| has_key(t, k) == has_key(s, k) by {
                        if has_key(s, k) {
                            let j = choose|j: int| 0 <= j < s.len() && s[j].key == k;
                            if j == gi {
                                assert(t[0] == s[gi]);
                            } else if j < gi {
                                assert(t[j + 1] == s.remove(gi)[j] && s.remove(gi)[j] == s[j]);
                            } else {
                                assert(t[j] == s.remove(gi)[j - 1] && s.remove(gi)[j - 1] == s[j]);
                            }
                            assert(has_key(t, k));
                        }
                        if has_key(t, k) {
                            let j = choose|j: int| 0 <= j < t.len() && t[j].key == k;
                            if j == 0 {
                                assert(s[gi].key == k);
                            } else if j - 1 < gi {
                                assert(t[j] == s.remove(gi)[j - 1] && s.remove(gi)[j - 1] == s[j
                                    - 1]);
                            } else {
                                assert(t[j] == s.remove(gi)[j - 1] && s.remove(gi)[j - 1] == s[j]);
                            }
                            assert(has_key(s, k));
                        }
                    }
                }
                true
            },
        }
    }

    /// The most recently used buffer handle.
    pub fn front_value(&self) -> (r: &V)
        requires
            self.view_spec().len() > 0,
        ensures
            *r == self.view_spec()[0].value,
    {
        &self.entries[0].value
    }

    /// Store a buffer handle under its digest: any entry under the same key
    /// leaves, the new entry becomes the most recently used, and entries are
    /// evicted from the least recently used end until the total weight is
    /// back within the capacity.
    pub fn put(&mut self, key: BufHash, value: V, weight: usize)
        requires
            old(self).inv(),
        ensures
            final(self).inv(),
            final(self).capacity_spec() == old(self).capacity_spec(),
            !has_key(old(self).view_spec(), key) ==> final(self).view_spec() == evict_spec(
                seq![CacheEntry { key, weight, value }] + old(self).view_spec(),
                old(self).capacity_spec(),
            ),
            has_key(old(self).view_spec(), key) ==> exists|i: int|
                0 <= i < old(self).view_spec().len() && old(self).view_spec()[i].key == key
                    && final(self).view_spec() == evict_spec(
                    seq![CacheEntry { key, weight, value }] + old(self).view_spec().remove(i),
                    old(self).capacity_spec(),
                ),
    {
        let ghost s0 = self.entries@;
        let mut base: u128 = self.total as u128;
        let found = self.find(&key);
        let ghost removed_idx = found;
        match found {
            None => (),
            Some(i) => {
                let removed = self.entries.remove(i);
                proof {
                    let gi = i as int;
                    lemma_total_weight_remove(s0, gi);
                    lemma_total_weight_nonneg(s0.remove(gi));
                    assert forall|a: int, b: int|
                        0 <= a < b < s0.remove(gi).len() implies s0.remove(gi)[a].key != s0.remove(
                        gi,
                    )[b].key by {
                        assert(s0.remove(gi)[a] == (if a < gi { s0[a] } else { s0[a + 1] }));
                        assert(s0.remove(gi)[b] == (if b < gi { s0[b] } else { s0[b + 1] }));
                    }
                    assert forall|j: int| 0 <= j < s0.remove(gi).len() implies s0.remove(
                        gi,
                    )[j].key != key by {
                        assert(s0.remove(gi)[j] == (if j < gi { s0[j] } else { s0[j + 1] }));
                    }
                    assert(!has_key(s0.remove(gi), key));
                }
                base = base - removed.weight as u128;
            },
        }
        let ghost cleaned = self.entries@;
        self.entries.insert(0, CacheEntry { key, weight, value });
        let mut target: u128 = base + weight as u128;
        let ghost started = self.entries@;
        let ghost cap0 = self.capacity as int;
        proof {
            assert(started =~= seq![CacheEntry { key, weight, value }] + cleaned);
            lemma_total_weight_concat(seq![CacheEntry { key, weight, value }], cleaned);
            assert(seq![CacheEntry { key, weight, value }].drop_last()
                =~= Seq::<CacheEntry<V>>::empty());
            assert(seq![CacheEntry { key, weight, value }].last() == (CacheEntry {
                key,
                weight,
                value,
            }));
            assert(total_weight(Seq::<CacheEntry<V>>::empty()) == 0);
            assert(total_weight(seq![CacheEntry { key, weight, value }]) == weight as int);
            assert(!has_key(cleaned, key));
            assert forall|a: int, b: int| 0 <= a < b < started.len() implies started[a].key
                != started[b].key by {
                if a == 0 {
                    assert(started[b] == cleaned[b - 1]);
                    if cleaned[b - 1].key == key {
                        assert(has_key(cleaned, key));
                    }
                } else {
                    assert(started[a] == cleaned[a - 1] && started[b] == cleaned[b - 1]);
                }
            }
            assert(target == total_weight(started));
        }
        while target > self.capacity as u128
            invariant
                self.capacity as int == cap0,
                target == total_weight(self.entries@),
                keys_distinct(self.entries@),
                evict_spec(self.entries@, cap0) == evict_spec(started, cap0),
            decreases self.entries@.len(),
        {
            proof {
                lemma_total_weight_nonneg(self.entries@.drop_last());
                if self.entries@.len() == 0 {
                    assert(total_weight(self.entries@) == 0);
                    assert(false);
                }
                assert(self.entries@.len() > 0);
                assert(evict_spec(self.entries@, cap0) == evict_spec(
                    self.entries@.drop_last(),
                    cap0,
                ));
            }
            let dropped = self.entries.pop().unwrap();
            target = target - dropped.weight as u128;
            proof {
                assert(keys_distinct(self.entries@));
            }
        }
        self.total = target as usize;
        proof {
            assert(evict_spec(self.entries@, cap0) == self.entries@);
            assert(self.entries@ == evict_spec(started, cap0));
            match removed_idx {
                None => {
                    assert(cleaned == s0);
                    assert(started =~= seq![CacheEntry { key, weight, value }] + s0);
                },
                Some(i) => {
                    let gi = i as int;
                    assert(cleaned == s0.remove(gi));
                    assert(started =~= seq![CacheEntry { key, weight, value }] + s0.remove(gi));
                    assert(0 <= gi < s0.len() && s0[gi].key == key);
                    assert(has_key(s0, key));
                },
            }
        }
    }

    /// How many buffers are cached.
    pub fn len(&self) -> (r: usize)
        ensures
            r == self.view_spec().len(),
    {
        self.entries.len()
    }
}

/// Probe a run of keys in order: report which of them the cache holds,
/// refreshing every hit as most recently used.  Probing does not change
/// which keys are cached, so each answer also speaks of the cache as it
/// stood at the start.
pub fn probe_keys<V>(cache: &mut BufferCache<V>, keys: &Vec<BufHash>) -> (hits: Vec<bool>)
    requires
        old(cache).inv(),
    ensures
        final(cache).inv(),
        final(cache).capacity_spec() == old(cache).capacity_spec(),
        hits@.len() == keys@.len(),
        forall|i: int|
            0 <= i < keys@.len() ==> #[trigger] hits@[i] == has_key(
                old(cache).view_spec(),
                keys@[i],
            ),
        forall|k: BufHash|
            has_key(final(cache).view_spec(), k) == has_key(old(cache).view_spec(), k),
{
    let mut hits: Vec<bool> = Vec::new();
    let mut i: usize = 0;
    while i < keys.len()
        invariant
            i <= keys@.len(),
            hits@.len() == i,
            cache.inv(),
            cache.capacity_spec() == old(cache).capacity_spec(),
            forall|k: BufHash|
                has_key(cache.view_spec(), k) == has_key(old(cache).view_spec(), k),
            forall|j: int|
                0 <= j < i ==> #[trigger] hits@[j] == has_key(old(cache).view_spec(), keys@[j]),
        decreases keys@.len() - i,
    {
        let found = cache.get(&keys[i]);
        hits.push(found);
        i = i + 1;
    }
    hits
}

} // verus!
