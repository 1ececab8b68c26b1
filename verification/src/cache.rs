//! The cache layer of the cache-aside read path: a key-value store of
//! entries with a time-to-live, looked up against an explicitly passed
//! clock. An entry past its expiry behaves exactly like an absent one, so
//! staleness is bounded by the TTL given at write time.

use vstd::prelude::*;
use vstd::pervasive::VecAdditionalExecFns;

verus! {

/// One cached entry: the key, the cached value, and the instant (in
/// seconds) at which the entry lapses.
pub struct CacheSlot<V> {
    pub key: String,
    pub value: V,
    pub expires_at: u64,
}

/// The slot stored under `key`, if any: the first slot with that key; a
/// write for an existing key replaces its first slot, so later duplicates
/// are never reachable.
pub open spec fn slots_find<V>(slots: Seq<CacheSlot<V>>, key: Seq<char>) -> Option<CacheSlot<V>>
    decreases slots.len(),
{
    if slots.len() == 0 {
        None
    } else if slots[0].key@ == key {
        Some(slots[0])
    } else {
        slots_find(slots.drop_first(), key)
    }
}

/// The cached value under `key` as seen at instant `now`: present exactly
/// when a slot exists and has not lapsed.
pub open spec fn cache_lookup<V>(slots: Seq<CacheSlot<V>>, key: Seq<char>, now: u64) -> Option<V> {
    match slots_find(slots, key) {
        Some(s) => if now < s.expires_at {
            Some(s.value)
        } else {
            None
        },
        None => None,
    }
}

/// Slots whose first `i` entries do not hold `key` answer the search as
/// their remainder does.
proof fn lemma_slots_find_skip<V>(slots: Seq<CacheSlot<V>>, key: Seq<char>, i: int)
    requires
        0 <= i <= slots.len(),
        forall|j: int| 0 <= j < i ==> slots[j].key@ != key,
    ensures
        slots_find(slots, key) == slots_find(slots.skip(i), key),
    decreases i,
{
    if i > 0 {
        lemma_slots_find_skip(slots, key, i - 1);
        assert(slots.skip(i - 1).drop_first() =~= slots.skip(i));
    } else {
        assert(slots.skip(0) =~= slots);
    }
}

/// Replacing the first slot held under a key changes the search for that
/// key alone.
proof fn lemma_slots_find_update<V>(
    slots: Seq<CacheSlot<V>>,
    idx: int,
    slot: CacheSlot<V>,
    k: Seq<char>,
)
    requires
        0 <= idx < slots.len(),
        slots[idx].key@ == slot.key@,
        forall|j: int| 0 <= j < idx ==> slots[j].key@ != slot.key@,
    ensures
        slots_find(slots.update(idx, slot), k) == (if k == slot.key@ {
            Some(slot)
        } else {
            slots_find(slots, k)
        }),
    decreases idx,
{
    let updated = slots.update(idx, slot);
    if idx == 0 {
        if updated[0].key@ != k {
            assert(updated.drop_first() =~= slots.drop_first());
        }
    } else {
        assert(updated[0] == slots[0]);
        if slots[0].key@ != k {
            assert(updated.drop_first() =~= slots.drop_first().update(idx - 1, slot));
            lemma_slots_find_update(slots.drop_first(), idx - 1, slot, k);
        }
    }
}

/// Appending a slot for a key not yet held changes the search for that key
/// alone.
proof fn lemma_slots_find_push<V>(slots: Seq<CacheSlot<V>>, slot: CacheSlot<V>, k: Seq<char>)
    ensures
        slots_find(slots.push(slot), k) == (if slots_find(slots, k) is Some {
            slots_find(slots, k)
        } else if k == slot.key@ {
            Some(slot)
        } else {
            None::<CacheSlot<V>>
        }),
    decreases slots.len(),
{
    if slots.len() == 0 {
        assert(slots.push(slot)[0] == slot);
        assert(slots.push(slot).drop_first() =~= Seq::<CacheSlot<V>>::empty());
    } else {
        assert(slots.push(slot)[0] == slots[0]);
        if slots[0].key@ != k {
            assert(slots.push(slot).drop_first() =~= slots.drop_first().push(slot));
            lemma_slots_find_push(slots.drop_first(), slot, k);
        }
    }
}

/// The key-value cache.
pub struct KvCache<V> {
    slots: Vec<CacheSlot<V>>,
}

impl<V> View for KvCache<V> {
    type V = Seq<CacheSlot<V>>;

    closed spec fn view(&self) -> Seq<CacheSlot<V>> {
        self.slots@
    }
}

impl<V> KvCache<V> {
    /// An empty cache: every lookup misses.
    pub fn new() -> (r: KvCache<V>)
        ensures
            r@ == Seq::<CacheSlot<V>>::empty(),
    {
        KvCache { slots: Vec::new() }
    }

    /// The cached value under `key` at instant `now`, if a live entry
    /// holds one.
    pub fn get_cache(&self, key: &String, now: u64) -> (r: Option<&V>)
        ensures
            match r {
                Some(v) => cache_lookup(self@, key@, now) == Some(*v),
                None => cache_lookup(self@, key@, now) is None,
            },
    {
        let n = self.slots.len();
        let mut i: usize = 0;
        while i < n
            invariant
                n == self.slots.len(),
                0 <= i <= n,
                forall|j: int| 0 <= j < i ==> self@[j].key@ != key@,
            decreases n - i,
        {
            if self.slots[i].key == *key {
                proof {
                    lemma_slots_find_skip(self@, key@, i as int);
                    assert(self@.skip(i as int)[0] == self@[i as int]);
                }
                if now < self.slots[i].expires_at {
                    return Some(&self.slots[i].value);
                } else {
                    return None;
                }
            }
            i = i + 1;
        }
        proof {
            lemma_slots_find_skip(self@, key@, n as int);
            assert(self@.skip(n as int) =~= Seq::<CacheSlot<V>>::empty());
        }
        None
    }

    /// Writes `value` under `key` at instant `now`, to live for `ttl`
    /// seconds: the entry for `key` now lapses at `now + ttl`, and every
    /// other key is untouched.
    pub fn set_cache(&mut self, key: &String, value: V, now: u64, ttl: u64)
        requires
            now + ttl <= u64::MAX,
        ensures
            slots_find(final(self)@, key@) matches Some(s) && s.key@ == key@ && s.value == value
                && s.expires_at == now + ttl,
            forall|k: Seq<char>| k != key@ ==> slots_find(final(self)@, k) == slots_find(
                old(self)@,
                k,
            ),
            forall|t: u64|
                cache_lookup(final(self)@, key@, t) == (if t < now + ttl {
                    Some(value)
                } else {
                    None::<V>
                }),
    {
        let expires_at = now + ttl;
        let slot = CacheSlot { key: key.clone(), value, expires_at };
        let n = self.slots.len();
        let mut i: usize = 0;
        while i < n
            invariant
                self@ == old(self)@,
                n == self.slots.len(),
                0 <= i <= n,
                slot.key@ == key@ && slot.value == value && slot.expires_at == now + ttl,
                forall|j: int| 0 <= j < i ==> self@[j].key@ != key@,
            decreases n - i,
        {
            if self.slots[i].key == *key {
                self.slots.set(i, slot);
                proof {
                    let s = self@[i as int];
                    lemma_slots_find_update(old(self)@, i as int, s, key@);
                    assert forall|k: Seq<char>| k != key@ implies slots_find(self@, k)
                        == slots_find(old(self)@, k) by {
                        lemma_slots_find_update(old(self)@, i as int, s, k);
                    }
                }
                return ;
            }
            i = i + 1;
        }
        proof {
            lemma_slots_find_skip(old(self)@, key@, n as int);
            assert(old(self)@.skip(n as int) =~= Seq::<CacheSlot<V>>::empty());
        }
        self.slots.push(slot);
        proof {
            let s = self@[n as int];
            assert(self@ =~= old(self)@.push(s));
            lemma_slots_find_push(old(self)@, s, key@);
            assert forall|k: Seq<char>| k != key@ implies slots_find(self@, k) == slots_find(
                old(self)@,
                k,
            ) by {
                lemma_slots_find_push(old(self)@, s, k);
            }
        }
    }
}

/// Cache-aside staleness is bounded by the TTL: after a value is written
/// under a key at `t0` to live for `ttl` seconds, every lookup of that key
/// before `t0 + ttl` returns that value unchanged — so a repeated read
/// within the TTL is a hit and the backing query is not consulted — and
/// every lookup from `t0 + ttl` on misses, so a later read consults the
/// backing query again.
pub proof fn lemma_cache_aside_ttl<V>(
    before: Seq<CacheSlot<V>>,
    after: Seq<CacheSlot<V>>,
    key: Seq<char>,
    value: V,
    t0: u64,
    ttl: u64,
    t: u64,
)
    requires
        t0 + ttl <= u64::MAX,
        slots_find(after, key) matches Some(s) && s.key@ == key && s.value == value
            && s.expires_at == t0 + ttl,
        forall|k: Seq<char>| k != key ==> slots_find(after, k) == slots_find(before, k),
    ensures
        t < t0 + ttl ==> cache_lookup(after, key, t) == Some(value),
        t >= t0 + ttl ==> cache_lookup(after, key, t) is None,
        forall|k: Seq<char>, u: u64|
            k != key ==> cache_lookup(after, k, u) == cache_lookup(before, k, u),
{
}

} // verus!
