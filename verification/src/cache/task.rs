use super::cache_entry::CacheEntry;
use super::{
    add_clamped, add_hits_clamped, clamp_add_u128, clamp_add_usize, lemma_map_sum_congruent,
    lemma_map_sum_empty, lemma_map_sum_insert, lemma_map_sum_remove, lemma_map_sum_zero, map_sum,
    pop_first, sub_hits_or_zero, sub_or_zero, sub_or_zero_u128, sub_or_zero_usize, Hitcounter,
    SizeDelta,
};
use crate::entry::EntryConfigInner;
use crate::time::Instant;
use std::collections::BTreeMap;
use std::sync::Arc;
use vstd::laws_cmp::obeys_cmp;
use vstd::prelude::*;

verus! {

/// What a store holds: its entries by key, its own total size and its own
/// total number of hits.
#[verifier::reject_recursive_types(K)]
pub struct TaskModel<K, V> {
    pub entries: Map<K, CacheEntry<V>>,
    pub local_size: usize,
    pub total_hits: Hitcounter,
}

/// The size of an entry, as a number.
pub open spec fn entry_size<V>() -> spec_fn(CacheEntry<V>) -> nat {
    |e: CacheEntry<V>| e.size as nat
}

/// The hit count of an entry, as a number.
pub open spec fn entry_hits<V>() -> spec_fn(CacheEntry<V>) -> nat {
    |e: CacheEntry<V>| e.total_hits as nat
}

/// The entries of `m` that have expired at `now`.
pub open spec fn expired_part<K, V>(m: Map<K, CacheEntry<V>>, now: Instant) -> Map<K, CacheEntry<V>> {
    Map::new(|k: K| m.contains_key(k) && m[k].expired_at(now), |k: K| m[k])
}

/// The entries of `m` that have not expired at `now`.
pub open spec fn live_part<K, V>(m: Map<K, CacheEntry<V>>, now: Instant) -> Map<K, CacheEntry<V>> {
    Map::new(|k: K| m.contains_key(k) && !m[k].expired_at(now), |k: K| m[k])
}

/// The entries of `m` with their hit counts set back to zero.
pub open spec fn hits_reset<K, V>(m: Map<K, CacheEntry<V>>) -> Map<K, CacheEntry<V>> {
    Map::new(|k: K| m.contains_key(k), |k: K| CacheEntry { total_hits: 0, ..m[k] })
}

/// `n`, or `usize::MAX` where `n` is larger.
pub open spec fn clamp_usize(n: nat) -> usize {
    if n <= usize::MAX {
        n as usize
    } else {
        usize::MAX
    }
}

/// `n`, or `u128::MAX` where `n` is larger.
pub open spec fn clamp_u128(n: nat) -> u128 {
    if n <= u128::MAX {
        n as u128
    } else {
        u128::MAX
    }
}

/// The entries of `m` with fewer than `t` hits.
pub open spec fn hits_below<K, V>(m: Map<K, CacheEntry<V>>, t: nat) -> Map<K, CacheEntry<V>> {
    Map::new(|k: K| m.contains_key(k) && m[k].total_hits < t, |k: K| m[k])
}

/// The entries of `m` with at least `t` hits.
pub open spec fn hits_from<K, V>(m: Map<K, CacheEntry<V>>, t: nat) -> Map<K, CacheEntry<V>> {
    Map::new(|k: K| m.contains_key(k) && m[k].total_hits >= t, |k: K| m[k])
}

/// The first hit threshold of a cleanup: the average number of hits per
/// entry, at most 10.
pub open spec fn first_threshold_spec(total_hits: Hitcounter, len: nat) -> nat {
    let average = total_hits as nat / len;
    if average < 10 {
        average
    } else {
        10
    }
}

/// The hit threshold after `t`: larger by half of it, and by at least one;
/// `u128::MAX + 1` (above every hit count) where it would pass `u128::MAX`.
pub open spec fn next_threshold(t: nat) -> nat {
    let step: nat = if t / 2 >= 1 {
        t / 2
    } else {
        1
    };
    if t + step <= u128::MAX {
        t + step
    } else {
        (u128::MAX + 1) as nat
    }
}

/// The threshold `t`, or `u128::MAX + 1` where `beyond` holds.
pub open spec fn threshold(t: u128, beyond: bool) -> nat {
    if beyond {
        (u128::MAX + 1) as nat
    } else {
        t as nat
    }
}

/// The rounds of a cleanup from the entries `m`, the store's size `local`,
/// the bytes dropped so far `deleted`, the threshold `t` and the goal
/// `goal`: the entries left, the store's size and the bytes dropped.
pub open spec fn cleanup_rounds<K, V>(
    m: Map<K, CacheEntry<V>>,
    local: usize,
    deleted: usize,
    t: nat,
    goal: usize,
) -> (Map<K, CacheEntry<V>>, usize, usize)
    decreases u128::MAX + 1 - t,
{
    if local <= goal || m.len() == 0 {
        (m, local, deleted)
    } else {
        let d = clamp_usize(map_sum(hits_below(m, t), entry_size()));
        let local2 = sub_or_zero_usize(local as int, d as int);
        let deleted2 = clamp_add_usize(deleted as int, d as int);
        if t > u128::MAX {
            (hits_from(m, t), local2, deleted2)
        } else {
            cleanup_rounds(hits_from(m, t), local2, deleted2, next_threshold(t), goal)
        }
    }
}

impl<K, V> TaskModel<K, V> {
    /// The sum of the sizes of the entries.
    pub open spec fn size_sum(self) -> nat {
        map_sum(self.entries, entry_size())
    }

    /// The sum of the hit counts of the entries.
    pub open spec fn hit_sum(self) -> nat {
        map_sum(self.entries, entry_hits())
    }

    /// The store's own counters equal the sums over its entries.
    pub open spec fn exact(self) -> bool {
        &&& self.local_size == self.size_sum()
        &&& self.total_hits == self.hit_sum()
    }

    /// A lookup of `key` at `now`: a present entry counts a hit and hands out
    /// its value.
    pub open spec fn get_step(self, key: K, now: Instant) -> (Self, Option<Arc<V>>) {
        if self.entries.contains_key(key) {
            let e = self.entries[key];
            (
                TaskModel {
                    entries: self.entries.insert(key, e.hit(now)),
                    total_hits: clamp_add_u128(self.total_hits as int, 1),
                    ..self
                },
                Some(e.inner),
            )
        } else {
            (self, None)
        }
    }

    /// Saving `value` of `size` bytes under `key` at `now`: an existing entry
    /// is updated in place and keeps its hits, otherwise a new entry is made.
    pub open spec fn set_step(
        self,
        key: K,
        value: Arc<V>,
        size: usize,
        config: EntryConfigInner,
        now: Instant,
    ) -> (Self, SizeDelta) {
        if self.entries.contains_key(key) {
            let e = self.entries[key];
            (
                TaskModel {
                    entries: self.entries.insert(key, e.updated(value, size, config, now)),
                    local_size: clamp_add_usize(
                        sub_or_zero_usize(self.local_size as int, e.size as int) as int,
                        size as int,
                    ),
                    ..self
                },
                SizeDelta { released: e.size, added: size },
            )
        } else {
            (
                TaskModel {
                    entries: self.entries.insert(key, CacheEntry::created(value, size, config, now)),
                    local_size: clamp_add_usize(self.local_size as int, size as int),
                    ..self
                },
                SizeDelta { released: 0, added: size },
            )
        }
    }

    /// Taking the entry under `key` out, handing out its value.
    pub open spec fn remove_step(self, key: K) -> (Self, Option<Arc<V>>, SizeDelta) {
        if self.entries.contains_key(key) {
            let e = self.entries[key];
            (
                TaskModel {
                    entries: self.entries.remove(key),
                    local_size: sub_or_zero_usize(self.local_size as int, e.size as int),
                    total_hits: sub_or_zero_u128(self.total_hits as int, e.total_hits as int),
                },
                Some(e.inner),
                SizeDelta { released: e.size, added: 0 },
            )
        } else {
            (self, None, SizeDelta { released: 0, added: 0 })
        }
    }

    /// Dropping every entry that has expired at `now`.
    pub open spec fn check_timeout_step(self, now: Instant) -> (Self, SizeDelta) {
        let gone = TaskModel { entries: expired_part(self.entries, now), ..self };
        let size_deleted = clamp_usize(gone.size_sum());
        let hits_deleted = clamp_u128(gone.hit_sum());
        (
            TaskModel {
                entries: live_part(self.entries, now),
                local_size: sub_or_zero_usize(self.local_size as int, size_deleted as int),
                total_hits: sub_or_zero_u128(self.total_hits as int, hits_deleted as int),
            },
            SizeDelta { released: size_deleted, added: 0 },
        )
    }

    /// The size-based cleanup. An empty store stays as it is. Otherwise,
    /// in rounds, the entries with fewer hits than a threshold are dropped
    /// and their sizes taken off the store's own size, until that size is at
    /// most half of what it was or no entry is left. The threshold starts at
    /// the average number of hits per entry, at most 10, and grows by half
    /// (by at least 1) each round. The remaining entries' hit counts, and the
    /// store's, are then set back to zero. The change to the shared total
    /// takes off the sizes of the dropped entries.
    pub open spec fn cleanup_step(self) -> (Self, SizeDelta) {
        if self.entries.len() == 0 {
            (self, SizeDelta { released: 0, added: 0 })
        } else {
            let r = cleanup_rounds(
                self.entries,
                self.local_size,
                0,
                first_threshold_spec(self.total_hits, self.entries.len()),
                self.local_size / 2,
            );
            (
                TaskModel { entries: hits_reset(r.0), local_size: r.1, total_hits: 0 },
                SizeDelta { released: r.2, added: 0 },
            )
        }
    }
}

/// Splitting a finite map into its expired and its live entries splits its
/// sum.
pub proof fn lemma_map_sum_split<K, V>(
    m: Map<K, CacheEntry<V>>,
    now: Instant,
    f: spec_fn(CacheEntry<V>) -> nat,
)
    requires
        m.dom().finite(),
    ensures
        map_sum(m, f) == map_sum(live_part(m, now), f) + map_sum(expired_part(m, now), f),
        live_part(m, now).dom().finite(),
        expired_part(m, now).dom().finite(),
    decreases m.len(),
{
    assert(live_part(m, now).dom().subset_of(m.dom()));
    assert(expired_part(m, now).dom().subset_of(m.dom()));
    vstd::set_lib::lemma_set_subset_finite(m.dom(), live_part(m, now).dom());
    vstd::set_lib::lemma_set_subset_finite(m.dom(), expired_part(m, now).dom());
    if m.len() == 0 {
        assert(live_part(m, now).dom() =~= Set::empty());
        assert(expired_part(m, now).dom() =~= Set::empty());
    } else {
        let k = m.dom().choose();
        let r = m.remove(k);
        lemma_map_sum_remove(m, f, k);
        lemma_map_sum_split(r, now, f);
        if m[k].expired_at(now) {
            assert(live_part(m, now) =~= live_part(r, now));
            assert(expired_part(m, now) =~= expired_part(r, now).insert(k, m[k]));
            lemma_map_sum_insert(expired_part(r, now), f, k, m[k]);
        } else {
            assert(expired_part(m, now) =~= expired_part(r, now));
            assert(live_part(m, now) =~= live_part(r, now).insert(k, m[k]));
            lemma_map_sum_insert(live_part(r, now), f, k, m[k]);
        }
    }
}

/// After `key` is saved with `value`, a lookup of `key` hands out `value`.
pub proof fn lemma_get_after_set<K, V>(
    m: TaskModel<K, V>,
    key: K,
    value: Arc<V>,
    size: usize,
    config: EntryConfigInner,
    saved_at: Instant,
    read_at: Instant,
)
    ensures
        m.set_step(key, value, size, config, saved_at).0.get_step(key, read_at).1 == Some(value),
{
}

/// Saving under one key leaves every other key as it was.
pub proof fn lemma_set_keeps_other_keys<K, V>(
    m: TaskModel<K, V>,
    key: K,
    value: Arc<V>,
    size: usize,
    config: EntryConfigInner,
    now: Instant,
    other: K,
)
    requires
        other != key,
    ensures
        m.set_step(key, value, size, config, now).0.entries.contains_key(other)
            == m.entries.contains_key(other),
        m.entries.contains_key(other) ==> m.set_step(key, value, size, config, now).0.entries[other]
            == m.entries[other],
{
}

/// A lookup keeps every key and every value; only the hit counts and the
/// time of the last hit of the key looked up change.
pub proof fn lemma_get_keeps_values<K, V>(m: TaskModel<K, V>, key: K, now: Instant, k: K)
    ensures
        m.get_step(key, now).0.entries.dom() == m.entries.dom(),
        m.entries.contains_key(k) ==> m.get_step(key, now).0.entries[k].inner == m.entries[k].inner,
        m.entries.contains_key(k) ==> m.get_step(key, now).0.entries[k].size == m.entries[k].size,
        m.get_step(key, now).0.local_size == m.local_size,
{
    assert(m.get_step(key, now).0.entries.dom() =~= m.entries.dom());
}

/// Removing the entry under `key` after saving `value` there hands out
/// `value`, and a lookup afterwards finds nothing.
pub proof fn lemma_remove_after_set<K, V>(
    m: TaskModel<K, V>,
    key: K,
    value: Arc<V>,
    size: usize,
    config: EntryConfigInner,
    saved_at: Instant,
    read_at: Instant,
)
    ensures
        m.set_step(key, value, size, config, saved_at).0.remove_step(key).1 == Some(value),
        m.set_step(key, value, size, config, saved_at).0.remove_step(key).0.get_step(key, read_at).1
            is None,
{
}

/// After a removal of `key`, a lookup of `key` finds nothing.
pub proof fn lemma_get_after_remove<K, V>(m: TaskModel<K, V>, key: K, now: Instant)
    ensures
        m.remove_step(key).0.get_step(key, now).1 is None,
{
}

/// After a timeout check at `now`, exactly the entries that had not expired
/// at `now` remain, unchanged.
pub proof fn lemma_check_timeout_keeps_live<K, V>(m: TaskModel<K, V>, now: Instant, k: K)
    ensures
        m.check_timeout_step(now).0.entries.contains_key(k) <==> (m.entries.contains_key(k)
            && !m.entries[k].expired_at(now)),
        m.check_timeout_step(now).0.entries.contains_key(k) ==> m.check_timeout_step(now).0.entries[k]
            == m.entries[k],
{
}

/// A new store's counters are exact.
pub proof fn lemma_empty_is_exact<K, V>(m: TaskModel<K, V>)
    requires
        m.entries == Map::<K, CacheEntry<V>>::empty(),
        m.local_size == 0,
        m.total_hits == 0,
    ensures
        m.exact(),
{
    lemma_map_sum_empty(m.entries, entry_size());
    lemma_map_sum_empty(m.entries, entry_hits());
}

/// A lookup keeps the store's counters exact, as long as the hits still fit
/// in a counter.
pub proof fn lemma_get_keeps_exact<K, V>(m: TaskModel<K, V>, key: K, now: Instant)
    requires
        m.entries.dom().finite(),
        m.exact(),
        m.get_step(key, now).0.hit_sum() <= u128::MAX,
    ensures
        m.get_step(key, now).0.exact(),
{
    if m.entries.contains_key(key) {
        let n = m.get_step(key, now).0;
        let e = m.entries[key];
        lemma_map_sum_remove(m.entries, entry_size(), key);
        lemma_map_sum_remove(m.entries, entry_hits(), key);
        lemma_map_sum_remove(n.entries, entry_size(), key);
        lemma_map_sum_remove(n.entries, entry_hits(), key);
        assert(n.entries.remove(key) =~= m.entries.remove(key));
    }
}

/// Saving keeps the store's counters exact, as long as the sizes still fit
/// in a counter.
pub proof fn lemma_set_keeps_exact<K, V>(
    m: TaskModel<K, V>,
    key: K,
    value: Arc<V>,
    size: usize,
    config: EntryConfigInner,
    now: Instant,
)
    requires
        m.entries.dom().finite(),
        m.exact(),
        m.set_step(key, value, size, config, now).0.size_sum() <= usize::MAX,
    ensures
        m.set_step(key, value, size, config, now).0.exact(),
{
    let n = m.set_step(key, value, size, config, now).0;
    if m.entries.contains_key(key) {
        lemma_map_sum_remove(m.entries, entry_size(), key);
        lemma_map_sum_remove(m.entries, entry_hits(), key);
        lemma_map_sum_remove(n.entries, entry_size(), key);
        lemma_map_sum_remove(n.entries, entry_hits(), key);
        assert(n.entries.remove(key) =~= m.entries.remove(key));
    } else {
        lemma_map_sum_insert(m.entries, entry_size(), key, n.entries[key]);
        lemma_map_sum_insert(m.entries, entry_hits(), key, n.entries[key]);
    }
}

/// A removal keeps the store's counters exact.
pub proof fn lemma_remove_keeps_exact<K, V>(m: TaskModel<K, V>, key: K)
    requires
        m.entries.dom().finite(),
        m.exact(),
    ensures
        m.remove_step(key).0.exact(),
{
    if m.entries.contains_key(key) {
        lemma_map_sum_remove(m.entries, entry_size(), key);
        lemma_map_sum_remove(m.entries, entry_hits(), key);
    }
}

/// A timeout check keeps the store's counters exact.
pub proof fn lemma_check_timeout_keeps_exact<K, V>(m: TaskModel<K, V>, now: Instant)
    requires
        m.entries.dom().finite(),
        m.exact(),
    ensures
        m.check_timeout_step(now).0.exact(),
{
    lemma_map_sum_split(m.entries, now, entry_size());
    lemma_map_sum_split(m.entries, now, entry_hits());
}

/// Splitting a finite map by a hit threshold splits its sum.
pub proof fn lemma_map_sum_split_hits<K, V>(
    m: Map<K, CacheEntry<V>>,
    t: nat,
    f: spec_fn(CacheEntry<V>) -> nat,
)
    requires
        m.dom().finite(),
    ensures
        map_sum(m, f) == map_sum(hits_below(m, t), f) + map_sum(hits_from(m, t), f),
        hits_below(m, t).dom().finite(),
        hits_from(m, t).dom().finite(),
    decreases m.len(),
{
    assert(hits_below(m, t).dom().subset_of(m.dom()));
    assert(hits_from(m, t).dom().subset_of(m.dom()));
    vstd::set_lib::lemma_set_subset_finite(m.dom(), hits_below(m, t).dom());
    vstd::set_lib::lemma_set_subset_finite(m.dom(), hits_from(m, t).dom());
    if m.len() == 0 {
        assert(hits_below(m, t).dom() =~= Set::empty());
        assert(hits_from(m, t).dom() =~= Set::empty());
    } else {
        let k = m.dom().choose();
        let r = m.remove(k);
        lemma_map_sum_remove(m, f, k);
        lemma_map_sum_split_hits(r, t, f);
        if m[k].total_hits < t {
            assert(hits_from(m, t) =~= hits_from(r, t));
            assert(hits_below(m, t) =~= hits_below(r, t).insert(k, m[k]));
            lemma_map_sum_insert(hits_below(r, t), f, k, m[k]);
        } else {
            assert(hits_below(m, t) =~= hits_below(r, t));
            assert(hits_from(m, t) =~= hits_from(r, t).insert(k, m[k]));
            lemma_map_sum_insert(hits_from(r, t), f, k, m[k]);
        }
    }
}

/// On exact counters, the rounds of a cleanup end at or below the goal, keep
/// a part of the entries unchanged, and drop exactly the bytes of the rest.
pub proof fn lemma_cleanup_rounds<K, V>(
    m: Map<K, CacheEntry<V>>,
    local: usize,
    deleted: usize,
    t: nat,
    goal: usize,
)
    requires
        m.dom().finite(),
        local == map_sum(m, entry_size()),
        deleted + local <= usize::MAX,
        t <= u128::MAX + 1,
    ensures
        ({
            let r = cleanup_rounds(m, local, deleted, t, goal);
            &&& r.0.dom().finite()
            &&& r.0.submap_of(m)
            &&& r.1 == map_sum(r.0, entry_size())
            &&& r.1 <= goal
            &&& r.2 + r.1 == deleted + local
        }),
    decreases u128::MAX + 1 - t,
{
    if local <= goal || m.len() == 0 {
        if m.len() == 0 {
            lemma_map_sum_empty(m, entry_size());
        }
    } else {
        lemma_map_sum_split_hits(m, t, entry_size());
        let kept = hits_from(m, t);
        let below = map_sum(hits_below(m, t), entry_size());
        let d = clamp_usize(below);
        assert(d == below);
        let local2 = sub_or_zero_usize(local as int, d as int);
        let deleted2 = clamp_add_usize(deleted as int, d as int);
        assert(local2 == local - below);
        assert(deleted2 == deleted + below);
        assert(kept.submap_of(m));
        if t > u128::MAX {
            assert(kept.dom() =~= Set::empty());
            lemma_map_sum_empty(kept, entry_size());
            assert(cleanup_rounds(m, local, deleted, t, goal) == (kept, local2, deleted2));
        } else {
            assert(cleanup_rounds(m, local, deleted, t, goal) == cleanup_rounds(
                kept,
                local2,
                deleted2,
                next_threshold(t),
                goal,
            ));
            lemma_cleanup_rounds(kept, local2, deleted2, next_threshold(t), goal);
            let r = cleanup_rounds(kept, local2, deleted2, next_threshold(t), goal);
            assert forall|k: K| #[trigger] r.0.contains_key(k) implies m.contains_key(k) && r.0[k]
                == m[k] by {
                assert(kept.contains_key(k));
            }
        }
    }
}

/// On exact counters, a cleanup halves the store's own size (at least), keeps
/// some of the entries unchanged but for their hit counts, which become zero,
/// keeps the counters exact, and moves a shared total that counts this
/// store's size (beside `other` bytes of other stores) so that it counts the
/// store's new size.
pub proof fn lemma_cleanup_halves<K, V>(m: TaskModel<K, V>, total: usize, other: nat)
    requires
        m.entries.dom().finite(),
        m.exact(),
        total == other + m.local_size,
    ensures
        m.cleanup_step().0.local_size <= m.local_size / 2 || m.entries.len() == 0,
        m.cleanup_step().0.exact(),
        m.cleanup_step().0.entries.dom().subset_of(m.entries.dom()),
        forall|k: K|
            #[trigger] m.cleanup_step().0.entries.contains_key(k) ==> m.cleanup_step().0.entries[k]
                == (CacheEntry { total_hits: 0, ..m.entries[k] }),
        m.cleanup_step().1.applied(total) == other + m.cleanup_step().0.local_size,
{
    if m.entries.len() > 0 {
        let t0 = first_threshold_spec(m.total_hits, m.entries.len());
        lemma_cleanup_rounds(m.entries, m.local_size, 0, t0, m.local_size / 2);
        let r = cleanup_rounds(m.entries, m.local_size, 0, t0, m.local_size / 2);
        let n = m.cleanup_step().0;
        assert(n.entries.dom() =~= r.0.dom());
        lemma_map_sum_congruent(n.entries, r.0, entry_size());
        lemma_map_sum_zero(n.entries, entry_hits());
    }
}

/// Saving moves a shared total that counts this store's size (beside
/// `other` bytes of other stores) so that it counts the store's new size,
/// as long as the new total fits in a counter.
pub proof fn lemma_set_tracks_total<K, V>(
    m: TaskModel<K, V>,
    key: K,
    value: Arc<V>,
    size: usize,
    config: EntryConfigInner,
    now: Instant,
    total: usize,
    other: nat,
)
    requires
        m.entries.dom().finite(),
        m.exact(),
        total == other + m.local_size,
        other + m.set_step(key, value, size, config, now).0.size_sum() <= usize::MAX,
    ensures
        m.set_step(key, value, size, config, now).1.applied(total) == other + m.set_step(
            key,
            value,
            size,
            config,
            now,
        ).0.local_size,
{
    lemma_set_keeps_exact(m, key, value, size, config, now);
    if m.entries.contains_key(key) {
        lemma_map_sum_remove(m.entries, entry_size(), key);
    }
}

/// A removal moves a shared total that counts this store's size (beside
/// `other` bytes of other stores) so that it counts the store's new size.
pub proof fn lemma_remove_tracks_total<K, V>(m: TaskModel<K, V>, key: K, total: usize, other: nat)
    requires
        m.entries.dom().finite(),
        m.exact(),
        total == other + m.local_size,
    ensures
        m.remove_step(key).2.applied(total) == other + m.remove_step(key).0.local_size,
{
    lemma_remove_keeps_exact(m, key);
    if m.entries.contains_key(key) {
        lemma_map_sum_remove(m.entries, entry_size(), key);
    }
}

/// A timeout check moves a shared total that counts this store's size
/// (beside `other` bytes of other stores) so that it counts the store's new
/// size.
pub proof fn lemma_check_timeout_tracks_total<K, V>(
    m: TaskModel<K, V>,
    now: Instant,
    total: usize,
    other: nat,
)
    requires
        m.entries.dom().finite(),
        m.exact(),
        total == other + m.local_size,
    ensures
        m.check_timeout_step(now).1.applied(total) == other + m.check_timeout_step(now).0.local_size,
{
    lemma_check_timeout_keeps_exact(m, now);
    lemma_map_sum_split(m.entries, now, entry_size());
}

/// When a store goes away, a shared total that counts its size (beside
/// `other` bytes of other stores) comes back to `other`.
pub proof fn lemma_release_tracks_total<K, V>(m: TaskModel<K, V>, total: usize, other: nat)
    requires
        total == other + m.local_size,
    ensures
        (SizeDelta { released: m.local_size, added: 0 }).applied(total) == other,
{
}

/// The first round of a cleanup drops exactly the entries with fewer hits
/// than the average number of hits per entry, or than 10 where the average
/// is larger. Where that round already brings a store with exact counters
/// (and a size above zero) to at most half its size, the cleanup keeps
/// exactly the entries with at least that many hits, and releases exactly
/// the sizes of the others.
pub proof fn lemma_cleanup_first_round<K, V>(m: TaskModel<K, V>, k: K)
    requires
        m.entries.dom().finite(),
        m.exact(),
        m.entries.len() > 0,
        m.local_size > 0,
        ({
            let average = m.total_hits as nat / m.entries.len();
            let t: nat = if average < 10 {
                average
            } else {
                10
            };
            let dropped = Map::new(
                |j: K| m.entries.contains_key(j) && m.entries[j].total_hits < t,
                |j: K| m.entries[j],
            );
            m.local_size - map_sum(dropped, entry_size()) <= m.local_size / 2
        }),
    ensures
        ({
            let average = m.total_hits as nat / m.entries.len();
            let t: nat = if average < 10 {
                average
            } else {
                10
            };
            let dropped = Map::new(
                |j: K| m.entries.contains_key(j) && m.entries[j].total_hits < t,
                |j: K| m.entries[j],
            );
            &&& m.cleanup_step().0.entries.contains_key(k) <==> (m.entries.contains_key(k)
                && m.entries[k].total_hits >= t)
            &&& m.cleanup_step().1.released == map_sum(dropped, entry_size())
            &&& m.cleanup_step().1.added == 0
        }),
{
    let t = first_threshold_spec(m.total_hits, m.entries.len());
    let goal = (m.local_size / 2) as usize;
    lemma_map_sum_split_hits(m.entries, t, entry_size());
    let below = map_sum(hits_below(m.entries, t), entry_size());
    assert(hits_below(m.entries, t) =~= Map::new(
        |j: K| m.entries.contains_key(j) && m.entries[j].total_hits < t,
        |j: K| m.entries[j],
    ));
    let local2 = sub_or_zero_usize(m.local_size as int, clamp_usize(below) as int);
    let deleted2 = clamp_add_usize(0, clamp_usize(below) as int);
    assert(local2 <= goal);
    assert(cleanup_rounds(m.entries, m.local_size, 0, t, goal) == cleanup_rounds(
        hits_from(m.entries, t),
        local2,
        deleted2,
        next_threshold(t),
        goal,
    ));
    assert(cleanup_rounds(hits_from(m.entries, t), local2, deleted2, next_threshold(t), goal) == (
    hits_from(m.entries, t), local2, deleted2));
}

/// Removing the entry under `key` hands out its value, takes out exactly that
/// entry, leaves every other key as it was, and releases exactly its size (a
/// removal of a missing key changes nothing and releases nothing).
pub proof fn lemma_remove_takes_only_its_key<K, V>(m: TaskModel<K, V>, key: K, other: K)
    requires
        other != key,
    ensures
        !m.remove_step(key).0.entries.contains_key(key),
        m.remove_step(key).0.entries.contains_key(other) == m.entries.contains_key(other),
        m.entries.contains_key(other) ==> m.remove_step(key).0.entries[other] == m.entries[other],
        m.entries.contains_key(key) ==> m.remove_step(key).1 == Some(m.entries[key].inner),
        m.entries.contains_key(key) ==> m.remove_step(key).2 == (SizeDelta {
            released: m.entries[key].size,
            added: 0,
        }),
        m.entries.contains_key(key) && m.local_size >= m.entries[key].size ==> m.remove_step(key).0.local_size
            == m.local_size - m.entries[key].size,
        !m.entries.contains_key(key) ==> m.remove_step(key).0 == m && m.remove_step(key).1 is None
            && m.remove_step(key).2 == (SizeDelta { released: 0, added: 0 }),
{
}

/// Saving under `key` leaves an entry holding the given value, size and
/// expiry settings, last hit at `now`, keeping the hit count of an entry it
/// replaces (zero for a new one); it adds the new size to the store's size
/// after taking off the replaced entry's size, and reports exactly that.
pub proof fn lemma_set_saves_entry<K, V>(
    m: TaskModel<K, V>,
    key: K,
    value: Arc<V>,
    size: usize,
    config: EntryConfigInner,
    now: Instant,
)
    ensures
        ({
            let n = m.set_step(key, value, size, config, now);
            let old_size: nat = if m.entries.contains_key(key) {
                m.entries[key].size as nat
            } else {
                0
            };
            &&& n.0.entries.contains_key(key)
            &&& n.0.entries[key].inner == value
            &&& n.0.entries[key].size == size
            &&& n.0.entries[key].local_config == config
            &&& n.0.entries[key].last_hit == now
            &&& n.0.entries[key].total_hits == (if m.entries.contains_key(key) {
                m.entries[key].total_hits
            } else {
                0
            })
            &&& n.0.total_hits == m.total_hits
            &&& n.1 == (SizeDelta { released: old_size as usize, added: size })
            &&& (m.local_size >= old_size && m.local_size - old_size + size <= usize::MAX) ==> n.0.local_size
                == m.local_size - old_size + size
        }),
{
}

/// A lookup of a present key counts one hit (saturating) on its entry and on
/// the store, records `now` as the entry's last hit, and changes nothing else;
/// a lookup of a missing key changes nothing and finds nothing.
pub proof fn lemma_get_counts_hit<K, V>(m: TaskModel<K, V>, key: K, now: Instant)
    ensures
        m.entries.contains_key(key) ==> ({
            let n = m.get_step(key, now).0;
            let e = m.entries[key];
            &&& m.get_step(key, now).1 == Some(e.inner)
            &&& n.entries[key].total_hits == (if e.total_hits < u128::MAX {
                e.total_hits + 1
            } else {
                e.total_hits as int
            })
            &&& n.total_hits == (if m.total_hits < u128::MAX {
                m.total_hits + 1
            } else {
                m.total_hits as int
            })
            &&& n.entries[key].last_hit == now
            &&& n.entries[key].inner == e.inner
            &&& n.entries[key].size == e.size
            &&& n.entries[key].to_be_deleted == e.to_be_deleted
            &&& n.entries[key].local_config == e.local_config
            &&& n.local_size == m.local_size
        }),
        !m.entries.contains_key(key) ==> m.get_step(key, now) == (m, None::<Arc<V>>),
{
}

/// A timeout check at `now` keeps exactly the entries whose time to live and
/// whose last-hit timeout have both not passed (strictly) at `now`, unchanged;
/// on exact counters it releases exactly the sizes of the others.
pub proof fn lemma_check_timeout_drops_expired<K, V>(m: TaskModel<K, V>, now: Instant, k: K)
    ensures
        m.check_timeout_step(now).0.entries.contains_key(k) <==> ({
            let e = m.entries[k];
            &&& m.entries.contains_key(k)
            &&& !(e.to_be_deleted matches Some(t) && now.nanos > t.nanos)
            &&& !(e.last_hit.nanos + e.local_config.entry_last_hit_timeout.nanos <= u128::MAX
                && now.nanos > e.last_hit.nanos + e.local_config.entry_last_hit_timeout.nanos)
        }),
        m.check_timeout_step(now).0.entries.contains_key(k) ==> m.check_timeout_step(now).0.entries[k]
            == m.entries[k],
        m.check_timeout_step(now).1.added == 0,
{
}

/// The store for one key type and one value type: the entries by key, with
/// the store's own size and hit counters.
pub struct CacheTask<K: Ord, V> {
    store: BTreeMap<K, CacheEntry<V>>,
    local_size: usize,
    total_hits: Hitcounter,
}

impl<K: Ord, V> View for CacheTask<K, V> {
    type V = TaskModel<K, V>;

    closed spec fn view(&self) -> TaskModel<K, V> {
        TaskModel { entries: self.store@, local_size: self.local_size, total_hits: self.total_hits }
    }
}

impl<K: Ord, V> CacheTask<K, V> {
    /// The keys must be totally ordered by `Ord`, as for any `BTreeMap`.
    #[verifier::type_invariant]
    closed spec fn keys_ordered(self) -> bool {
        obeys_cmp::<K>()
    }

    /// An empty store.
    pub fn new() -> (t: Self)
        requires
            obeys_cmp::<K>(),
        ensures
            t@.entries == Map::<K, CacheEntry<V>>::empty(),
            t@.local_size == 0,
            t@.total_hits == 0,
    {
        CacheTask { store: BTreeMap::new(), local_size: 0, total_hits: 0 }
    }

    /// The entries of every store are finitely many (as the sum lemmas over
    /// a store's model require).
    pub proof fn lemma_entries_finite(&self)
        ensures
            self@.entries.dom().finite(),
    {
    }

    /// The number of entries.
    pub fn len(&self) -> (n: usize)
        ensures
            n == self@.entries.len(),
    {
        proof {
            use_type_invariant(self);
        }
        self.store.len()
    }

    /// Whether the store holds no entry.
    pub fn is_empty(&self) -> (b: bool)
        ensures
            b == (self@.entries.len() == 0),
    {
        self.store.is_empty()
    }

    /// The change to the shared total size when the store goes away: its own
    /// size is taken off (so a total of `other + local_size` becomes `other`).
    pub fn release(&self) -> (d: SizeDelta)
        ensures
            d == (SizeDelta { released: self@.local_size, added: 0 }),
    {
        SizeDelta { released: self.local_size, added: 0 }
    }

    /// Moves the entries out, leaving the store without entries.
    fn take_store(&mut self) -> (store: BTreeMap<K, CacheEntry<V>>)
        ensures
            store@ == old(self).store@,
            final(self).store@ == Map::<K, CacheEntry<V>>::empty(),
            final(self).local_size == old(self).local_size,
            final(self).total_hits == old(self).total_hits,
    {
        proof {
            use_type_invariant(&*self);
        }
        let mut store = BTreeMap::new();
        std::mem::swap(&mut store, &mut self.store);
        store
    }

    /// Looks `key` up at `now`; a present entry counts a hit and its value is
    /// handed out.
    pub fn get(&mut self, key: K, now: Instant) -> (v: Option<Arc<V>>)
        ensures
            (final(self)@, v) == old(self)@.get_step(key, now),
    {
        proof {
            use_type_invariant(&*self);
        }
        let mut store = self.take_store();
        match store.remove(&key) {
            Some(mut entry) => {
                let v = entry.get(now);
                store.insert(key, entry);
                self.store = store;
                self.total_hits = add_hits_clamped(self.total_hits, 1);
                proof {
                    assert(self.store@ =~= old(self)@.entries.insert(key, old(self)@.entries[key].hit(now)));
                }
                Some(v)
            },
            None => {
                self.store = store;
                assert(self.store@ =~= old(self)@.entries);
                None
            },
        }
    }

    /// Saves `value` of `size` bytes under `key` at `now`, replacing what was
    /// there; returns the change to the shared total size.
    pub fn set(&mut self, key: K, value: Arc<V>, size: usize, config: EntryConfigInner, now: Instant) -> (d:
        SizeDelta)
        ensures
            (final(self)@, d) == old(self)@.set_step(key, value, size, config, now),
    {
        proof {
            use_type_invariant(&*self);
        }
        let mut store = self.take_store();
        match store.remove(&key) {
            Some(mut entry) => {
                let current = entry.size();
                self.local_size = add_clamped(sub_or_zero(self.local_size, current), size);
                entry.update(value, size, config, now);
                store.insert(key, entry);
                self.store = store;
                proof {
                    assert(self.store@ =~= old(self)@.entries.insert(
                        key,
                        old(self)@.entries[key].updated(value, size, config, now),
                    ));
                }
                SizeDelta { released: current, added: size }
            },
            None => {
                let entry = CacheEntry::new(value, size, config, now);
                self.local_size = add_clamped(self.local_size, size);
                store.insert(key, entry);
                self.store = store;
                proof {
                    assert(self.store@ =~= old(self)@.entries.insert(
                        key,
                        CacheEntry::created(value, size, config, now),
                    ));
                }
                SizeDelta { released: 0, added: size }
            },
        }
    }

    /// Takes the entry under `key` out and hands out its value; returns the
    /// change to the shared total size too.
    pub fn remove(&mut self, key: &K) -> (r: (Option<Arc<V>>, SizeDelta))
        ensures
            (final(self)@, r.0, r.1) == old(self)@.remove_step(*key),
    {
        proof {
            use_type_invariant(&*self);
        }
        let mut store = self.take_store();
        let removed = store.remove(key);
        self.store = store;
        match removed {
            Some(entry) => {
                let size = entry.size();
                self.local_size = sub_or_zero(self.local_size, size);
                self.total_hits = sub_hits_or_zero(self.total_hits, entry.total_hits());
                (Some(entry.get_direct()), SizeDelta { released: size, added: 0 })
            },
            None => {
                assert(self.store@ =~= old(self)@.entries);
                (None, SizeDelta { released: 0, added: 0 })
            },
        }
    }

    /// Takes the entry under `key` out without handing out its value;
    /// returns the change to the shared total size.
    pub fn delete(&mut self, key: &K) -> (d: SizeDelta)
        ensures
            final(self)@ == old(self)@.remove_step(*key).0,
            d == old(self)@.remove_step(*key).2,
    {
        let (_, d) = self.remove(key);
        d
    }

    /// Drops every entry that has expired at `now`; returns the change to the
    /// shared total size.
    pub fn check_timeout(&mut self, now: Instant) -> (d: SizeDelta)
        ensures
            (final(self)@, d) == old(self)@.check_timeout_step(now),
    {
        proof {
            use_type_invariant(&*self);
        }
        let ghost m = self.store@;
        let mut rest = self.take_store();
        let mut kept: BTreeMap<K, CacheEntry<V>> = BTreeMap::new();
        let mut size_deleted: usize = 0;
        let mut hits_deleted: Hitcounter = 0;
        proof {
            let e0 = expired_part(m.remove_keys(rest@.dom()), now);
            assert(e0.dom() =~= Set::<K>::empty());
            lemma_map_sum_empty(e0, entry_size());
            lemma_map_sum_empty(e0, entry_hits());
        }
        loop
            invariant
                obeys_cmp::<K>(),
                m.dom().finite(),
                rest@.dom().finite(),
                rest@.submap_of(m),
                kept@ == live_part(m.remove_keys(rest@.dom()), now),
                size_deleted == clamp_usize(
                    map_sum(expired_part(m.remove_keys(rest@.dom()), now), entry_size()),
                ),
                hits_deleted == clamp_u128(
                    map_sum(expired_part(m.remove_keys(rest@.dom()), now), entry_hits()),
                ),
            ensures
                rest@.len() == 0,
            decreases rest@.len(),
        {
            let ghost before = rest@;
            match pop_first(&mut rest) {
                Some((k, e)) => {
                    let ghost done = m.remove_keys(before.dom());
                    assert(m.remove_keys(rest@.dom()) =~= done.insert(k, e));
                    assert(!done.contains_key(k));
                    if e.is_expired(now) {
                        size_deleted = add_clamped(size_deleted, e.size());
                        hits_deleted = add_hits_clamped(hits_deleted, e.total_hits());
                        proof {
                            assert(expired_part(done.insert(k, e), now) =~= expired_part(done, now).insert(k, e));
                            assert(live_part(done.insert(k, e), now) =~= live_part(done, now));
                            assert(expired_part(done, now).dom().subset_of(m.dom()));
                            vstd::set_lib::lemma_set_subset_finite(m.dom(), expired_part(done, now).dom());
                            lemma_map_sum_insert(expired_part(done, now), entry_size(), k, e);
                            lemma_map_sum_insert(expired_part(done, now), entry_hits(), k, e);
                        }
                    } else {
                        kept.insert(k, e);
                        proof {
                            assert(expired_part(done.insert(k, e), now) =~= expired_part(done, now));
                            assert(live_part(done.insert(k, e), now) =~= live_part(done, now).insert(k, e));
                        }
                    }
                },
                None => {
                    break;
                },
            }
        }
        proof {
            assert(rest@.dom() =~= Set::empty());
            assert(m.remove_keys(rest@.dom()) =~= m);
        }
        self.store = kept;
        self.local_size = sub_or_zero(self.local_size, size_deleted);
        self.total_hits = sub_hits_or_zero(self.total_hits, hits_deleted);
        SizeDelta { released: size_deleted, added: 0 }
    }

    /// Drops the entries of `store` with fewer hits than the threshold
    /// (`t`, or above every hit count where `beyond` holds); returns the rest
    /// and the bytes dropped (saturating).
    fn evict_below(store: BTreeMap<K, CacheEntry<V>>, t: Hitcounter, beyond: bool) -> (r: (
        BTreeMap<K, CacheEntry<V>>,
        usize,
    ))
        requires
            obeys_cmp::<K>(),
        ensures
            r.0@ == hits_from(store@, threshold(t, beyond)),
            r.1 == clamp_usize(map_sum(hits_below(store@, threshold(t, beyond)), entry_size())),
    {
        let ghost m = store@;
        let ghost ts = threshold(t, beyond);
        let mut rest = store;
        let mut kept: BTreeMap<K, CacheEntry<V>> = BTreeMap::new();
        let mut size_deleted: usize = 0;
        proof {
            let b0 = hits_below(m.remove_keys(rest@.dom()), ts);
            assert(b0.dom() =~= Set::<K>::empty());
            lemma_map_sum_empty(b0, entry_size());
            assert(hits_from(m.remove_keys(rest@.dom()), ts) =~= Map::<K, CacheEntry<V>>::empty());
        }
        loop
            invariant
                obeys_cmp::<K>(),
                m.dom().finite(),
                rest@.dom().finite(),
                rest@.submap_of(m),
                ts == threshold(t, beyond),
                kept@ == hits_from(m.remove_keys(rest@.dom()), ts),
                size_deleted == clamp_usize(
                    map_sum(hits_below(m.remove_keys(rest@.dom()), ts), entry_size()),
                ),
            ensures
                rest@.len() == 0,
            decreases rest@.len(),
        {
            let ghost before = rest@;
            match pop_first(&mut rest) {
                Some((k, e)) => {
                    let ghost done = m.remove_keys(before.dom());
                    assert(m.remove_keys(rest@.dom()) =~= done.insert(k, e));
                    assert(!done.contains_key(k));
                    if !beyond && e.total_hits() >= t {
                        kept.insert(k, e);
                        proof {
                            assert(hits_below(done.insert(k, e), ts) =~= hits_below(done, ts));
                            assert(hits_from(done.insert(k, e), ts) =~= hits_from(done, ts).insert(k, e));
                        }
                    } else {
                        size_deleted = add_clamped(size_deleted, e.size());
                        proof {
                            assert(hits_below(done.insert(k, e), ts) =~= hits_below(done, ts).insert(k, e));
                            assert(hits_from(done.insert(k, e), ts) =~= hits_from(done, ts));
                            assert(hits_below(done, ts).dom().subset_of(m.dom()));
                            vstd::set_lib::lemma_set_subset_finite(m.dom(), hits_below(done, ts).dom());
                            lemma_map_sum_insert(hits_below(done, ts), entry_size(), k, e);
                        }
                    }
                },
                None => {
                    break;
                },
            }
        }
        proof {
            assert(rest@.dom() =~= Set::empty());
            assert(m.remove_keys(rest@.dom()) =~= m);
        }
        (kept, size_deleted)
    }

    /// The size-based cleanup (see `TaskModel::cleanup_step`); returns the
    /// change to the shared total size.
    pub fn cleanup(&mut self) -> (d: SizeDelta)
        ensures
            (final(self)@, d) == old(self)@.cleanup_step(),
    {
        proof {
            use_type_invariant(&*self);
        }
        if self.store.is_empty() {
            return SizeDelta { released: 0, added: 0 };
        }
        let goal = self.local_size / 2;
        let mut t = first_threshold(self.total_hits, self.store.len());
        let mut beyond = false;
        let mut local = self.local_size;
        let mut deleted: usize = 0;
        let mut store = self.take_store();
        let ghost result = cleanup_rounds(store@, local, 0, threshold(t, false), goal);
        loop
            invariant
                obeys_cmp::<K>(),
                store@.dom().finite(),
                cleanup_rounds(store@, local, deleted, threshold(t, beyond), goal) == result,
            ensures
                (store@, local, deleted) == result,
            decreases u128::MAX + 1 - threshold(t, beyond),
        {
            if local <= goal || store.is_empty() {
                break;
            }
            let (kept, d) = Self::evict_below(store, t, beyond);
            store = kept;
            local = sub_or_zero(local, d);
            deleted = add_clamped(deleted, d);
            if beyond {
                proof {
                    assert(store@.dom() =~= Set::empty());
                }
                break;
            }
            let half = t / 2;
            let step: Hitcounter = if half >= 1 {
                half
            } else {
                1
            };
            match t.checked_add(step) {
                Some(n) => {
                    t = n;
                },
                None => {
                    beyond = true;
                },
            }
        }
        let ghost m = store@;
        let mut rest = store;
        let mut reset: BTreeMap<K, CacheEntry<V>> = BTreeMap::new();
        loop
            invariant
                obeys_cmp::<K>(),
                rest@.dom().finite(),
                rest@.submap_of(m),
                reset@ == hits_reset(m.remove_keys(rest@.dom())),
            ensures
                rest@.len() == 0,
            decreases rest@.len(),
        {
            let ghost before = rest@;
            match pop_first(&mut rest) {
                Some((k, mut e)) => {
                    let ghost done = m.remove_keys(before.dom());
                    assert(m.remove_keys(rest@.dom()) =~= done.insert(k, e));
                    e.reset_total_hits();
                    reset.insert(k, e);
                    assert(reset@ =~= hits_reset(m.remove_keys(rest@.dom())));
                },
                None => {
                    break;
                },
            }
        }
        proof {
            assert(rest@.dom() =~= Set::empty());
            assert(m.remove_keys(rest@.dom()) =~= m);
        }
        self.store = reset;
        self.local_size = local;
        self.total_hits = 0;
        SizeDelta { released: deleted, added: 0 }
    }
}

/// The first hit threshold of a cleanup of `len` entries with `total_hits`
/// hits in all.
fn first_threshold(total_hits: Hitcounter, len: usize) -> (t: Hitcounter)
    requires
        len > 0,
    ensures
        t as nat == first_threshold_spec(total_hits, len as nat),
{
    let average = total_hits / (len as Hitcounter);
    if average < 10 {
        average
    } else {
        10
    }
}

} // verus!
