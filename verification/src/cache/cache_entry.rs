use super::{add_hits_clamped, clamp_add_u128, share, Hitcounter};
use crate::entry::EntryConfigInner;
use crate::time::{Duration, Instant};
use std::sync::Arc;
use vstd::prelude::*;

verus! {

/// One entry kept by a store: the shared value, its size in bytes, when it
/// expires and how often it was hit.
pub struct CacheEntry<V> {
    pub inner: Arc<V>,
    pub size: usize,
    /// The end of the entry's time to live, where that instant is representable.
    pub to_be_deleted: Option<Instant>,
    pub last_hit: Instant,
    pub total_hits: Hitcounter,
    pub local_config: EntryConfigInner,
}

impl<V> CacheEntry<V> {
    /// The entry that `new` makes at `now`.
    pub open spec fn created(inner: Arc<V>, size: usize, local_config: EntryConfigInner, now: Instant) -> Self {
        CacheEntry {
            inner,
            size,
            to_be_deleted: now.spec_checked_add(local_config.entry_ttl),
            last_hit: now,
            total_hits: 0,
            local_config,
        }
    }

    /// The entry after `update` at `now`: everything but the hit count is new.
    pub open spec fn updated(self, inner: Arc<V>, size: usize, local_config: EntryConfigInner, now: Instant) -> Self {
        CacheEntry { total_hits: self.total_hits, ..Self::created(inner, size, local_config, now) }
    }

    /// The entry after a hit at `now`.
    pub open spec fn hit(self, now: Instant) -> Self {
        CacheEntry { total_hits: clamp_add_u128(self.total_hits as int, 1), last_hit: now, ..self }
    }

    /// Whether the entry has expired at `now`: its time to live has passed,
    /// or more than its last-hit timeout has passed since its last hit.
    pub open spec fn expired_at(self, now: Instant) -> bool {
        ||| (self.to_be_deleted matches Some(t) && now.nanos > t.nanos)
        ||| (self.last_hit.spec_checked_add(self.local_config.entry_last_hit_timeout) matches Some(t)
            && now.nanos > t.nanos)
    }

    /// A fresh entry created at `now`, with no hits.
    pub fn new(inner: Arc<V>, size: usize, local_config: EntryConfigInner, now: Instant) -> (e: Self)
        ensures
            e == Self::created(inner, size, local_config, now),
    {
        let to_be_deleted = now.checked_add(local_config.entry_ttl);
        CacheEntry { inner, size, to_be_deleted, last_hit: now, total_hits: 0, local_config }
    }

    /// Replaces the value, size and settings, and restarts the entry's clock
    /// at `now`; the hit count stays.
    pub fn update(&mut self, inner: Arc<V>, size: usize, local_config: EntryConfigInner, now: Instant)
        ensures
            *final(self) == old(self).updated(inner, size, local_config, now),
    {
        let to_be_deleted = now.checked_add(local_config.entry_ttl);
        self.inner = inner;
        self.size = size;
        self.to_be_deleted = to_be_deleted;
        self.last_hit = now;
        self.local_config = local_config;
    }

    /// Counts a hit at `now` and hands out the value.
    pub fn get(&mut self, now: Instant) -> (v: Arc<V>)
        ensures
            v == old(self).inner,
            *final(self) == old(self).hit(now),
    {
        self.total_hits = add_hits_clamped(self.total_hits, 1);
        self.last_hit = now;
        self.get_direct()
    }

    /// Hands out the value without counting a hit.
    pub fn get_direct(&self) -> (v: Arc<V>)
        ensures
            v == self.inner,
    {
        share(&self.inner)
    }

    pub fn size(&self) -> (s: usize)
        ensures
            s == self.size,
    {
        self.size
    }

    /// Whether the entry has expired at `now`.
    pub fn is_expired(&self, now: Instant) -> (b: bool)
        ensures
            b == self.expired_at(now),
    {
        if let Some(to_be_deleted) = self.to_be_deleted {
            if now.is_after(&to_be_deleted) {
                return true;
            }
        }
        match self.last_hit.checked_add(self.local_config.entry_last_hit_timeout) {
            Some(timeout) => now.is_after(&timeout),
            None => false,
        }
    }

    pub fn total_hits(&self) -> (h: Hitcounter)
        ensures
            h == self.total_hits,
    {
        self.total_hits
    }

    pub fn reset_total_hits(&mut self)
        ensures
            *final(self) == (CacheEntry { total_hits: 0, ..*old(self) }),
    {
        self.total_hits = 0;
    }
}

/// An entry is not expired at the instant it is created, nor at the instant
/// it is saved again: its time to live and its last-hit timeout both start
/// then.
pub proof fn lemma_fresh_entry_alive<V>(
    e: CacheEntry<V>,
    inner: Arc<V>,
    size: usize,
    local_config: EntryConfigInner,
    now: Instant,
)
    ensures
        !CacheEntry::created(inner, size, local_config, now).expired_at(now),
        !e.updated(inner, size, local_config, now).expired_at(now),
{
}

/// After a hit at `now`, an entry is expired at `now` only where its time to
/// live has passed.
pub proof fn lemma_hit_resets_last_hit_timeout<V>(e: CacheEntry<V>, now: Instant)
    ensures
        e.hit(now).expired_at(now) == (e.to_be_deleted matches Some(t) && now.nanos > t.nanos),
{
}

/// Whether an entry last hit at `last_hit`, whose time to live ends at
/// `deadline` (where representable), with last-hit timeout `timeout`, has
/// expired at `now`, written out in nanoseconds.
pub open spec fn expired_by_counts(deadline: Option<Instant>, last_hit: Instant, timeout: Duration, now: Instant) -> bool {
    ||| (deadline matches Some(t) && now.nanos > t.nanos)
    ||| (last_hit.nanos + timeout.nanos <= u128::MAX && now.nanos > last_hit.nanos + timeout.nanos)
}

/// A new entry holds the given value, size and settings, has no hits, was
/// last hit at `now`, and has expired at `t` exactly when `t` lies more than
/// its time to live or more than its last-hit timeout after `now`.
pub proof fn lemma_created_entry<V>(
    inner: Arc<V>,
    size: usize,
    local_config: EntryConfigInner,
    now: Instant,
    t: Instant,
)
    ensures
        ({
            let e = CacheEntry::created(inner, size, local_config, now);
            &&& e.inner == inner
            &&& e.size == size
            &&& e.local_config == local_config
            &&& e.last_hit == now
            &&& e.total_hits == 0
            &&& e.to_be_deleted == (if now.nanos + local_config.entry_ttl.nanos <= u128::MAX {
                Some(Instant { nanos: (now.nanos + local_config.entry_ttl.nanos) as u128 })
            } else {
                None
            })
            &&& e.expired_at(t) == ((now.nanos + local_config.entry_ttl.nanos <= u128::MAX && t.nanos
                > now.nanos + local_config.entry_ttl.nanos) || (now.nanos
                + local_config.entry_last_hit_timeout.nanos <= u128::MAX && t.nanos > now.nanos
                + local_config.entry_last_hit_timeout.nanos))
        }),
{
}

/// Saving again over an entry gives it the new value, size and settings,
/// restarts its clock at `now` and keeps its hit count: it has then expired
/// at `t` exactly when `t` lies more than the new time to live or more than
/// the new last-hit timeout after `now`.
pub proof fn lemma_updated_entry<V>(
    e: CacheEntry<V>,
    inner: Arc<V>,
    size: usize,
    local_config: EntryConfigInner,
    now: Instant,
    t: Instant,
)
    ensures
        ({
            let u = e.updated(inner, size, local_config, now);
            &&& u.inner == inner
            &&& u.size == size
            &&& u.local_config == local_config
            &&& u.last_hit == now
            &&& u.total_hits == e.total_hits
            &&& u.expired_at(t) == ((now.nanos + local_config.entry_ttl.nanos <= u128::MAX && t.nanos
                > now.nanos + local_config.entry_ttl.nanos) || (now.nanos
                + local_config.entry_last_hit_timeout.nanos <= u128::MAX && t.nanos > now.nanos
                + local_config.entry_last_hit_timeout.nanos))
        }),
{
}

/// A hit counts one more hit (saturating), records `now` as the last hit and
/// changes nothing else.
pub proof fn lemma_hit_entry<V>(e: CacheEntry<V>, now: Instant)
    ensures
        e.hit(now).total_hits == (if e.total_hits < u128::MAX {
            e.total_hits + 1
        } else {
            e.total_hits as int
        }),
        e.hit(now).last_hit == now,
        e.hit(now).inner == e.inner,
        e.hit(now).size == e.size,
        e.hit(now).to_be_deleted == e.to_be_deleted,
        e.hit(now).local_config == e.local_config,
{
}

/// An entry has expired at `now` exactly when its time to live has passed, or
/// more than its last-hit timeout has passed since its last hit.
pub proof fn lemma_expired_at<V>(e: CacheEntry<V>, now: Instant)
    ensures
        e.expired_at(now) == expired_by_counts(
            e.to_be_deleted,
            e.last_hit,
            e.local_config.entry_last_hit_timeout,
            now,
        ),
{
}

} // verus!
