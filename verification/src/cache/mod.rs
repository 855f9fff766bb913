//! The cache's own logic: stored entries, the per-type stores, the registry of
//! stores, the configuration and the decisions of the cache front end.

use std::collections::BTreeMap;
use std::sync::Arc;
use vstd::laws_cmp::obeys_cmp;
use vstd::prelude::*;

pub mod cache_entry;
pub mod config;
pub mod main_task;
pub mod task;

verus! {

/// The different errors which can be returned by the cache.
#[derive(Clone, Copy, Debug, PartialEq, Eq, Hash, Structural)]
pub enum Error {
    /// The background task managing the different data stores is no longer
    /// available.
    MainUnreachable,
    /// A background task managing a specific data store can not be reached.
    StoreUnreachable,
    /// The conversion from a boxed trait object to its concrete type failed.
    ConvertionFailed,
    /// The maximum size of the cache has been reached, so adding more objects
    /// is not possible.
    MaxSizeReached,
    /// Some unexpected condition was met, indicating an implementation error.
    Internal,
    /// Some unexpected condition was met.
    Other,
}

impl Error {
    /// The text that describes the error.
    pub open spec fn spec_message(self) -> Seq<char> {
        match self {
            Error::MainUnreachable => "Unreachable (Cache main background task paniced)"@,
            Error::StoreUnreachable => "StoreUnreachable (A cache store background task paniced)"@,
            Error::ConvertionFailed => "ConvertionFailed (A boxed trait object could not be converted to its original type)"@,
            Error::MaxSizeReached => "MaxSizeReached (Adding the object was not possible duo to memory exhaustion protection)"@,
            Error::Internal => "Internal (Implementation error)"@,
            Error::Other => "Other (Unknown error)"@,
        }
    }

    /// The text that describes the error.
    pub fn message(&self) -> (m: &'static str)
        ensures
            m@ == self.spec_message(),
    {
        match self {
            Error::MainUnreachable => "Unreachable (Cache main background task paniced)",
            Error::StoreUnreachable => "StoreUnreachable (A cache store background task paniced)",
            Error::ConvertionFailed => "ConvertionFailed (A boxed trait object could not be converted to its original type)",
            Error::MaxSizeReached => "MaxSizeReached (Adding the object was not possible duo to memory exhaustion protection)",
            Error::Internal => "Internal (Implementation error)",
            Error::Other => "Other (Unknown error)",
        }
    }
}

/// Whether a value of `size` bytes may be added to a cache that holds
/// `total_size` bytes and whose values may occupy `max_total_size` bytes: the
/// sum must not exceed the limit. (The value is assumed to be new, so this
/// may be stricter than necessary.)
pub fn check_capacity(total_size: usize, size: usize, max_total_size: usize) -> (r: Result<(), Error>)
    ensures
        r == (if total_size + size <= max_total_size {
            Ok(())
        } else {
            Err(Error::MaxSizeReached)
        }),
{
    let total = match total_size.checked_add(size) {
        Some(t) => t,
        None => {
            return Err(Error::MaxSizeReached);
        },
    };
    if total > max_total_size {
        return Err(Error::MaxSizeReached);
    }
    Ok(())
}

/// A reply of a store, or of the registry on a store's behalf, to a request
/// of the cache front end.
#[derive(Debug, PartialEq, Eq)]
pub enum Reply<T> {
    /// The value found by a lookup, if any.
    Get(Option<T>),
    /// The value taken out by a removal, if any.
    Remove(Option<T>),
    /// There is no store for the request's key type and value type.
    StoreUnknown,
    /// The request was carried out.
    Done,
    /// The request failed.
    Failed(Error),
}

/// What a lookup returns for the reply `reply`.
pub fn get_outcome<T>(reply: Reply<T>) -> (r: Result<Option<T>, Error>)
    ensures
        r == (match reply {
            Reply::Get(v) => Ok(v),
            Reply::Failed(e) => Err(e),
            _ => Err(Error::Internal),
        }),
{
    match reply {
        Reply::Get(v) => Ok(v),
        Reply::Failed(e) => Err(e),
        _ => Err(Error::Internal),
    }
}

/// What a removal returns for the reply `reply`.
pub fn remove_outcome<T>(reply: Reply<T>) -> (r: Result<Option<T>, Error>)
    ensures
        r == (match reply {
            Reply::Remove(v) => Ok(v),
            Reply::Failed(e) => Err(e),
            _ => Err(Error::Internal),
        }),
{
    match reply {
        Reply::Remove(v) => Ok(v),
        Reply::Failed(e) => Err(e),
        _ => Err(Error::Internal),
    }
}

/// What a deletion or a clearing returns for the reply `reply`.
pub fn done_outcome<T>(reply: Reply<T>) -> (r: Result<(), Error>)
    ensures
        r == (match reply {
            Reply::Done => Ok(()),
            Reply::Failed(e) => Err(e),
            _ => Err(Error::Internal),
        }),
{
    match reply {
        Reply::Done => Ok(()),
        Reply::Failed(e) => Err(e),
        _ => Err(Error::Internal),
    }
}

/// What saving returns for the first reply `reply`, or `None` where there is
/// no store yet: then the store is made and the request is sent again.
pub fn set_outcome<T>(reply: Reply<T>) -> (r: Option<Result<(), Error>>)
    ensures
        r == (match reply {
            Reply::StoreUnknown => None,
            Reply::Done => Some(Ok(())),
            Reply::Failed(e) => Some(Err(e)),
            _ => Some(Err(Error::Internal)),
        }),
{
    match reply {
        Reply::StoreUnknown => None,
        Reply::Done => Some(Ok(())),
        Reply::Failed(e) => Some(Err(e)),
        _ => Some(Err(Error::Internal)),
    }
}

/// What saving returns for the reply `reply` to the request sent again after
/// the store was made.
pub fn retried_set_outcome<T>(reply: Reply<T>) -> (r: Result<(), Error>)
    ensures
        r == (match reply {
            Reply::StoreUnknown => Err(Error::StoreUnreachable),
            Reply::Done => Ok(()),
            Reply::Failed(e) => Err(e),
            _ => Err(Error::Internal),
        }),
{
    match reply {
        Reply::StoreUnknown => Err(Error::StoreUnreachable),
        Reply::Done => Ok(()),
        Reply::Failed(e) => Err(e),
        _ => Err(Error::Internal),
    }
}

/// The counter type for hits on entries.
pub type Hitcounter = u128;

/// `a + b`, or `usize::MAX` where the sum does not fit.
pub open spec fn clamp_add_usize(a: int, b: int) -> usize {
    if a + b <= usize::MAX {
        (a + b) as usize
    } else {
        usize::MAX
    }
}

/// `a - b`, or `0` where the difference is negative.
pub open spec fn sub_or_zero_usize(a: int, b: int) -> usize {
    if a >= b {
        (a - b) as usize
    } else {
        0
    }
}

/// `a + b`, or `u128::MAX` where the sum does not fit.
pub open spec fn clamp_add_u128(a: int, b: int) -> u128 {
    if a + b <= u128::MAX {
        (a + b) as u128
    } else {
        u128::MAX
    }
}

/// `a - b`, or `0` where the difference is negative.
pub open spec fn sub_or_zero_u128(a: int, b: int) -> u128 {
    if a >= b {
        (a - b) as u128
    } else {
        0
    }
}

/// Adds, saturating at `usize::MAX`.
pub fn add_clamped(a: usize, b: usize) -> (r: usize)
    ensures
        r == clamp_add_usize(a as int, b as int),
{
    match a.checked_add(b) {
        Some(s) => s,
        None => usize::MAX,
    }
}

/// Subtracts, stopping at zero.
pub fn sub_or_zero(a: usize, b: usize) -> (r: usize)
    ensures
        r == sub_or_zero_usize(a as int, b as int),
{
    match a.checked_sub(b) {
        Some(d) => d,
        None => 0,
    }
}

/// Adds hit counts, saturating at `u128::MAX`.
pub fn add_hits_clamped(a: Hitcounter, b: Hitcounter) -> (r: Hitcounter)
    ensures
        r == clamp_add_u128(a as int, b as int),
{
    match a.checked_add(b) {
        Some(s) => s,
        None => Hitcounter::MAX,
    }
}

/// Subtracts hit counts, stopping at zero.
pub fn sub_hits_or_zero(a: Hitcounter, b: Hitcounter) -> (r: Hitcounter)
    ensures
        r == sub_or_zero_u128(a as int, b as int),
{
    match a.checked_sub(b) {
        Some(d) => d,
        None => 0,
    }
}

/// The sum of `f` over the values of a finite map.
pub open spec fn map_sum<K, T>(m: Map<K, T>, f: spec_fn(T) -> nat) -> nat
    decreases m.len(),
{
    if m.dom().finite() && m.len() > 0 {
        let k = m.dom().choose();
        f(m[k]) + map_sum(m.remove(k), f)
    } else {
        0
    }
}

/// Any one key of a finite map can be taken out of its sum first.
pub proof fn lemma_map_sum_remove<K, T>(m: Map<K, T>, f: spec_fn(T) -> nat, k: K)
    requires
        m.dom().finite(),
        m.contains_key(k),
    ensures
        map_sum(m, f) == f(m[k]) + map_sum(m.remove(k), f),
    decreases m.len(),
{
    let c = m.dom().choose();
    if c != k {
        lemma_map_sum_remove(m.remove(c), f, k);
        lemma_map_sum_remove(m.remove(k), f, c);
        assert(m.remove(c).remove(k) =~= m.remove(k).remove(c));
    }
}

/// Adding a new key to a finite map adds its value to the sum.
pub proof fn lemma_map_sum_insert<K, T>(m: Map<K, T>, f: spec_fn(T) -> nat, k: K, t: T)
    requires
        m.dom().finite(),
        !m.contains_key(k),
    ensures
        map_sum(m.insert(k, t), f) == map_sum(m, f) + f(t),
{
    lemma_map_sum_remove(m.insert(k, t), f, k);
    assert(m.insert(k, t).remove(k) =~= m);
}

/// The sum over the empty map is zero.
pub proof fn lemma_map_sum_empty<K, T>(m: Map<K, T>, f: spec_fn(T) -> nat)
    requires
        m.dom().finite(),
        m.len() == 0,
    ensures
        map_sum(m, f) == 0,
{
}

/// Two finite maps with the same keys, whose values agree under `f`, have
/// the same sum.
pub proof fn lemma_map_sum_congruent<K, T>(m1: Map<K, T>, m2: Map<K, T>, f: spec_fn(T) -> nat)
    requires
        m1.dom().finite(),
        m1.dom() == m2.dom(),
        forall|k: K| m1.contains_key(k) ==> f(#[trigger] m1[k]) == f(m2[k]),
    ensures
        map_sum(m1, f) == map_sum(m2, f),
    decreases m1.len(),
{
    if m1.len() > 0 {
        let k = m1.dom().choose();
        lemma_map_sum_remove(m1, f, k);
        lemma_map_sum_remove(m2, f, k);
        assert(m1.remove(k).dom() =~= m2.remove(k).dom());
        lemma_map_sum_congruent(m1.remove(k), m2.remove(k), f);
    }
}

/// A finite map whose values are all zero under `f` sums to zero.
pub proof fn lemma_map_sum_zero<K, T>(m: Map<K, T>, f: spec_fn(T) -> nat)
    requires
        m.dom().finite(),
        forall|k: K| m.contains_key(k) ==> f(#[trigger] m[k]) == 0,
    ensures
        map_sum(m, f) == 0,
    decreases m.len(),
{
    if m.len() > 0 {
        let k = m.dom().choose();
        lemma_map_sum_remove(m, f, k);
        lemma_map_sum_zero(m.remove(k), f);
    }
}

/// How the shared total size of a cache changes: first `released` bytes are
/// taken off (stopping at zero), then `added` bytes are put on (saturating).
#[derive(Clone, Copy, Debug, PartialEq, Eq, Structural)]
pub struct SizeDelta {
    pub released: usize,
    pub added: usize,
}

impl SizeDelta {
    /// The new total for the old total `total`.
    pub open spec fn applied(self, total: usize) -> usize {
        clamp_add_usize(sub_or_zero_usize(total as int, self.released as int) as int, self.added as int)
    }

    /// The new total for the old total `total`.
    pub fn apply(&self, total: usize) -> (r: usize)
        ensures
            r == self.applied(total),
    {
        add_clamped(sub_or_zero(total, self.released), self.added)
    }
}

/// Applying a change to a total takes the released bytes off, stopping at
/// zero, and then puts the added bytes on, stopping at `usize::MAX`: where
/// neither limit is reached the new total is `total - released + added`.
pub proof fn lemma_size_delta_applied(d: SizeDelta, total: usize)
    ensures
        total >= d.released && total - d.released + d.added <= usize::MAX ==> d.applied(total) == total
            - d.released + d.added,
        total < d.released ==> d.applied(total) == d.added,
        total >= d.released && total - d.released + d.added > usize::MAX ==> d.applied(total)
            == usize::MAX,
        d.released == 0 && d.added == 0 ==> d.applied(total) == total,
{
}

/// `BTreeMap::pop_first`: removes the entry with the smallest key and returns
/// it, or returns `None` when the map is empty. The contract claims only that
/// the entry handed out was in the map and is gone from it afterwards (not
/// that its key is the smallest).
#[verifier::external_body]
pub(crate) fn pop_first<K: Ord, T>(m: &mut BTreeMap<K, T>) -> (r: Option<(K, T)>)
    requires
        obeys_cmp::<K>(),
    ensures
        match r {
            Some((k, t)) => {
                &&& old(m)@.contains_key(k)
                &&& old(m)@[k] == t
                &&& final(m)@ == old(m)@.remove(k)
            },
            None => {
                &&& old(m)@.len() == 0
                &&& final(m)@ == old(m)@
            },
        },
{
    m.pop_first()
}

/// `Arc::clone`: another pointer to the same allocation.
#[verifier::external_body]
pub(crate) fn share<V>(a: &Arc<V>) -> (r: Arc<V>)
    ensures
        r == *a,
{
    Arc::clone(a)
}

} // verus!
