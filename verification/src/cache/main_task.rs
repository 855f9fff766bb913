use super::config::Config;
use super::{pop_first, Error, Reply};
use std::collections::BTreeMap;
use vstd::laws_cmp::obeys_cmp;
use vstd::laws_eq::obeys_concrete_eq;
use vstd::prelude::*;
use vstd::std_specs::btree::spec_keys_iter;
use vstd::std_specs::cmp::PartialEqSpec;
use vstd::std_specs::iter::IteratorSpec;

verus! {

/// The kinds of request the registry forwards to a store.
#[derive(Clone, Copy, Debug, PartialEq, Eq, Structural)]
pub enum RequestKind {
    Get,
    Put,
    Remove,
    Delete,
}

/// The reply to a request of kind `kind` whose store the registry does not
/// have or cannot reach: lookups and removals find nothing, saving asks for
/// the store to be made, and deletion fails.
pub fn unrouted_reply<T>(kind: RequestKind) -> (r: Reply<T>)
    ensures
        r == (match kind {
            RequestKind::Get => Reply::<T>::Get(None),
            RequestKind::Put => Reply::<T>::StoreUnknown,
            RequestKind::Remove => Reply::<T>::Remove(None),
            RequestKind::Delete => Reply::<T>::Failed(Error::StoreUnreachable),
        }),
{
    match kind {
        RequestKind::Get => Reply::Get(None),
        RequestKind::Put => Reply::StoreUnknown,
        RequestKind::Remove => Reply::Remove(None),
        RequestKind::Delete => Reply::Failed(Error::StoreUnreachable),
    }
}

/// The stores of `m` whose key type is not `key_type`.
pub open spec fn without_key_type<I, H>(m: Map<(I, I), H>, key_type: I) -> Map<(I, I), H> {
    Map::new(|id: (I, I)| m.contains_key(id) && id.0 != key_type, |id: (I, I)| m[id])
}

/// The stores of `m` whose value type is not `value_type`.
pub open spec fn without_value_type<I, H>(m: Map<(I, I), H>, value_type: I) -> Map<(I, I), H> {
    Map::new(|id: (I, I)| m.contains_key(id) && id.1 != value_type, |id: (I, I)| m[id])
}

/// A store registered under an id is found under that id, and registering it
/// leaves the stores under every other id as they were: values saved under
/// one combination of key type and value type are kept apart from all others.
pub proof fn lemma_stores_kept_apart<I, H>(m: Map<(I, I), H>, id: (I, I), handle: H, other: (I, I))
    requires
        other != id,
    ensures
        m.insert(id, handle).contains_key(id),
        m.insert(id, handle)[id] == handle,
        m.insert(id, handle).contains_key(other) == m.contains_key(other),
        m.contains_key(other) ==> m.insert(id, handle)[other] == m[other],
{
}

/// Clearing a key type forgets exactly the stores of that key type; clearing
/// a value type forgets exactly the stores of that value type.
pub proof fn lemma_clear_by_type<I, H>(m: Map<(I, I), H>, key_type: I, value_type: I, id: (I, I))
    ensures
        without_key_type(m, key_type).contains_key(id) <==> (m.contains_key(id) && id.0 != key_type),
        without_value_type(m, value_type).contains_key(id) <==> (m.contains_key(id) && id.1
            != value_type),
        without_key_type(m, key_type).contains_key(id) ==> without_key_type(m, key_type)[id] == m[id],
        without_value_type(m, value_type).contains_key(id) ==> without_value_type(m, value_type)[id]
            == m[id],
{
}

/// The registry of the stores of a cache: for each combination of key type
/// and value type (an id of each), the handle by which its store is reached;
/// and the cache's configuration.
pub struct CacheMainTask<I: Ord, H> {
    caches: BTreeMap<(I, I), H>,
    config: Config,
}

impl<I: Ord, H> View for CacheMainTask<I, H> {
    type V = Map<(I, I), H>;

    closed spec fn view(&self) -> Map<(I, I), H> {
        self.caches@
    }
}

impl<I: Ord, H> CacheMainTask<I, H> {
    /// The ids are totally ordered, and equal exactly when they are the same.
    #[verifier::type_invariant]
    closed spec fn ids_ordered(self) -> bool {
        &&& obeys_cmp::<(I, I)>()
        &&& obeys_concrete_eq::<I>()
    }

    /// The cache's configuration.
    pub closed spec fn config_of(&self) -> Config {
        self.config
    }

    /// A registry with no store.
    pub fn new_with_config(config: Config) -> (t: Self)
        requires
            obeys_cmp::<(I, I)>(),
            obeys_concrete_eq::<I>(),
        ensures
            t@ == Map::<(I, I), H>::empty(),
            t.config_of() == config,
    {
        CacheMainTask { caches: BTreeMap::new(), config }
    }

    /// The cache's configuration.
    pub fn config(&self) -> (c: &Config)
        ensures
            *c == self.config_of(),
    {
        &self.config
    }

    /// Moves the stores out, leaving none.
    fn take_caches(&mut self) -> (caches: BTreeMap<(I, I), H>)
        ensures
            caches@ == old(self).caches@,
            final(self).caches@ == Map::<(I, I), H>::empty(),
            final(self).config == old(self).config,
    {
        proof {
            use_type_invariant(&*self);
        }
        let mut caches = BTreeMap::new();
        std::mem::swap(&mut caches, &mut self.caches);
        caches
    }

    /// The handle of the store for `id`, if there is one.
    pub fn store(&self, id: &(I, I)) -> (h: Option<&H>)
        ensures
            match h {
                Some(h) => self@.contains_key(*id) && *h == self@[*id],
                None => !self@.contains_key(*id),
            },
    {
        proof {
            use_type_invariant(self);
        }
        self.caches.get(id)
    }

    /// The ids of all stores, each once.
    pub fn ids(&self) -> (v: Vec<(I, I)>)
        where
            I: Copy,
        ensures
            v@.to_set() == self@.dom(),
            v@.no_duplicates(),
            v@.len() == self@.len(),
    {
        proof {
            use_type_invariant(self);
        }
        let ghost ks = IteratorSpec::remaining(&spec_keys_iter(&self.caches)).unref();
        let mut v: Vec<(I, I)> = Vec::new();
        for id in it: self.caches.keys()
            invariant
                it.seq().unref() == ks,
                v@ == ks.take(it.index() as int),
        {
            v.push(*id);
            assert(v@ =~= ks.take(it.index() as int + 1));
        }
        assert(v@ =~= ks);
        v
    }

    /// Registers the store for `id`, replacing any earlier one.
    pub fn add_store(&mut self, id: (I, I), handle: H)
        ensures
            final(self)@ == old(self)@.insert(id, handle),
            final(self).config_of() == old(self).config_of(),
    {
        proof {
            use_type_invariant(&*self);
        }
        let mut caches = self.take_caches();
        caches.insert(id, handle);
        self.caches = caches;
    }

    /// Forgets the store for `id`.
    pub fn remove_store(&mut self, id: &(I, I))
        ensures
            final(self)@ == old(self)@.remove(*id),
            final(self).config_of() == old(self).config_of(),
    {
        proof {
            use_type_invariant(&*self);
        }
        let mut caches = self.take_caches();
        caches.remove(id);
        self.caches = caches;
    }

    /// Forgets every store.
    pub fn clear_all(&mut self)
        ensures
            final(self)@ == Map::<(I, I), H>::empty(),
            final(self).config_of() == old(self).config_of(),
    {
        proof {
            use_type_invariant(&*self);
        }
        let mut caches = self.take_caches();
        caches.clear();
        self.caches = caches;
    }

    /// Forgets every store whose key type is `key_type`.
    pub fn clear_key(&mut self, key_type: &I)
        ensures
            final(self)@ == without_key_type(old(self)@, *key_type),
            final(self).config_of() == old(self).config_of(),
    {
        proof {
            use_type_invariant(&*self);
            reveal(obeys_concrete_eq);
        }
        let ghost m = self.caches@;
        let mut rest = self.take_caches();
        let mut kept: BTreeMap<(I, I), H> = BTreeMap::new();
        loop
            invariant
                obeys_cmp::<(I, I)>(),
                obeys_concrete_eq::<I>(),
                forall|x: I, y: I| x.eq_spec(&y) <==> x == y,
                I::obeys_eq_spec(),
                rest@.dom().finite(),
                rest@.submap_of(m),
                kept@ == without_key_type(m.remove_keys(rest@.dom()), *key_type),
            ensures
                rest@.len() == 0,
            decreases rest@.len(),
        {
            let ghost before = rest@;
            match pop_first(&mut rest) {
                Some((id, h)) => {
                    let ghost done = m.remove_keys(before.dom());
                    assert(m.remove_keys(rest@.dom()) =~= done.insert(id, h));
                    if id.0 == *key_type {
                        assert(without_key_type(done.insert(id, h), *key_type) =~= without_key_type(done, *key_type));
                    } else {
                        kept.insert(id, h);
                        assert(kept@ =~= without_key_type(m.remove_keys(rest@.dom()), *key_type));
                    }
                },
                None => {
                    break;
                },
            }
        }
        proof {
            assert(rest@.dom() =~= Set::empty());
            assert(m.remove_keys(rest@.dom()) =~= m);
        }
        self.caches = kept;
    }

    /// Forgets every store whose value type is `value_type`.
    pub fn clear_type(&mut self, value_type: &I)
        ensures
            final(self)@ == without_value_type(old(self)@, *value_type),
            final(self).config_of() == old(self).config_of(),
    {
        proof {
            use_type_invariant(&*self);
            reveal(obeys_concrete_eq);
        }
        let ghost m = self.caches@;
        let mut rest = self.take_caches();
        let mut kept: BTreeMap<(I, I), H> = BTreeMap::new();
        loop
            invariant
                obeys_cmp::<(I, I)>(),
                obeys_concrete_eq::<I>(),
                forall|x: I, y: I| x.eq_spec(&y) <==> x == y,
                I::obeys_eq_spec(),
                rest@.dom().finite(),
                rest@.submap_of(m),
                kept@ == without_value_type(m.remove_keys(rest@.dom()), *value_type),
            ensures
                rest@.len() == 0,
            decreases rest@.len(),
        {
            let ghost before = rest@;
            match pop_first(&mut rest) {
                Some((id, h)) => {
                    let ghost done = m.remove_keys(before.dom());
                    assert(m.remove_keys(rest@.dom()) =~= done.insert(id, h));
                    if id.1 == *value_type {
                        assert(without_value_type(done.insert(id, h), *value_type) =~= without_value_type(done, *value_type));
                    } else {
                        kept.insert(id, h);
                        assert(kept@ =~= without_value_type(m.remove_keys(rest@.dom()), *value_type));
                    }
                },
                None => {
                    break;
                },
            }
        }
        proof {
            assert(rest@.dom() =~= Set::empty());
            assert(m.remove_keys(rest@.dom()) =~= m);
        }
        self.caches = kept;
    }
}

} // verus!
