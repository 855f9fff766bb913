use crate::size::Size;
use crate::time::Duration;
use vstd::layout::size_of;
use std::sync::Arc;
use vstd::prelude::*;
use vstd::std_specs::convert::IntoSpec;

verus! {

/// `From::from` of a type into itself (`impl<T> From<T> for T` in std):
/// returns its argument unchanged. With it, each setter below that takes
/// `impl Into<X>` is known to store an `X` argument as it is.
pub assume_specification<Z>[ <Z as std::convert::From<Z>>::from ](z: Z) -> (r: Z)
    ensures
        r == z,
;

/// The expiry settings of one stored entry, with the cache-wide defaults
/// already filled in.
#[derive(Clone, Copy, Debug, PartialEq, Eq, Structural)]
pub struct EntryConfigInner {
    /// The maximum time to pass between hits on a particular entry after which
    /// it will get removed from the cache.
    pub entry_last_hit_timeout: Duration,
    /// The maximum time for each entry to stay inside the cache.
    pub entry_ttl: Duration,
}

/// The expiry settings an entry asks for; `None` means "use the cache-wide
/// default".
#[derive(Clone, Copy, Debug, PartialEq, Eq, Hash, Structural)]
pub struct EntryConfig {
    /// The maximum time to pass between hits on a particular entry after which
    /// it will get removed from the cache.
    pub entry_last_hit_timeout: Option<Duration>,
    /// The maximum time for each entry to stay inside the cache.
    pub entry_ttl: Option<Duration>,
}

impl Default for EntryConfig {
    fn default() -> (c: Self)
        ensures
            c.entry_last_hit_timeout is None,
            c.entry_ttl is None,
    {
        EntryConfig { entry_last_hit_timeout: None, entry_ttl: None }
    }
}

impl EntryConfig {
    /// Fills in each setting the entry leaves open with the given default.
    pub fn resolve(&self, default_last_hit_timeout: Duration, default_ttl: Duration) -> (c:
        EntryConfigInner)
        ensures
            c.entry_ttl == (match self.entry_ttl {
                Some(d) => d,
                None => default_ttl,
            }),
            c.entry_last_hit_timeout == (match self.entry_last_hit_timeout {
                Some(d) => d,
                None => default_last_hit_timeout,
            }),
    {
        let entry_ttl = match self.entry_ttl {
            Some(d) => d,
            None => default_ttl,
        };
        let entry_last_hit_timeout = match self.entry_last_hit_timeout {
            Some(d) => d,
            None => default_last_hit_timeout,
        };
        EntryConfigInner { entry_last_hit_timeout, entry_ttl }
    }
}

/// What an [`Entry`] holds.
pub struct EntryModel<K, V> {
    pub key: K,
    pub value: Arc<V>,
    pub size: Option<usize>,
    pub config: EntryConfig,
}

/// A new entry to be added to the cache: a key, a value, an optional size in
/// bytes and optional expiry settings.
pub struct Entry<K, V> {
    key: K,
    value: Arc<V>,
    size: Option<usize>,
    config: EntryConfig,
}

impl<K, V> View for Entry<K, V> {
    type V = EntryModel<K, V>;

    closed spec fn view(&self) -> EntryModel<K, V> {
        EntryModel { key: self.key, value: self.value, size: self.size, config: self.config }
    }
}

impl<K, V> Entry<K, V> {
    /// A new entry holding `value`, which gets wrapped in an [`Arc`]; no size
    /// and no expiry settings of its own.
    pub fn new(key: K, value: V) -> (e: Self)
        ensures
            e@.key == key,
            *e@.value == value,
            e@.size is None,
            e@.config.entry_last_hit_timeout is None,
            e@.config.entry_ttl is None,
    {
        let value = Arc::new(value);
        Self::new_with_arc(key, value)
    }

    /// A new entry holding the already shared `value`; no size and no expiry
    /// settings of its own.
    pub fn new_with_arc(key: K, value: Arc<V>) -> (e: Self)
        ensures
            e@.key == key,
            e@.value == value,
            e@.size is None,
            e@.config.entry_last_hit_timeout is None,
            e@.config.entry_ttl is None,
    {
        Self { key, value, size: None, config: EntryConfig::default() }
    }

    /// Splits the entry into its key, its value and its expiry settings.
    pub fn into_parts(self) -> (parts: (K, Arc<V>, EntryConfig))
        ensures
            parts == (self@.key, self@.value, self@.config),
    {
        (self.key, self.value, self.config)
    }

    pub fn key(&self) -> (k: &K)
        ensures
            *k == self@.key,
    {
        &self.key
    }

    pub fn key_mut(&mut self) -> (k: &mut K)
        ensures
            *k == old(self)@.key,
            final(self)@ == (EntryModel { key: *final(k), ..old(self)@ }),
    {
        &mut self.key
    }

    /// Replaces the key with `key` converted into a key.
    pub fn set_key<Q: Into<K>>(&mut self, key: Q)
        ensures
            final(self)@.value == old(self)@.value,
            final(self)@.size == old(self)@.size,
            final(self)@.config == old(self)@.config,
            <Q as IntoSpec<K>>::obeys_into_spec() ==> final(self)@.key == key.into_spec(),
            call_ensures(<Q as Into<K>>::into, (key,), final(self)@.key),
    {
        let convert = <Q as Into<K>>::into;
        self.key = convert(key);
    }

    pub fn value(&self) -> (v: &Arc<V>)
        ensures
            *v == self@.value,
    {
        &self.value
    }

    pub fn value_mut(&mut self) -> (v: &mut Arc<V>)
        ensures
            *v == old(self)@.value,
            final(self)@ == (EntryModel { value: *final(v), ..old(self)@ }),
    {
        &mut self.value
    }

    /// Replaces the value with `value` converted into a value, wrapped in an
    /// [`Arc`].
    pub fn set_value<Q: Into<V>>(&mut self, value: Q)
        ensures
            final(self)@.key == old(self)@.key,
            final(self)@.size == old(self)@.size,
            final(self)@.config == old(self)@.config,
            <Q as IntoSpec<V>>::obeys_into_spec() ==> *final(self)@.value == value.into_spec(),
            call_ensures(<Q as Into<V>>::into, (value,), *final(self)@.value),
    {
        let convert = <Q as Into<V>>::into;
        self.value = Arc::new(convert(value));
    }

    pub fn set_value_arc(&mut self, value: Arc<V>)
        ensures
            final(self)@ == (EntryModel { value, ..old(self)@ }),
    {
        self.value = value;
    }

    pub fn size(&self) -> (s: Option<usize>)
        ensures
            s == self@.size,
    {
        self.size
    }

    pub fn size_mut(&mut self) -> (s: &mut Option<usize>)
        ensures
            *s == old(self)@.size,
            final(self)@ == (EntryModel { size: *final(s), ..old(self)@ }),
    {
        &mut self.size
    }

    /// Sets the size to `size` converted into a number of bytes.
    pub fn set_size<Q: Into<usize>>(&mut self, size: Q)
        ensures
            final(self)@.key == old(self)@.key,
            final(self)@.value == old(self)@.value,
            final(self)@.config == old(self)@.config,
            final(self)@.size is Some,
            <Q as IntoSpec<usize>>::obeys_into_spec() ==> final(self)@.size == Some(size.into_spec()),
            call_ensures(<Q as Into<usize>>::into, (size,), final(self)@.size.unwrap()),
    {
        let convert = <Q as Into<usize>>::into;
        self.size = Some(convert(size));
    }

    pub fn last_hit_timeout(&self) -> (d: &Option<Duration>)
        ensures
            *d == self@.config.entry_last_hit_timeout,
    {
        &self.config.entry_last_hit_timeout
    }

    pub fn last_hit_timeout_mut(&mut self) -> (d: &mut Option<Duration>)
        ensures
            *d == old(self)@.config.entry_last_hit_timeout,
            final(self)@ == (EntryModel {
                config: EntryConfig { entry_last_hit_timeout: *final(d), ..old(self)@.config },
                ..old(self)@
            }),
    {
        &mut self.config.entry_last_hit_timeout
    }

    /// Sets the last-hit timeout to `duration` converted into a duration.
    pub fn set_last_hit_timeout<Q: Into<Duration>>(&mut self, duration: Q)
        ensures
            final(self)@.key == old(self)@.key,
            final(self)@.value == old(self)@.value,
            final(self)@.size == old(self)@.size,
            final(self)@.config.entry_ttl == old(self)@.config.entry_ttl,
            final(self)@.config.entry_last_hit_timeout is Some,
            <Q as IntoSpec<Duration>>::obeys_into_spec() ==> final(self)@.config.entry_last_hit_timeout
                == Some(duration.into_spec()),
            call_ensures(
                <Q as Into<Duration>>::into,
                (duration,),
                final(self)@.config.entry_last_hit_timeout.unwrap(),
            ),
    {
        let convert = <Q as Into<Duration>>::into;
        self.config.entry_last_hit_timeout = Some(convert(duration));
    }

    pub fn ttl(&self) -> (d: &Option<Duration>)
        ensures
            *d == self@.config.entry_ttl,
    {
        &self.config.entry_ttl
    }

    pub fn ttl_mut(&mut self) -> (d: &mut Option<Duration>)
        ensures
            *d == old(self)@.config.entry_ttl,
            final(self)@ == (EntryModel {
                config: EntryConfig { entry_ttl: *final(d), ..old(self)@.config },
                ..old(self)@
            }),
    {
        &mut self.config.entry_ttl
    }

    /// Sets the time to live to `duration` converted into a duration.
    pub fn set_ttl<Q: Into<Duration>>(&mut self, duration: Q)
        ensures
            final(self)@.key == old(self)@.key,
            final(self)@.value == old(self)@.value,
            final(self)@.size == old(self)@.size,
            final(self)@.config.entry_last_hit_timeout == old(self)@.config.entry_last_hit_timeout,
            final(self)@.config.entry_ttl is Some,
            <Q as IntoSpec<Duration>>::obeys_into_spec() ==> final(self)@.config.entry_ttl == Some(
                duration.into_spec(),
            ),
            call_ensures(<Q as Into<Duration>>::into, (duration,), final(self)@.config.entry_ttl.unwrap()),
    {
        let convert = <Q as Into<Duration>>::into;
        self.config.entry_ttl = Some(convert(duration));
    }
}

impl<K, V: Size> Entry<K, V> {
    /// The size the entry is saved with: its own size where it has one, else
    /// the size of its value as `Size` computes it.
    pub fn resolved_size(&self) -> (s: usize)
        ensures
            self@.size matches Some(n) ==> s == n,
            self@.size is None && V::obeys_size_spec() && size_of::<V>() + (*self@.value).heap_bytes()
                <= usize::MAX ==> s == size_of::<V>() + (*self@.value).heap_bytes(),
    {
        match self.size {
            Some(s) => s,
            None => (*self.value).get_size(),
        }
    }
}

} // verus!
