use crate::entry::{EntryConfig, EntryConfigInner};
use crate::time::Duration;
use vstd::prelude::*;

verus! {

/// The configuration options for the cache.
#[derive(Clone, Copy, Debug, PartialEq, Eq, Hash, Structural)]
pub struct Config {
    /// The maximum time to pass between hits on a particular entry after which
    /// it will get removed from the cache. Default: 60 secs.
    pub entry_last_hit_timeout: Duration,
    /// The maximum time for each entry to stay inside the cache.
    /// Default: 300 secs.
    pub entry_ttl: Duration,
    /// The interval at which a timeout check is performed on all entries in
    /// the cache. Default: 60 secs.
    pub timeout_check_interval: Duration,
    /// The threshold in bytes after which a cleanup based on the number of
    /// total hits on each entry in the cache gets performed. Default: 50 MB.
    pub total_size_cleanup: usize,
    /// The interval at which to check if the cleanup threshold is currently
    /// exceeded, leading to a cleanup being triggered if so. Default: 10 secs.
    pub total_size_cleanup_interval: Duration,
    /// The total size in bytes that values saved inside the cache are allowed
    /// to occupy. Default: 100 MB.
    pub max_total_size: usize,
}

/// The number of bytes in one MB.
pub const MB: usize = 1024 * 1024;

/// The default configuration.
pub open spec fn default_config() -> Config {
    Config {
        entry_last_hit_timeout: Duration { nanos: 60_000_000_000 },
        entry_ttl: Duration { nanos: 300_000_000_000 },
        timeout_check_interval: Duration { nanos: 60_000_000_000 },
        total_size_cleanup: 52_428_800,
        total_size_cleanup_interval: Duration { nanos: 10_000_000_000 },
        max_total_size: 104_857_600,
    }
}

/// The default configuration: a last-hit timeout of 60 s, a time to live of
/// 300 s, a timeout check every 60 s, a cleanup from 50 MB on, checked every
/// 10 s, and a limit of 100 MB.
pub proof fn lemma_default_config()
    ensures
        default_config().entry_last_hit_timeout.nanos == 60 * 1_000_000_000,
        default_config().entry_ttl.nanos == 300 * 1_000_000_000,
        default_config().timeout_check_interval.nanos == 60 * 1_000_000_000,
        default_config().total_size_cleanup == 50 * 1024 * 1024,
        default_config().total_size_cleanup_interval.nanos == 10 * 1_000_000_000,
        default_config().max_total_size == 100 * 1024 * 1024,
{
}

impl Default for Config {
    fn default() -> (c: Self)
        ensures
            c == default_config(),
    {
        Config {
            entry_last_hit_timeout: Duration::from_secs(60),
            entry_ttl: Duration::from_secs(300),
            timeout_check_interval: Duration::from_secs(60),
            total_size_cleanup: 50 * MB,
            total_size_cleanup_interval: Duration::from_secs(10),
            max_total_size: 100 * MB,
        }
    }
}

impl Config {
    /// The expiry settings of an entry, with the settings it leaves open taken
    /// from this configuration.
    pub fn resolve_entry(&self, entry: &EntryConfig) -> (c: EntryConfigInner)
        ensures
            c.entry_ttl == (match entry.entry_ttl {
                Some(d) => d,
                None => self.entry_ttl,
            }),
            c.entry_last_hit_timeout == (match entry.entry_last_hit_timeout {
                Some(d) => d,
                None => self.entry_last_hit_timeout,
            }),
    {
        entry.resolve(self.entry_last_hit_timeout, self.entry_ttl)
    }

    /// Whether a total size of `total_size` bytes calls for a cleanup.
    pub fn needs_cleanup(&self, total_size: usize) -> (b: bool)
        ensures
            b == (total_size >= self.total_size_cleanup),
    {
        total_size >= self.total_size_cleanup
    }
}

/// A builder for a cache instance: an executor and a configuration.
#[derive(Clone, Copy, Debug, PartialEq, Eq, Hash)]
pub struct Builder<E> {
    executor: E,
    config: Config,
}

impl<E> Builder<E> {
    /// The executor the cache will run on.
    pub closed spec fn executor_of(&self) -> E {
        self.executor
    }

    /// The configuration the cache will get.
    pub closed spec fn config_of(&self) -> Config {
        self.config
    }

    /// A new builder with the default value of the executor and the default
    /// configuration.
    pub fn new() -> (b: Self)
        where
            E: Default,
        ensures
            b.config_of() == default_config(),
    {
        Self::with_executor(E::default())
    }

    /// A new builder with the given executor and the default configuration.
    pub fn with_executor(executor: E) -> (b: Self)
        ensures
            b.executor_of() == executor,
            b.config_of() == default_config(),
    {
        Self { executor, config: Config::default() }
    }

    /// The maximum time to pass between hits on a particular entry after
    /// which it will get removed from the cache.
    pub fn entry_last_hit_timeout(&mut self, timeout: Duration) -> (b: &mut Self)
        ensures
            b.executor_of() == old(self).executor_of(),
            b.config_of() == (Config { entry_last_hit_timeout: timeout, ..old(self).config_of() }),
            *final(self) == *final(b),
    {
        self.config.entry_last_hit_timeout = timeout;
        self
    }

    /// The maximum time for each entry to stay inside the cache.
    pub fn entry_ttl(&mut self, timeout: Duration) -> (b: &mut Self)
        ensures
            b.executor_of() == old(self).executor_of(),
            b.config_of() == (Config { entry_ttl: timeout, ..old(self).config_of() }),
            *final(self) == *final(b),
    {
        self.config.entry_ttl = timeout;
        self
    }

    /// The interval at which a timeout check is performed on all entries in
    /// the cache.
    pub fn timeout_check_interval(&mut self, duration: Duration) -> (b: &mut Self)
        ensures
            b.executor_of() == old(self).executor_of(),
            b.config_of() == (Config { timeout_check_interval: duration, ..old(self).config_of() }),
            *final(self) == *final(b),
    {
        self.config.timeout_check_interval = duration;
        self
    }

    /// The threshold in bytes after which a cleanup based on the number of
    /// total hits on each entry in the cache gets performed.
    pub fn total_size_cleanup(&mut self, size: usize) -> (b: &mut Self)
        ensures
            b.executor_of() == old(self).executor_of(),
            b.config_of() == (Config { total_size_cleanup: size, ..old(self).config_of() }),
            *final(self) == *final(b),
    {
        self.config.total_size_cleanup = size;
        self
    }

    /// The interval at which to check if the cleanup threshold is currently
    /// exceeded.
    pub fn total_size_cleanup_interval(&mut self, duration: Duration) -> (b: &mut Self)
        ensures
            b.executor_of() == old(self).executor_of(),
            b.config_of() == (Config {
                total_size_cleanup_interval: duration,
                ..old(self).config_of()
            }),
            *final(self) == *final(b),
    {
        self.config.total_size_cleanup_interval = duration;
        self
    }

    /// The total size in bytes that values saved inside the cache are allowed
    /// to occupy.
    pub fn max_total_size(&mut self, size: usize) -> (b: &mut Self)
        ensures
            b.executor_of() == old(self).executor_of(),
            b.config_of() == (Config { max_total_size: size, ..old(self).config_of() }),
            *final(self) == *final(b),
    {
        self.config.max_total_size = size;
        self
    }

    /// The executor and the configuration, for building the cache.
    pub fn into_parts(self) -> (parts: (E, Config))
        ensures
            parts == (self.executor_of(), self.config_of()),
    {
        (self.executor, self.config)
    }
}

} // verus!
