//! The builder that takes a whole configuration at once, with a timestamp
//! granularity and an entry timeout counted in timestamps.

use crate::cache::config::{default_config as default_cache_config, Config as CacheConfig};
use crate::time::Duration;
use vstd::prelude::*;

verus! {

/// A point in time, counted in units of the configured timestamp duration.
pub type Timestamp = u64;

/// The different errors which can be returned by the cache [`Builder`].
#[derive(Clone, Copy, Debug, PartialEq, Eq, Hash, Structural)]
pub enum BuildError {
    /// A zero timestamp duration was chosen, which is not permitted.
    InvalidTimestampDuration,
}

impl BuildError {
    /// The text that describes the error.
    pub open spec fn spec_message(self) -> Seq<char> {
        match self {
            BuildError::InvalidTimestampDuration => "InvalidTimestampDuration (A zero timestamp duration was choosen, which is not permitted)"@,
        }
    }

    /// The text that describes the error.
    pub fn message(&self) -> (m: &'static str)
        ensures
            m@ == self.spec_message(),
    {
        match self {
            BuildError::InvalidTimestampDuration => "InvalidTimestampDuration (A zero timestamp duration was choosen, which is not permitted)",
        }
    }
}

/// The configuration options for the cache.
#[derive(Clone, Copy, Debug, PartialEq, Eq, Hash, Structural)]
pub struct Config {
    pub timestamp_duration: Duration,
    pub entry_timeout: Timestamp,
    pub timeout_check_interval: Duration,
    pub max_total_size: usize,
}

/// The default configuration.
pub open spec fn default_config() -> Config {
    Config {
        timestamp_duration: Duration { nanos: 1_000_000_000 },
        entry_timeout: 60,
        timeout_check_interval: Duration { nanos: 60_000_000_000 },
        max_total_size: 104_857_600,
    }
}

/// The default configuration: timestamps of 1 s, an entry timeout of 60
/// timestamps, a timeout check every 60 s and a limit of 100 MB.
pub proof fn lemma_default_config()
    ensures
        default_config().timestamp_duration.nanos == 1_000_000_000,
        default_config().entry_timeout == 60,
        default_config().timeout_check_interval.nanos == 60 * 1_000_000_000,
        default_config().max_total_size == 100 * 1024 * 1024,
{
}

/// A configuration builds a cache whose entries expire after the entry
/// timeout counted in timestamps (saturating), both as time to live and as
/// last-hit timeout, with the same timeout check interval and size limit.
pub proof fn lemma_built_config(c: Config)
    ensures
        c.timestamp_duration.nanos * c.entry_timeout <= u128::MAX ==> c.built_config().entry_ttl.nanos
            == c.timestamp_duration.nanos * c.entry_timeout,
        c.timestamp_duration.nanos * c.entry_timeout > u128::MAX ==> c.built_config().entry_ttl.nanos
            == u128::MAX,
        c.built_config().entry_last_hit_timeout == c.built_config().entry_ttl,
        c.built_config().timeout_check_interval == c.timeout_check_interval,
        c.built_config().max_total_size == c.max_total_size,
        c.built_config().total_size_cleanup == 50 * 1024 * 1024,
        c.built_config().total_size_cleanup_interval.nanos == 10 * 1_000_000_000,
{
}

impl Default for Config {
    fn default() -> (c: Self)
        ensures
            c == default_config(),
    {
        Config {
            timestamp_duration: Duration::from_secs(1),
            entry_timeout: 60,
            timeout_check_interval: Duration::from_secs(60),
            max_total_size: 100 * 1024 * 1024,
        }
    }
}

/// `a * b`, or `u128::MAX` where the product does not fit.
pub open spec fn clamp_mul_u128(a: int, b: int) -> u128 {
    if a * b <= u128::MAX {
        (a * b) as u128
    } else {
        u128::MAX
    }
}

impl Config {
    /// Whether the configuration may build a cache: a zero timestamp
    /// duration is not permitted.
    pub fn validate(&self) -> (r: Result<(), BuildError>)
        ensures
            r == (if self.timestamp_duration.nanos == 0 {
                Err(BuildError::InvalidTimestampDuration)
            } else {
                Ok(())
            }),
    {
        if self.timestamp_duration.nanos == 0 {
            Err(BuildError::InvalidTimestampDuration)
        } else {
            Ok(())
        }
    }

    /// The entry timeout as a span of time: `entry_timeout` timestamps
    /// (saturating).
    pub fn entry_timeout_duration(&self) -> (d: Duration)
        ensures
            d.nanos == clamp_mul_u128(self.timestamp_duration.nanos as int, self.entry_timeout as int),
    {
        match self.timestamp_duration.nanos.checked_mul(self.entry_timeout as u128) {
            Some(n) => Duration { nanos: n },
            None => Duration { nanos: u128::MAX },
        }
    }

    /// The configuration of the cache this configuration builds: the entry
    /// timeout becomes each entry's time to live and last-hit timeout; the
    /// timeout check interval and the size limit carry over; the rest is the
    /// cache's default.
    pub open spec fn built_config(self) -> CacheConfig {
        let timeout = Duration {
            nanos: clamp_mul_u128(self.timestamp_duration.nanos as int, self.entry_timeout as int),
        };
        CacheConfig {
            entry_last_hit_timeout: timeout,
            entry_ttl: timeout,
            timeout_check_interval: self.timeout_check_interval,
            max_total_size: self.max_total_size,
            ..default_cache_config()
        }
    }

    /// The configuration of the cache this configuration builds, or the
    /// error that forbids building it.
    pub fn cache_config(&self) -> (r: Result<CacheConfig, BuildError>)
        ensures
            r == (if self.timestamp_duration.nanos == 0 {
                Err(BuildError::InvalidTimestampDuration)
            } else {
                Ok(self.built_config())
            }),
    {
        self.validate()?;
        let timeout = self.entry_timeout_duration();
        let defaults = CacheConfig::default();
        Ok(CacheConfig {
            entry_last_hit_timeout: timeout,
            entry_ttl: timeout,
            timeout_check_interval: self.timeout_check_interval,
            max_total_size: self.max_total_size,
            ..defaults
        })
    }
}

/// A builder for a cache instance: an executor and a configuration.
pub struct Builder<E> {
    executor: E,
    config: Config,
}

impl<E> Builder<E> {
    /// The executor the cache will run on.
    pub closed spec fn executor_of(&self) -> E {
        self.executor
    }

    /// The configuration the cache will get.
    pub closed spec fn config_of(&self) -> Config {
        self.config
    }

    /// A new builder with the default value of the executor and the default
    /// configuration.
    pub fn new() -> (b: Self)
        where
            E: Default,
        ensures
            b.config_of() == default_config(),
    {
        Self::with_executor(E::default())
    }

    /// A new builder with the given executor and the default configuration.
    pub fn with_executor(executor: E) -> (b: Self)
        ensures
            b.executor_of() == executor,
            b.config_of() == default_config(),
    {
        Self { executor, config: Config::default() }
    }

    /// A new builder with the given executor and configuration.
    pub fn with_executor_and_config(executor: E, config: Config) -> (b: Self)
        ensures
            b.executor_of() == executor,
            b.config_of() == config,
    {
        Self { executor, config }
    }

    pub fn timestamp_duration(&mut self, duration: Duration) -> (b: &mut Self)
        ensures
            b.executor_of() == old(self).executor_of(),
            b.config_of() == (Config { timestamp_duration: duration, ..old(self).config_of() }),
            *final(self) == *final(b),
    {
        self.config.timestamp_duration = duration;
        self
    }

    pub fn entry_timeout(&mut self, timeout: Timestamp) -> (b: &mut Self)
        ensures
            b.executor_of() == old(self).executor_of(),
            b.config_of() == (Config { entry_timeout: timeout, ..old(self).config_of() }),
            *final(self) == *final(b),
    {
        self.config.entry_timeout = timeout;
        self
    }

    pub fn timeout_check_interval(&mut self, duration: Duration) -> (b: &mut Self)
        ensures
            b.executor_of() == old(self).executor_of(),
            b.config_of() == (Config { timeout_check_interval: duration, ..old(self).config_of() }),
            *final(self) == *final(b),
    {
        self.config.timeout_check_interval = duration;
        self
    }

    pub fn max_total_size(&mut self, size: usize) -> (b: &mut Self)
        ensures
            b.executor_of() == old(self).executor_of(),
            b.config_of() == (Config { max_total_size: size, ..old(self).config_of() }),
            *final(self) == *final(b),
    {
        self.config.max_total_size = size;
        self
    }

    /// The executor and the configuration, for building the cache.
    pub fn into_parts(self) -> (parts: (E, Config))
        ensures
            parts == (self.executor_of(), self.config_of()),
    {
        (self.executor, self.config)
    }

    /// The executor and the cache configuration, for building the cache, or
    /// the error that forbids building it (see `Config::cache_config`).
    pub fn finish_parts(self) -> (r: Result<(E, CacheConfig), BuildError>)
        ensures
            r == (if self.config_of().timestamp_duration.nanos == 0 {
                Err(BuildError::InvalidTimestampDuration)
            } else {
                Ok((self.executor_of(), self.config_of().built_config()))
            }),
    {
        match self.config.cache_config() {
            Ok(c) => Ok((self.executor, c)),
            Err(e) => Err(e),
        }
    }
}

} // verus!
