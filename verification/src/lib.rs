//! A cache that keeps values of different types under keys of different
//! types: one store per combination of key type and value type, with
//! per-entry expiry, size accounting and a limit on the total size.
//!
//! This crate holds the cache's logic: the stores, the registry of stores,
//! the configuration and the decisions of the front end. Time is handed in as
//! [`time::Instant`] values.

pub mod builder;
pub mod cache;
pub mod entry;
pub mod size;
pub mod time;

pub use cache::cache_entry::CacheEntry;
pub use cache::config::{Builder, Config};
pub use cache::main_task::{CacheMainTask, RequestKind};
pub use cache::task::CacheTask;
pub use cache::{Error, Hitcounter, Reply, SizeDelta};
pub use entry::{Entry, EntryConfig, EntryConfigInner};
pub use size::Size;
pub use time::{Duration, Instant};
