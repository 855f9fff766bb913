# generic_cache

A cache that keeps values of different types under keys of different types:
one store per combination of key type and value type, entries that expire
after a time to live or after a time without hits, size accounting per store
and for the whole cache, and a limit on the total size.

Layout:

- `src/` — the verified library:
  - `time.rs`: durations and instants as nanosecond counts;
  - `size.rs`: the `Size` trait and its implementations for std types;
  - `entry.rs`: the `Entry` a caller hands in and its expiry settings;
  - `cache/cache_entry.rs`: one stored entry (hits, expiry);
  - `cache/task.rs`: the store for one key type and value type, with the
    model of each operation and the laws relating them;
  - `cache/main_task.rs`: the registry of stores;
  - `cache/config.rs` and `builder.rs`: configurations and builders;
  - `cache/mod.rs`: errors, saturating arithmetic, sums over maps, the
    capacity check and the front end's reading of replies.
- `app/` — the asynchronous runtime around it (channels, tasks, timers, the
  clock, the shared atomic total size).
- `tests/` — tests of the library.
