use generic_cache::cache::cache_entry::CacheEntry;
use generic_cache::{Duration, Entry, EntryConfig, EntryConfigInner, Instant};
use std::sync::Arc;

fn at(secs: u64) -> Instant {
    Instant::from_nanos(secs as u128 * 1_000_000_000)
}

fn config(last_hit_secs: u64, ttl_secs: u64) -> EntryConfigInner {
    EntryConfigInner {
        entry_last_hit_timeout: Duration::from_secs(last_hit_secs),
        entry_ttl: Duration::from_secs(ttl_secs),
    }
}

#[test]
fn durations_count_nanoseconds() {
    assert_eq!(Duration::from_secs(60).as_nanos(), 60_000_000_000);
    assert_eq!(Duration::from_millis(1500).as_nanos(), 1_500_000_000);
    assert_eq!(Duration::from_nanos(7).as_nanos(), 7);
    assert_eq!(Duration::from_secs(u64::MAX).as_nanos(), u64::MAX as u128 * 1_000_000_000);
}

#[test]
fn instant_checked_add() {
    assert_eq!(at(1).checked_add(Duration::from_secs(2)), Some(at(3)));
    assert_eq!(Instant::from_nanos(u128::MAX).checked_add(Duration::from_nanos(1)), None);
    assert!(at(2).is_after(&at(1)));
    assert!(!at(1).is_after(&at(1)));
}

#[test]
fn cache_entry_new_sets_deadline() {
    let e = CacheEntry::new(Arc::new(5u8), 3, config(10, 100), at(7));
    assert_eq!(e.size(), 3);
    assert_eq!(e.total_hits(), 0);
    assert_eq!(e.to_be_deleted, Some(at(107)));
    assert_eq!(e.last_hit, at(7));
}

#[test]
fn cache_entry_without_representable_deadline() {
    let big = EntryConfigInner {
        entry_last_hit_timeout: Duration::from_nanos(u128::MAX),
        entry_ttl: Duration::from_nanos(u128::MAX),
    };
    let e = CacheEntry::new(Arc::new(5u8), 3, big, at(1));
    assert_eq!(e.to_be_deleted, None);
    // neither deadline can be represented: the entry never expires
    assert!(!e.is_expired(Instant::from_nanos(u128::MAX)));
}

#[test]
fn cache_entry_hits_and_expiry() {
    let mut e = CacheEntry::new(Arc::new(5u8), 3, config(10, 100), at(0));
    assert!(!e.is_expired(at(10)));
    assert!(e.is_expired(at(11)));
    let v = e.get(at(9));
    assert_eq!(*v, 5);
    assert_eq!(e.total_hits(), 1);
    assert!(!e.is_expired(at(19)));
    assert!(e.is_expired(at(20)));
    // the time to live is not extended by hits
    let mut e2 = CacheEntry::new(Arc::new(5u8), 3, config(10, 15), at(0));
    e2.get(at(9));
    assert!(e2.is_expired(at(16)));
    e.reset_total_hits();
    assert_eq!(e.total_hits(), 0);
    assert_eq!(*e.get_direct(), 5);
    assert_eq!(e.total_hits(), 0);
}

#[test]
fn cache_entry_update_keeps_hits() {
    let mut e = CacheEntry::new(Arc::new(5u8), 3, config(10, 100), at(0));
    e.get(at(1));
    e.get(at(2));
    e.update(Arc::new(6u8), 4, config(20, 50), at(3));
    assert_eq!(e.total_hits(), 2);
    assert_eq!(e.size(), 4);
    assert_eq!(*e.get_direct(), 6);
    assert_eq!(e.to_be_deleted, Some(at(53)));
}

#[test]
fn cache_entry_hits_saturate() {
    let mut e = CacheEntry::new(Arc::new(5u8), 3, config(10, 100), at(0));
    e.total_hits = u128::MAX;
    e.get(at(1));
    assert_eq!(e.total_hits(), u128::MAX);
}

#[test]
fn entry_new_and_getters() {
    let mut e: Entry<u64, String> = Entry::new(1, String::from("v"));
    assert_eq!(*e.key(), 1);
    assert_eq!(**e.value(), "v");
    assert_eq!(e.size(), None);
    assert_eq!(*e.ttl(), None);
    assert_eq!(*e.last_hit_timeout(), None);
    e.set_key(2u64);
    e.set_size(10usize);
    e.set_ttl(Duration::from_secs(5));
    e.set_last_hit_timeout(Duration::from_secs(6));
    e.set_value(String::from("w"));
    assert_eq!(*e.key(), 2);
    assert_eq!(e.size(), Some(10));
    assert_eq!(*e.ttl(), Some(Duration::from_secs(5)));
    assert_eq!(*e.last_hit_timeout(), Some(Duration::from_secs(6)));
    assert_eq!(**e.value(), "w");
    *e.key_mut() = 3;
    *e.size_mut() = None;
    *e.ttl_mut() = None;
    *e.last_hit_timeout_mut() = Some(Duration::from_secs(1));
    let shared = Arc::new(String::from("x"));
    e.set_value_arc(Arc::clone(&shared));
    *e.value_mut() = Arc::clone(&shared);
    let (k, v, c) = e.into_parts();
    assert_eq!(k, 3);
    assert!(Arc::ptr_eq(&v, &shared));
    assert_eq!(c, EntryConfig { entry_last_hit_timeout: Some(Duration::from_secs(1)), entry_ttl: None });
}

#[test]
fn entry_config_defaults_and_resolution() {
    let c = EntryConfig::default();
    assert_eq!(c.entry_ttl, None);
    assert_eq!(c.entry_last_hit_timeout, None);
    let r = c.resolve(Duration::from_secs(60), Duration::from_secs(300));
    assert_eq!(r, config(60, 300));
    let c = EntryConfig { entry_last_hit_timeout: Some(Duration::from_secs(1)), entry_ttl: None };
    assert_eq!(c.resolve(Duration::from_secs(60), Duration::from_secs(300)), config(1, 300));
}

#[test]
fn entry_resolved_size() {
    let mut e: Entry<u64, Vec<u32>> = Entry::new(1, vec![1, 2, 3]);
    // no size of its own: the value's size, a vector and its elements
    assert_eq!(e.resolved_size(), std::mem::size_of::<Vec<u32>>() + 3 * 4);
    e.set_size(7usize);
    assert_eq!(e.resolved_size(), 7);
    // a size given as a smaller integer is converted
    e.set_size(9u16);
    assert_eq!(e.size(), Some(9));
    let mut f: Entry<u64, u8> = Entry::new(1u64, 0u8);
    f.set_size(7usize);
    assert_eq!(f.size(), Some(7));
    assert_eq!(*f.key(), 1u64);
    assert_eq!(**f.value(), 0u8);
    assert_eq!(*f.ttl(), None);
    assert_eq!(*f.last_hit_timeout(), None);
    assert_eq!(e.resolved_size(), 9);
}
