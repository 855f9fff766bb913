use generic_cache::cache::task::CacheTask;
use generic_cache::{Duration, EntryConfigInner, Instant, SizeDelta};
use std::sync::Arc;

fn config(last_hit_secs: u64, ttl_secs: u64) -> EntryConfigInner {
    EntryConfigInner {
        entry_last_hit_timeout: Duration::from_secs(last_hit_secs),
        entry_ttl: Duration::from_secs(ttl_secs),
    }
}

fn at(secs: u64) -> Instant {
    Instant::from_nanos(secs as u128 * 1_000_000_000)
}

#[test]
fn get_after_set_returns_the_value() {
    let mut task: CacheTask<u64, String> = CacheTask::new();
    let value = Arc::new(String::from("Adam"));
    let d = task.set(123, Arc::clone(&value), 10, config(60, 300), at(0));
    assert_eq!(d, SizeDelta { released: 0, added: 10 });
    let got = task.get(123, at(1)).unwrap();
    assert!(Arc::ptr_eq(&got, &value));
    assert_eq!(*got, "Adam");
    assert_eq!(task.len(), 1);
}

#[test]
fn get_of_missing_key_finds_nothing() {
    let mut task: CacheTask<u64, String> = CacheTask::new();
    assert!(task.get(1, at(0)).is_none());
    assert!(task.is_empty());
}

#[test]
fn set_replaces_value_and_reports_old_size() {
    let mut task: CacheTask<u64, u32> = CacheTask::new();
    task.set(1, Arc::new(5), 10, config(60, 300), at(0));
    let d = task.set(1, Arc::new(6), 4, config(60, 300), at(1));
    assert_eq!(d, SizeDelta { released: 10, added: 4 });
    assert_eq!(*task.get(1, at(2)).unwrap(), 6);
    assert_eq!(task.len(), 1);
    // the store's own size is now that of the new value
    assert_eq!(task.release(), SizeDelta { released: 4, added: 0 });
}

#[test]
fn set_leaves_other_keys() {
    let mut task: CacheTask<u64, u32> = CacheTask::new();
    task.set(1, Arc::new(5), 1, config(60, 300), at(0));
    task.set(2, Arc::new(7), 1, config(60, 300), at(0));
    assert_eq!(*task.get(1, at(1)).unwrap(), 5);
    assert_eq!(*task.get(2, at(1)).unwrap(), 7);
}

#[test]
fn remove_hands_out_value_and_forgets_it() {
    let mut task: CacheTask<String, u32> = CacheTask::new();
    task.set(String::from("a"), Arc::new(9), 3, config(60, 300), at(0));
    let (v, d) = task.remove(&String::from("a"));
    assert_eq!(*v.unwrap(), 9);
    assert_eq!(d, SizeDelta { released: 3, added: 0 });
    assert!(task.get(String::from("a"), at(1)).is_none());
    let (v, d) = task.remove(&String::from("a"));
    assert!(v.is_none());
    assert_eq!(d, SizeDelta { released: 0, added: 0 });
}

#[test]
fn delete_forgets_the_value() {
    let mut task: CacheTask<u64, u32> = CacheTask::new();
    task.set(1, Arc::new(9), 3, config(60, 300), at(0));
    assert_eq!(task.delete(&1), SizeDelta { released: 3, added: 0 });
    assert!(task.get(1, at(1)).is_none());
    assert_eq!(task.release(), SizeDelta { released: 0, added: 0 });
}

#[test]
fn check_timeout_drops_only_expired_entries() {
    let mut task: CacheTask<u64, u32> = CacheTask::new();
    // expires by its time to live at 10 s
    task.set(1, Arc::new(1), 5, config(100, 10), at(0));
    // expires when not hit for 20 s
    task.set(2, Arc::new(2), 7, config(20, 1000), at(0));
    // stays
    task.set(3, Arc::new(3), 11, config(100, 1000), at(0));
    // a hit at 15 s keeps entry 2 alive until 35 s
    assert!(task.get(2, at(15)).is_some());
    let d = task.check_timeout(at(30));
    assert_eq!(d, SizeDelta { released: 5, added: 0 });
    assert!(task.get(1, at(30)).is_none());
    assert!(task.get(2, at(30)).is_some());
    assert!(task.get(3, at(30)).is_some());
    let d = task.check_timeout(at(60));
    assert_eq!(d, SizeDelta { released: 7, added: 0 });
    assert_eq!(task.len(), 1);
    assert_eq!(task.release(), SizeDelta { released: 11, added: 0 });
}

#[test]
fn check_timeout_at_the_deadline_keeps_the_entry() {
    let mut task: CacheTask<u64, u32> = CacheTask::new();
    task.set(1, Arc::new(1), 5, config(100, 10), at(0));
    assert_eq!(task.check_timeout(at(10)), SizeDelta { released: 0, added: 0 });
    assert_eq!(task.len(), 1);
}

#[test]
fn cleanup_of_empty_store_changes_nothing() {
    let mut task: CacheTask<u64, u32> = CacheTask::new();
    assert_eq!(task.cleanup(), SizeDelta { released: 0, added: 0 });
    assert!(task.is_empty());
}

#[test]
fn cleanup_drops_rarely_hit_entries_until_half_remains() {
    let mut task: CacheTask<u64, u32> = CacheTask::new();
    task.set(1, Arc::new(1), 10, config(100, 100), at(0));
    task.set(2, Arc::new(2), 10, config(100, 100), at(0));
    task.set(3, Arc::new(3), 10, config(100, 100), at(0));
    for _ in 0..5 {
        task.get(2, at(1));
    }
    for _ in 0..20 {
        task.get(3, at(1));
    }
    // 25 hits on 3 entries: the threshold starts at 8, which drops entries
    // 1 and 2 and leaves 10 of 30 bytes
    assert_eq!(task.cleanup(), SizeDelta { released: 20, added: 0 });
    assert_eq!(task.len(), 1);
    assert!(task.get(1, at(2)).is_none());
    assert!(task.get(2, at(2)).is_none());
    assert_eq!(*task.get(3, at(2)).unwrap(), 3);
    assert_eq!(task.release(), SizeDelta { released: 10, added: 0 });
}

#[test]
fn cleanup_with_no_hits_raises_a_zero_threshold() {
    let mut task: CacheTask<u64, u32> = CacheTask::new();
    task.set(1, Arc::new(1), 4, config(100, 100), at(0));
    task.set(2, Arc::new(2), 6, config(100, 100), at(0));
    // no hits: the threshold 0 drops nothing, the next one (1) drops all
    assert_eq!(task.cleanup(), SizeDelta { released: 10, added: 0 });
    assert!(task.is_empty());
    assert_eq!(task.release(), SizeDelta { released: 0, added: 0 });
}

#[test]
fn cleanup_resets_hits_of_kept_entries() {
    let mut task: CacheTask<u64, u32> = CacheTask::new();
    task.set(1, Arc::new(1), 10, config(100, 100), at(0));
    task.set(2, Arc::new(2), 1, config(100, 100), at(0));
    for _ in 0..30 {
        task.get(1, at(1));
    }
    // 30 hits on 2 entries: threshold 10 drops entry 2 only; 10 of 11 bytes
    // remain, above half, so the threshold grows to 15, then 22, then 33,
    // which drops entry 1 too
    assert_eq!(task.cleanup(), SizeDelta { released: 11, added: 0 });
    assert!(task.is_empty());
    task.set(3, Arc::new(3), 10, config(100, 100), at(2));
    task.set(4, Arc::new(4), 10, config(100, 100), at(2));
    for _ in 0..3 {
        task.get(3, at(3));
    }
    // 3 hits on 2 entries: threshold 1 drops entry 4 and leaves 10 of 20
    assert_eq!(task.cleanup(), SizeDelta { released: 10, added: 0 });
    // entry 3's hits were reset: with a new entry and no hits at all, the
    // next cleanup's thresholds 0 and 1 drop both (had entry 3 kept its 3
    // hits, the threshold 1 would drop only the new entry)
    task.set(5, Arc::new(5), 10, config(100, 100), at(4));
    assert_eq!(task.cleanup(), SizeDelta { released: 20, added: 0 });
    assert!(task.is_empty());
}

#[test]
fn cleanup_of_sizeless_entries_keeps_them() {
    let mut task: CacheTask<u64, u32> = CacheTask::new();
    task.set(1, Arc::new(1), 0, config(100, 100), at(0));
    task.set(2, Arc::new(2), 0, config(100, 100), at(0));
    task.get(1, at(1));
    assert_eq!(task.cleanup(), SizeDelta { released: 0, added: 0 });
    assert_eq!(task.len(), 2);
}

#[test]
fn size_delta_saturates() {
    let d = SizeDelta { released: 10, added: 3 };
    assert_eq!(d.apply(100), 93);
    assert_eq!(d.apply(4), 3);
    let d = SizeDelta { released: 0, added: 5 };
    assert_eq!(d.apply(usize::MAX - 2), usize::MAX);
}

#[test]
fn shared_total_tracks_store_sizes() {
    // two stores share one total
    let mut a: CacheTask<u64, u32> = CacheTask::new();
    let mut b: CacheTask<u64, u32> = CacheTask::new();
    let mut total: usize = 0;
    total = a.set(1, Arc::new(1), 10, config(60, 10), at(0)).apply(total);
    total = b.set(1, Arc::new(1), 20, config(60, 300), at(0)).apply(total);
    total = a.set(2, Arc::new(2), 5, config(60, 300), at(0)).apply(total);
    assert_eq!(total, 35);
    total = a.set(1, Arc::new(3), 1, config(60, 10), at(0)).apply(total);
    assert_eq!(total, 26);
    total = a.check_timeout(at(20)).apply(total);
    assert_eq!(total, 25);
    total = b.remove(&1).1.apply(total);
    assert_eq!(total, 5);
    total = a.release().apply(total);
    assert_eq!(total, 0);
}
