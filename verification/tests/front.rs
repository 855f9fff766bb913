use generic_cache::builder::{BuildError, Builder as TimestampBuilder, Config as TimestampConfig};
use generic_cache::cache::config::default_config;
use generic_cache::cache::main_task::unrouted_reply;
use generic_cache::cache::{
    check_capacity, done_outcome, get_outcome, remove_outcome, retried_set_outcome, set_outcome,
};
use generic_cache::{Builder, CacheMainTask, Config, Duration, EntryConfig, Error, Reply, RequestKind};

#[test]
fn capacity_check() {
    assert_eq!(check_capacity(0, 10, 100), Ok(()));
    assert_eq!(check_capacity(89, 10, 100), Ok(()));
    assert_eq!(check_capacity(90, 10, 100), Ok(()));
    assert_eq!(check_capacity(0, 10, 10), Ok(()));
    assert_eq!(check_capacity(91, 10, 100), Err(Error::MaxSizeReached));
    assert_eq!(check_capacity(usize::MAX, 1, usize::MAX), Err(Error::MaxSizeReached));
    assert_eq!(check_capacity(0, 0, 0), Ok(()));
    assert_eq!(check_capacity(0, 1, 0), Err(Error::MaxSizeReached));
}

#[test]
fn outcomes_of_replies() {
    assert_eq!(get_outcome(Reply::Get(Some(3))), Ok(Some(3)));
    assert_eq!(get_outcome::<u8>(Reply::Get(None)), Ok(None));
    assert_eq!(get_outcome::<u8>(Reply::Failed(Error::ConvertionFailed)), Err(Error::ConvertionFailed));
    assert_eq!(get_outcome::<u8>(Reply::Done), Err(Error::Internal));
    assert_eq!(remove_outcome(Reply::Remove(Some(4))), Ok(Some(4)));
    assert_eq!(remove_outcome(Reply::Get(Some(4))), Err(Error::Internal));
    assert_eq!(done_outcome::<u8>(Reply::Done), Ok(()));
    assert_eq!(done_outcome::<u8>(Reply::Failed(Error::StoreUnreachable)), Err(Error::StoreUnreachable));
    assert_eq!(done_outcome::<u8>(Reply::StoreUnknown), Err(Error::Internal));
    assert_eq!(set_outcome::<u8>(Reply::StoreUnknown), None);
    assert_eq!(set_outcome::<u8>(Reply::Done), Some(Ok(())));
    assert_eq!(set_outcome::<u8>(Reply::Failed(Error::Other)), Some(Err(Error::Other)));
    assert_eq!(set_outcome::<u8>(Reply::Get(None)), Some(Err(Error::Internal)));
    assert_eq!(retried_set_outcome::<u8>(Reply::StoreUnknown), Err(Error::StoreUnreachable));
    assert_eq!(retried_set_outcome::<u8>(Reply::Done), Ok(()));
    assert_eq!(retried_set_outcome::<u8>(Reply::Failed(Error::MaxSizeReached)), Err(Error::MaxSizeReached));
    assert_eq!(retried_set_outcome::<u8>(Reply::Remove(None)), Err(Error::Internal));
}

#[test]
fn replies_without_store() {
    assert_eq!(unrouted_reply::<u8>(RequestKind::Get), Reply::Get(None));
    assert_eq!(unrouted_reply::<u8>(RequestKind::Put), Reply::StoreUnknown);
    assert_eq!(unrouted_reply::<u8>(RequestKind::Remove), Reply::Remove(None));
    assert_eq!(unrouted_reply::<u8>(RequestKind::Delete), Reply::Failed(Error::StoreUnreachable));
}

#[test]
fn error_messages() {
    assert_eq!(Error::MainUnreachable.message(), "Unreachable (Cache main background task paniced)");
    assert_eq!(Error::StoreUnreachable.message(), "StoreUnreachable (A cache store background task paniced)");
    assert_eq!(
        Error::ConvertionFailed.message(),
        "ConvertionFailed (A boxed trait object could not be converted to its original type)"
    );
    assert_eq!(
        Error::MaxSizeReached.message(),
        "MaxSizeReached (Adding the object was not possible duo to memory exhaustion protection)"
    );
    assert_eq!(Error::Internal.message(), "Internal (Implementation error)");
    assert_eq!(Error::Other.message(), "Other (Unknown error)");
}

#[test]
fn config_defaults() {
    let c = Config::default();
    assert_eq!(c.entry_last_hit_timeout, Duration::from_secs(60));
    assert_eq!(c.entry_ttl, Duration::from_secs(300));
    assert_eq!(c.timeout_check_interval, Duration::from_secs(60));
    assert_eq!(c.total_size_cleanup, 50 * 1024 * 1024);
    assert_eq!(c.total_size_cleanup_interval, Duration::from_secs(10));
    assert_eq!(c.max_total_size, 100 * 1024 * 1024);
    let _ = default_config;
}

#[test]
fn config_resolves_entries_and_cleanup() {
    let c = Config::default();
    let r = c.resolve_entry(&EntryConfig { entry_last_hit_timeout: None, entry_ttl: Some(Duration::from_secs(1)) });
    assert_eq!(r.entry_ttl, Duration::from_secs(1));
    assert_eq!(r.entry_last_hit_timeout, Duration::from_secs(60));
    assert!(!c.needs_cleanup(50 * 1024 * 1024 - 1));
    assert!(c.needs_cleanup(50 * 1024 * 1024));
}

#[test]
fn builder_sets_options() {
    let mut b: Builder<u8> = Builder::with_executor(7);
    b.entry_last_hit_timeout(Duration::from_secs(1))
        .entry_ttl(Duration::from_secs(2))
        .timeout_check_interval(Duration::from_secs(3))
        .total_size_cleanup(4)
        .total_size_cleanup_interval(Duration::from_secs(5))
        .max_total_size(6);
    let (e, c) = b.into_parts();
    assert_eq!(e, 7);
    assert_eq!(c.entry_last_hit_timeout, Duration::from_secs(1));
    assert_eq!(c.entry_ttl, Duration::from_secs(2));
    assert_eq!(c.timeout_check_interval, Duration::from_secs(3));
    assert_eq!(c.total_size_cleanup, 4);
    assert_eq!(c.total_size_cleanup_interval, Duration::from_secs(5));
    assert_eq!(c.max_total_size, 6);
    let (e, c) = Builder::<u8>::new().into_parts();
    assert_eq!(e, 0);
    assert_eq!(c, Config::default());
}

#[test]
fn other_builder_sets_options() {
    let c = TimestampConfig::default();
    assert_eq!(c.timestamp_duration, Duration::from_secs(1));
    assert_eq!(c.entry_timeout, 60);
    assert_eq!(c.timeout_check_interval, Duration::from_secs(60));
    assert_eq!(c.max_total_size, 100 * 1024 * 1024);
    let mut b: TimestampBuilder<u8> = TimestampBuilder::with_executor_and_config(3, c);
    b.timestamp_duration(Duration::from_millis(10)).entry_timeout(5).timeout_check_interval(Duration::from_secs(2)).max_total_size(9);
    let (e, c2) = b.into_parts();
    assert_eq!(e, 3);
    assert_eq!(c2, TimestampConfig { timestamp_duration: Duration::from_millis(10), entry_timeout: 5, timeout_check_interval: Duration::from_secs(2), max_total_size: 9 });
    let (_, c3) = TimestampBuilder::<u8>::with_executor(1).into_parts();
    assert_eq!(c3, c);
    let (e4, c4) = TimestampBuilder::<u8>::new().into_parts();
    assert_eq!((e4, c4), (0, c));
    let zero = TimestampConfig { timestamp_duration: Duration::from_nanos(0), ..c };
    assert_eq!(zero.validate(), Err(BuildError::InvalidTimestampDuration));
    assert_eq!(zero.cache_config(), Err(BuildError::InvalidTimestampDuration));
    assert_eq!(c.validate(), Ok(()));
    let cc = c.cache_config().unwrap();
    assert_eq!(cc.entry_ttl, Duration::from_secs(60));
    assert_eq!(cc.entry_last_hit_timeout, Duration::from_secs(60));
    assert_eq!(cc.timeout_check_interval, Duration::from_secs(60));
    assert_eq!(cc.max_total_size, 100 * 1024 * 1024);
    assert_eq!(cc.total_size_cleanup, 50 * 1024 * 1024);
    let huge = TimestampConfig { timestamp_duration: Duration::from_nanos(u128::MAX), entry_timeout: 2, ..c };
    assert_eq!(huge.entry_timeout_duration(), Duration::from_nanos(u128::MAX));
    let (e5, c5) = TimestampBuilder::<u8>::with_executor_and_config(4, c).finish_parts().unwrap();
    assert_eq!((e5, c5), (4, cc));
    assert_eq!(
        TimestampBuilder::<u8>::with_executor_and_config(4, zero).finish_parts(),
        Err(BuildError::InvalidTimestampDuration)
    );
    assert_eq!(
        BuildError::InvalidTimestampDuration.message(),
        "InvalidTimestampDuration (A zero timestamp duration was choosen, which is not permitted)"
    );
}

#[test]
fn registry_routes_and_clears() {
    let mut m: CacheMainTask<u32, &'static str> = CacheMainTask::new_with_config(Config::default());
    assert!(m.store(&(1, 1)).is_none());
    m.add_store((1, 1), "a");
    m.add_store((1, 2), "b");
    m.add_store((2, 1), "c");
    m.add_store((2, 2), "d");
    assert_eq!(m.store(&(1, 2)), Some(&"b"));
    let mut ids = m.ids();
    ids.sort();
    assert_eq!(ids, vec![(1, 1), (1, 2), (2, 1), (2, 2)]);
    m.clear_key(&1);
    assert!(m.store(&(1, 1)).is_none());
    assert!(m.store(&(1, 2)).is_none());
    assert_eq!(m.store(&(2, 1)), Some(&"c"));
    m.add_store((1, 1), "e");
    m.clear_type(&1);
    assert!(m.store(&(1, 1)).is_none());
    assert!(m.store(&(2, 1)).is_none());
    assert_eq!(m.store(&(2, 2)), Some(&"d"));
    m.add_store((2, 2), "f");
    assert_eq!(m.store(&(2, 2)), Some(&"f"));
    m.remove_store(&(2, 2));
    assert!(m.ids().is_empty());
    m.add_store((3, 3), "g");
    m.clear_all();
    assert!(m.ids().is_empty());
    assert_eq!(*m.config(), Config::default());
}
