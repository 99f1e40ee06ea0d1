use header_augmenting_filter::cache::{CacheWrite, SharedCache, StoreOutcome, CACHE_KEY};

#[test]
fn new_slot_is_empty_at_version_zero() {
    let cache = SharedCache::new();
    assert_eq!(cache.get(), (None, 0));
    assert!(!cache.is_populated());
    assert_eq!(CACHE_KEY, "cache");
}

#[test]
fn unconditional_write_overwrites_and_counts() {
    let mut cache = SharedCache::new();
    let first = CacheWrite { value: Some(b"one".to_vec()), expected_version: None };
    assert_eq!(cache.put(first), StoreOutcome::Stored);
    assert_eq!(cache.get(), (Some(&b"one".to_vec()), 1));
    assert!(cache.is_populated());

    let second = CacheWrite { value: Some(b"two".to_vec()), expected_version: None };
    assert_eq!(cache.put(second), StoreOutcome::Stored);
    assert_eq!(cache.get(), (Some(&b"two".to_vec()), 2));
}

#[test]
fn write_at_the_expected_version_is_taken() {
    let mut cache = SharedCache::holding(Some(b"old".to_vec()), 7);
    let write = CacheWrite { value: Some(b"new".to_vec()), expected_version: Some(7) };
    assert_eq!(cache.put(write), StoreOutcome::Stored);
    assert_eq!(cache.get(), (Some(&b"new".to_vec()), 8));
}

#[test]
fn write_at_another_version_conflicts_and_changes_nothing() {
    let mut cache = SharedCache::holding(Some(b"old".to_vec()), 7);
    let write = CacheWrite { value: Some(b"new".to_vec()), expected_version: Some(6) };
    assert_eq!(cache.put(write), StoreOutcome::Conflict);
    assert_eq!(cache.get(), (Some(&b"old".to_vec()), 7));
}

#[test]
fn emptying_write_leaves_no_payload() {
    let mut cache = SharedCache::holding(Some(b"old".to_vec()), 3);
    assert_eq!(cache.put(CacheWrite { value: None, expected_version: None }), StoreOutcome::Stored);
    assert_eq!(cache.get(), (None, 4));
    assert!(!cache.is_populated());
}

#[test]
fn slot_without_versions_left_takes_no_write() {
    let mut cache = SharedCache::holding(Some(b"old".to_vec()), u32::MAX);
    let write = CacheWrite { value: Some(b"new".to_vec()), expected_version: None };
    assert_eq!(cache.put(write), StoreOutcome::Failed);
    assert_eq!(cache.get(), (Some(&b"old".to_vec()), u32::MAX));

    let stale = CacheWrite { value: Some(b"new".to_vec()), expected_version: Some(1) };
    assert_eq!(cache.put(stale), StoreOutcome::Conflict);
}
