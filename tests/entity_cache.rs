use rusty_bank::entity_cache::EntityCache;

#[test]
fn same_identifier_gets_the_same_instance() {
    let mut cache = EntityCache::new(4);
    assert_eq!(cache.lookup(10), None);
    let (instance, evicted) = cache.record_spawn(10);
    assert_eq!(instance, 0);
    assert_eq!(evicted, None);
    assert_eq!(cache.lookup(10), Some(0));
    assert_eq!(cache.lookup(10), Some(0));
}

#[test]
fn instances_are_numbered_in_spawn_order() {
    let mut cache = EntityCache::new(4);
    assert_eq!(cache.record_spawn(1), (0, None));
    assert_eq!(cache.record_spawn(2), (1, None));
    assert_eq!(cache.record_spawn(3), (2, None));
    assert_eq!(cache.lookup(2), Some(1));
}

#[test]
fn least_recently_used_is_evicted_first() {
    let mut cache = EntityCache::new(2);
    assert_eq!(cache.record_spawn(1), (0, None));
    assert_eq!(cache.record_spawn(2), (1, None));
    // Using 1 makes 2 the least recently used.
    assert_eq!(cache.lookup(1), Some(0));
    assert_eq!(cache.record_spawn(3), (2, Some(2)));
    // The evicted identifier must be spawned again, the others are resident.
    assert_eq!(cache.lookup(2), None);
    assert_eq!(cache.lookup(1), Some(0));
    assert_eq!(cache.lookup(3), Some(2));
    // 3 was used after 1, so 1 goes next; 2 comes back as a fresh instance.
    assert_eq!(cache.record_spawn(2), (3, Some(1)));
    assert_eq!(cache.lookup(1), None);
    assert_eq!(cache.lookup(3), Some(2));
    assert_eq!(cache.lookup(2), Some(3));
}

#[test]
fn capacity_one_keeps_only_the_latest() {
    let mut cache = EntityCache::new(1);
    assert_eq!(cache.record_spawn(5), (0, None));
    assert_eq!(cache.record_spawn(6), (1, Some(5)));
    assert_eq!(cache.lookup(5), None);
    assert_eq!(cache.lookup(6), Some(1));
}
