use imagepipe::{probe_keys, BufferCache, Pipeline};

fn key(tag: u8) -> [u8; 32] {
    let mut k = [0u8; 32];
    k[0] = tag;
    k
}

#[test]
fn cache_miss_and_hit() {
    let mut cache: BufferCache<u32> = Pipeline::new_cache(100);
    assert!(!cache.get(&key(1)));
    cache.put(key(1), 11, 10);
    assert!(cache.get(&key(1)));
    assert_eq!(*cache.front_value(), 11);
    assert!(!cache.get(&key(2)));
}

#[test]
fn cache_evicts_least_recently_used() {
    let mut cache: BufferCache<u32> = Pipeline::new_cache(100);
    cache.put(key(1), 11, 60);
    cache.put(key(2), 22, 60);
    // the first entry no longer fits and was the least recently used
    assert!(!cache.get(&key(1)));
    assert!(cache.get(&key(2)));
    assert_eq!(cache.len(), 1);
}

#[test]
fn cache_get_refreshes_recency() {
    let mut cache: BufferCache<u32> = Pipeline::new_cache(100);
    cache.put(key(1), 11, 40);
    cache.put(key(2), 22, 40);
    // touch the older entry so the newer one is evicted instead
    assert!(cache.get(&key(1)));
    cache.put(key(3), 33, 40);
    assert!(cache.get(&key(1)));
    assert!(cache.get(&key(3)));
    assert!(!cache.get(&key(2)));
}

#[test]
fn cache_put_replaces_same_key() {
    let mut cache: BufferCache<u32> = Pipeline::new_cache(100);
    cache.put(key(1), 11, 40);
    cache.put(key(1), 99, 40);
    assert_eq!(cache.len(), 1);
    assert!(cache.get(&key(1)));
    assert_eq!(*cache.front_value(), 99);
}

#[test]
fn cache_drops_oversized_entry() {
    let mut cache: BufferCache<u32> = Pipeline::new_cache(100);
    cache.put(key(1), 11, 40);
    cache.put(key(2), 22, 1000);
    // the oversized entry cannot stay, and neither could anything before it
    assert!(!cache.get(&key(2)));
    assert_eq!(cache.len(), 0);
}

#[test]
fn cache_probe_reports_hits() {
    let mut cache: BufferCache<u32> = Pipeline::new_cache(100);
    cache.put(key(1), 11, 10);
    cache.put(key(3), 33, 10);
    let keys = vec![key(1), key(2), key(3)];
    let hits = probe_keys(&mut cache, &keys);
    assert_eq!(hits, vec![true, false, true]);
    assert_eq!(cache.len(), 2);
}
