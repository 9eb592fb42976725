use chain_sync::cache::MockCompiledContractCache;

#[test]
fn an_empty_cache_has_no_entries() {
    let cache = MockCompiledContractCache::new();
    assert_eq!(cache.len(), 0);
    assert_eq!(cache.get(b"missing"), None);
}

#[test]
fn put_then_get_round_trips() {
    let mut cache = MockCompiledContractCache::new();
    cache.put(b"key-1", b"artifact-1");
    cache.put(b"key-2", b"artifact-2");
    assert_eq!(cache.len(), 2);
    assert_eq!(cache.get(b"key-1"), Some(b"artifact-1".to_vec()));
    assert_eq!(cache.get(b"key-2"), Some(b"artifact-2".to_vec()));
    assert_eq!(cache.get(b"key-3"), None);
}

#[test]
fn overwriting_a_key_keeps_one_entry() {
    let mut cache = MockCompiledContractCache::new();
    cache.put(b"key", b"old");
    cache.put(b"key", b"new");
    assert_eq!(cache.len(), 1);
    assert_eq!(cache.get(b"key"), Some(b"new".to_vec()));
}
