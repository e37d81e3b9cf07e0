use shardkv::kv::KvStore;

#[test]
fn kv_get_missing_is_none() {
    let store = KvStore::new();
    assert_eq!(store.get("a".to_string()), None);
}

#[test]
fn kv_set_then_get() {
    let mut store = KvStore::new();
    store.set("a".to_string(), "1".to_string());
    store.set("b".to_string(), "2".to_string());
    assert_eq!(store.get("a".to_string()), Some("1".to_string()));
    assert_eq!(store.get("b".to_string()), Some("2".to_string()));
}

#[test]
fn kv_set_overwrites() {
    let mut store = KvStore::new();
    store.set("a".to_string(), "1".to_string());
    store.set("a".to_string(), "2".to_string());
    assert_eq!(store.get("a".to_string()), Some("2".to_string()));
}

#[test]
fn kv_remove() {
    let mut store = KvStore::new();
    store.set("a".to_string(), "1".to_string());
    store.set("b".to_string(), "2".to_string());
    store.remove("a".to_string());
    store.remove("zzz".to_string());
    assert_eq!(store.get("a".to_string()), None);
    assert_eq!(store.get("b".to_string()), Some("2".to_string()));
}
