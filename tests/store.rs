use shardkv::command::Command;
use shardkv::connection::{next_action, Action, Event};
use shardkv::frame::{lock_failure, ok_reply, Frame};
use shardkv::shard::Shard;
use shardkv::store::{shard_index, ShardedStore};

fn bulk(s: &str) -> Frame {
    Frame::Bulk(s.as_bytes().to_vec())
}

fn ok() -> Frame {
    Frame::Simple("OK".to_string())
}

#[test]
fn five_shard_scenario() {
    let mut store = ShardedStore::new(5);
    assert_eq!(store.shard_count(), 5);
    assert_eq!(store.set("foo".to_string(), b"bar".to_vec()), ok());
    assert_eq!(store.get(&"foo".to_string()), bulk("bar"));
    assert_eq!(store.get(&"missing".to_string()), Frame::Null);
}

#[test]
fn hundred_keys_no_lost_updates() {
    let mut store = ShardedStore::new(5);
    for i in 0..100 {
        let reply = store.set(format!("key_{i}"), format!("value_{i}").into_bytes());
        assert_eq!(reply, ok());
    }
    for i in 0..100 {
        assert_eq!(store.get(&format!("key_{i}")), bulk(&format!("value_{i}")));
    }
}

#[test]
fn set_then_get_round_trip() {
    let mut store = ShardedStore::new(3);
    store.set("k".to_string(), vec![0, 1, 2, 255]);
    assert_eq!(store.get(&"k".to_string()), Frame::Bulk(vec![0, 1, 2, 255]));
}

#[test]
fn never_set_key_is_null() {
    let mut store = ShardedStore::new(4);
    store.set("a".to_string(), b"1".to_vec());
    store.set("b".to_string(), b"2".to_vec());
    assert_eq!(store.get(&"c".to_string()), Frame::Null);
}

#[test]
fn last_write_wins() {
    let mut store = ShardedStore::new(2);
    store.set("k".to_string(), b"v1".to_vec());
    store.set("k".to_string(), b"v2".to_vec());
    assert_eq!(store.get(&"k".to_string()), bulk("v2"));
}

#[test]
fn empty_key_and_value() {
    let mut store = ShardedStore::new(1);
    store.set(String::new(), Vec::new());
    assert_eq!(store.get(&String::new()), Frame::Bulk(Vec::new()));
}

#[test]
fn shard_index_is_stable_and_in_range() {
    for n in 1..10usize {
        for key in ["", "foo", "bar", "key_42", "\u{e9}t\u{e9}"] {
            let a = shard_index(key, n);
            let b = shard_index(&key.to_string(), n);
            assert_eq!(a, b);
            assert!(a < n);
        }
    }
    assert_eq!(shard_index("anything", 1), 0);
}

#[test]
fn shard_index_spreads_keys() {
    let mut seen = [false; 5];
    for i in 0..100 {
        seen[shard_index(&format!("key_{i}"), 5)] = true;
    }
    assert!(seen.iter().filter(|s| **s).count() > 1);
}

#[test]
fn execute_runs_commands() {
    let mut store = ShardedStore::new(5);
    let put = Command::Put { key: "x".to_string(), value: b"y".to_vec() };
    assert_eq!(store.execute(put), ok());
    assert_eq!(store.execute(Command::Get { key: "x".to_string() }), bulk("y"));
    assert_eq!(store.execute(Command::Get { key: "z".to_string() }), Frame::Null);
}

#[test]
fn shard_insert_and_get() {
    let mut shard = Shard::new();
    assert_eq!(shard.get(&"a".to_string()), Frame::Null);
    assert_eq!(shard.insert("a".to_string(), b"1".to_vec()), ok());
    assert_eq!(shard.insert("a".to_string(), b"2".to_vec()), ok());
    assert_eq!(shard.get(&"a".to_string()), bulk("2"));
    assert_eq!(shard.execute(Command::Get { key: "a".to_string() }), bulk("2"));
}

#[test]
fn reply_frames() {
    assert_eq!(ok_reply(), ok());
    assert_eq!(
        lock_failure("poisoned"),
        Frame::Error("Failed obtaining lock: poisoned".to_string())
    );
}

#[test]
fn malformed_input_closes_connection() {
    assert!(matches!(next_action(Event::Malformed, 5), Action::Close));
    assert!(matches!(next_action(Event::Closed, 5), Action::Close));
    let bad = Frame::Array(vec![bulk("ping")]);
    assert!(matches!(next_action(Event::Received(bad), 5), Action::Close));
}

#[test]
fn request_is_routed_to_its_shard() {
    let f = Frame::Array(vec![bulk("set"), bulk("foo"), bulk("bar")]);
    match next_action(Event::Received(f), 5) {
        Action::Run { shard, command } => {
            assert_eq!(shard, shard_index("foo", 5));
            assert_eq!(command, Command::Put { key: "foo".to_string(), value: b"bar".to_vec() });
        }
        Action::Close => panic!("a request must be served"),
    }
}
