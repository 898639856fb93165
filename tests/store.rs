use bytes::Bytes;
use mini_redis::Frame;
use mini_redis_client_in_tokio::{
    classify, decode_frame, encode_response, partition, Command, ErrorKind, RedisDB, RedisError, Response,
    Shard,
};

fn put(db: &RedisDB, key: &str, value: &[u8]) -> Response {
    db.execute(Command::Put { key: key.to_string(), value: value.to_vec() }).unwrap()
}

fn get(db: &RedisDB, key: &str) -> Response {
    db.execute(Command::Get { key: key.to_string() }).unwrap()
}

fn value_of(resp: &Response) -> Option<Vec<u8>> {
    resp.value()
}

fn request(words: &[&str]) -> Frame {
    let mut parts = Vec::new();
    for w in words {
        parts.push(Frame::Bulk(Bytes::from(w.as_bytes().to_vec())));
    }
    Frame::Array(parts)
}

#[test]
fn partition_is_length_modulo_count() {
    assert_eq!(partition("ab", 2), 0);
    assert_eq!(partition("abc", 2), 1);
    assert_eq!(partition("xyz", 2), 1);
    assert_eq!(partition("", 3), 0);
    assert_eq!(partition("abcdefg", 3), 1);
    assert_eq!(partition("anything", 1), 0);
}

#[test]
fn partition_counts_bytes_not_characters() {
    // "é" is one character and two bytes in UTF-8.
    assert_eq!(partition("é", 2), 0);
    assert_eq!(partition("é", 3), 2);
}

#[test]
fn partition_is_deterministic() {
    for key in ["", "a", "hello", "some longer key"] {
        let first = partition(key, 7);
        for _ in 0..10 {
            assert_eq!(partition(key, 7), first);
        }
        assert!(first < 7);
    }
}

#[test]
fn zero_shards_is_a_construction_error() {
    let r = RedisDB::new(0);
    assert!(r.is_err());
    assert_eq!(r.err().unwrap().kind(), ErrorKind::Construction);
}

#[test]
fn new_store_has_requested_shards() {
    let db = RedisDB::new(10).unwrap();
    assert_eq!(db.num_shards(), 10);
    assert_eq!(db.shade_of("abc"), 3);
}

#[test]
fn scenario_two_shards() {
    let db = RedisDB::new(2).unwrap();
    assert!(matches!(put(&db, "ab", b"1"), Response::Acknowledged));
    assert_eq!(db.shade_of("ab"), 0);
    assert!(matches!(put(&db, "abc", b"2"), Response::Acknowledged));
    assert_eq!(db.shade_of("abc"), 1);
    assert_eq!(value_of(&get(&db, "ab")), Some(b"1".to_vec()));
    assert_eq!(db.shade_of("xyz"), 1);
    assert!(matches!(get(&db, "xyz"), Response::Absent));
    assert!(matches!(put(&db, "ab", b"3"), Response::Acknowledged));
    assert_eq!(value_of(&get(&db, "ab")), Some(b"3".to_vec()));
    assert_eq!(value_of(&get(&db, "abc")), Some(b"2".to_vec()));
}

#[test]
fn read_your_write_then_last_write_wins() {
    let db = RedisDB::new(4).unwrap();
    put(&db, "key", b"v1");
    assert_eq!(value_of(&get(&db, "key")), Some(b"v1".to_vec()));
    put(&db, "key", b"v2");
    assert_eq!(value_of(&get(&db, "key")), Some(b"v2".to_vec()));
}

#[test]
fn unwritten_key_is_absent() {
    let db = RedisDB::new(3).unwrap();
    assert!(matches!(get(&db, "never"), Response::Absent));
    put(&db, "other", b"x");
    assert!(matches!(get(&db, "never"), Response::Absent));
}

#[test]
fn empty_key_and_empty_value() {
    let db = RedisDB::new(1).unwrap();
    put(&db, "", b"");
    assert_eq!(value_of(&get(&db, "")), Some(Vec::new()));
}

#[test]
fn unsupported_command_is_refused_and_changes_nothing() {
    let db = RedisDB::new(2).unwrap();
    put(&db, "counter", b"5");
    let r = db.execute(Command::Other { description: "incr counter".to_string() });
    let e = r.err().unwrap();
    assert_eq!(e.kind(), ErrorKind::UnsupportedCommand);
    assert_eq!(e.message(), "invalid cmd: incr counter");
    assert_eq!(value_of(&get(&db, "counter")), Some(b"5".to_vec()));
    assert!(matches!(get(&db, "incr"), Response::Absent));
}

#[test]
fn clones_share_shards() {
    let db = RedisDB::new(3).unwrap();
    let other = db.clone();
    put(&other, "shared", b"yes");
    assert_eq!(value_of(&get(&db, "shared")), Some(b"yes".to_vec()));
    assert_eq!(other.num_shards(), 3);
}

#[test]
fn direct_get_and_set_on_store() {
    let db = RedisDB::new(5).unwrap();
    assert!(matches!(db.set("k".to_string(), b"v".to_vec()).unwrap(), Response::Acknowledged));
    assert_eq!(value_of(&db.get("k").unwrap()), Some(b"v".to_vec()));
    assert!(matches!(db.get("missing").unwrap(), Response::Absent));
}

#[test]
fn shard_get_set_and_len() {
    let mut s = Shard::new();
    assert_eq!(s.len(), 0);
    assert_eq!(s.get("a"), None);
    s.set("a".to_string(), b"1".to_vec());
    s.set("b".to_string(), b"2".to_vec());
    assert_eq!(s.len(), 2);
    assert_eq!(s.get("a"), Some(b"1".to_vec()));
    s.set("a".to_string(), b"3".to_vec());
    assert_eq!(s.len(), 2);
    assert_eq!(s.get("a"), Some(b"3".to_vec()));
    assert_eq!(s.get("b"), Some(b"2".to_vec()));
}

#[test]
fn error_new_is_protocol() {
    let e = RedisError::new("bad frame");
    assert_eq!(e.kind(), ErrorKind::Protocol);
    assert_eq!(e.message(), "bad frame");
}

#[test]
fn encode_value_absent_and_ack() {
    match encode_response(Response::Value(b"hello".to_vec())) {
        Frame::Bulk(b) => assert_eq!(&b[..], b"hello"),
        other => panic!("unexpected frame {:?}", other),
    }
    assert!(matches!(encode_response(Response::Absent), Frame::Null));
    match encode_response(Response::Acknowledged) {
        Frame::Simple(s) => assert_eq!(s, "OK"),
        other => panic!("unexpected frame {:?}", other),
    }
}

#[test]
fn decode_get_set_and_other() {
    match decode_frame(request(&["set", "k", "v"])).unwrap() {
        Command::Put { key, value } => {
            assert_eq!(key, "k");
            assert_eq!(value, b"v".to_vec());
        }
        _ => panic!("expected a SET"),
    }
    match decode_frame(request(&["GET", "k"])).unwrap() {
        Command::Get { key } => assert_eq!(key, "k"),
        _ => panic!("expected a GET"),
    }
    assert!(matches!(decode_frame(request(&["incr", "k"])).unwrap(), Command::Other { .. }));
}

#[test]
fn decode_malformed_is_protocol_error() {
    let e = decode_frame(Frame::Simple("get".to_string())).err().unwrap();
    assert_eq!(e.kind(), ErrorKind::Protocol);
    let e = decode_frame(request(&["get"])).err().unwrap();
    assert_eq!(e.kind(), ErrorKind::Protocol);
}

#[test]
fn dispatch_round_trip() {
    let db = RedisDB::new(2).unwrap();
    match db.dispatch(request(&["set", "ab", "1"])).unwrap() {
        Frame::Simple(s) => assert_eq!(s, "OK"),
        other => panic!("unexpected frame {:?}", other),
    }
    match db.dispatch(request(&["get", "ab"])).unwrap() {
        Frame::Bulk(b) => assert_eq!(&b[..], b"1"),
        other => panic!("unexpected frame {:?}", other),
    }
    assert!(matches!(db.dispatch(request(&["get", "xyz"])).unwrap(), Frame::Null));
    let e = db.dispatch(request(&["publish", "chan", "msg"])).err().unwrap();
    assert_eq!(e.kind(), ErrorKind::UnsupportedCommand);
    let e = db.dispatch(Frame::Integer(3)).err().unwrap();
    assert_eq!(e.kind(), ErrorKind::Protocol);
}

#[test]
fn keys_compare_byte_for_byte() {
    let db = RedisDB::new(2).unwrap();
    put(&db, "Ab", b"1");
    assert_eq!(db.shade_of("ab"), db.shade_of("Ab"));
    assert!(matches!(get(&db, "ab"), Response::Absent));
    assert_eq!(value_of(&get(&db, "Ab")), Some(b"1".to_vec()));
}

#[test]
fn shard_answer_maps_lookup() {
    let mut s = Shard::new();
    assert!(matches!(s.answer("k"), Response::Absent));
    s.set("k".to_string(), b"v".to_vec());
    assert_eq!(s.answer("k").value(), Some(b"v".to_vec()));
}

#[test]
fn error_display_text_has_prefix() {
    let e = RedisError::new("bad frame");
    assert_eq!(e.display_text(), "redis error; bad frame");
}

#[test]
fn classify_parsed_commands() {
    let parsed = mini_redis::Command::from_frame(request(&["set", "k", "v"])).unwrap();
    match classify(parsed) {
        Command::Put { key, value } => {
            assert_eq!(key, "k");
            assert_eq!(value, b"v".to_vec());
        }
        _ => panic!("expected a SET"),
    }
    let parsed = mini_redis::Command::from_frame(request(&["get", "k"])).unwrap();
    assert!(matches!(classify(parsed), Command::Get { .. }));
    let parsed = mini_redis::Command::from_frame(request(&["subscribe", "c"])).unwrap();
    match classify(parsed) {
        Command::Other { description } => assert!(description.contains("Subscribe")),
        _ => panic!("expected another command"),
    }
}

#[test]
fn decode_error_keeps_parser_message() {
    let e = decode_frame(Frame::Integer(7)).err().unwrap();
    assert_eq!(e.kind(), ErrorKind::Protocol);
    assert!(e.message().starts_with("protocol error; expected array"));
}

#[test]
fn dispatch_scenario_with_refused_increment() {
    let db = RedisDB::new(2).unwrap();
    db.dispatch(request(&["set", "k", "1"])).unwrap();
    let e = db.dispatch(request(&["incr", "k"])).err().unwrap();
    assert_eq!(e.kind(), ErrorKind::UnsupportedCommand);
    assert!(e.message().starts_with("invalid cmd: "));
    match db.dispatch(request(&["get", "k"])).unwrap() {
        Frame::Bulk(b) => assert_eq!(&b[..], b"1"),
        other => panic!("unexpected frame {:?}", other),
    }
}

#[test]
fn dispatch_accepts_upper_case_names() {
    let db = RedisDB::new(2).unwrap();
    match db.dispatch(request(&["SET", "k", "v"])).unwrap() {
        Frame::Simple(s) => assert_eq!(s, "OK"),
        other => panic!("unexpected frame {:?}", other),
    }
    match db.dispatch(request(&["GeT", "k"])).unwrap() {
        Frame::Bulk(b) => assert_eq!(&b[..], b"v"),
        other => panic!("unexpected frame {:?}", other),
    }
}

#[test]
fn dispatch_malformed_array_is_protocol_error() {
    let db = RedisDB::new(2).unwrap();
    let e = db.dispatch(request(&["get"])).err().unwrap();
    assert_eq!(e.kind(), ErrorKind::Protocol);
    let e = db.dispatch(request(&["set", "k"])).err().unwrap();
    assert_eq!(e.kind(), ErrorKind::Protocol);
}

#[test]
fn dispatch_refuses_every_other_command() {
    let db = RedisDB::new(2).unwrap();
    for words in [&["INCR", "k"][..], &["publish", "c", "m"][..], &["subscribe", "c"][..], &["unsubscribe"][..]] {
        let e = db.dispatch(request(words)).err().unwrap();
        assert_eq!(e.kind(), ErrorKind::UnsupportedCommand);
        assert!(e.message().starts_with("invalid cmd: "));
    }
}
