use etcd_workbench::kv::{KVPutResult, PutStrategy, SerializableKeyValue};

#[test]
fn record_from_parts() {
    let kv = SerializableKeyValue::from_parts(b"/ns/k".to_vec(), 3, 9, 4, b"v".to_vec(), -42);
    assert_eq!(kv.key, "/ns/k");
    assert!(kv.key_encoded_utf8);
    assert_eq!(kv.lease, "-42");
    assert_eq!(kv.version, 4);
    let zero = SerializableKeyValue::from_parts(vec![0xFF, 0x41], 1, 1, 1, vec![], 0);
    assert!(!zero.key_encoded_utf8);
    assert_eq!(zero.key, "\u{FFFD}A");
    assert_eq!(zero.lease, "0");
}

#[test]
fn remove_prefix_strips_and_renews_text() {
    let mut kv = SerializableKeyValue::from_parts(b"/ns/a/ns".to_vec(), 1, 1, 1, vec![], 0);
    kv.remove_prefix(3);
    assert_eq!(kv.key_bytes, b"/a/ns".to_vec());
    assert_eq!(kv.key, "/a/ns");
    kv.remove_prefix(0);
    assert_eq!(kv.key, "/a/ns");
}

#[test]
fn rename_puts_marker_before_extension() {
    assert_eq!(PutStrategy::rename(b"/a/b.txt"), b"/a/b(rename).txt".to_vec());
    assert_eq!(PutStrategy::rename(b"/a.d/b"), b"/a(rename).d/b".to_vec());
    assert_eq!(PutStrategy::rename(b"/a/b"), b"/a/b(rename)".to_vec());
    assert_eq!(PutStrategy::rename(b""), b"(rename)".to_vec());
    assert_eq!(PutStrategy::rename(b"/a/key-1.txt"), b"/a/key-1(rename).txt".to_vec());
}

#[test]
fn rename_reads_invalid_bytes_as_replacement() {
    assert_eq!(PutStrategy::rename(&[0xFF]), b"\xEF\xBF\xBD(rename)".to_vec());
    assert_eq!(PutStrategy::rename(&[0x61, 0xFF, 0x2E, 0x62]), b"a\xEF\xBF\xBD(rename).b".to_vec());
}

#[test]
fn versioned_put() {
    assert!(KVPutResult::check_version(-1, Some((b"x".to_vec(), 3))).is_none());
    assert!(KVPutResult::check_version(3, Some((b"x".to_vec(), 3))).is_none());
    assert!(KVPutResult::check_version(3, None).is_none());
    let refused = KVPutResult::check_version(2, Some((b"x".to_vec(), 3))).unwrap();
    assert!(!refused.success);
    assert_eq!(refused.exist_value, Some(b"x".to_vec()));
    assert_eq!(refused.exist_version, Some(3));
}

#[test]
fn strip_a_list_of_records() {
    let kvs = vec![
        SerializableKeyValue::from_parts(b"/ns/a".to_vec(), 1, 1, 1, vec![], 0),
        SerializableKeyValue::from_parts(b"/n".to_vec(), 1, 1, 1, vec![], 0),
        SerializableKeyValue::from_parts(b"/ns/b/c".to_vec(), 1, 1, 1, vec![], 0),
    ];
    let out = SerializableKeyValue::from_vec(kvs, 3);
    let keys: Vec<String> = out.iter().map(|k| k.key.clone()).collect();
    assert_eq!(keys, vec![String::from("/a"), String::from("/n"), String::from("/b/c")]);
}
