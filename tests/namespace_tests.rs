use etcd_workbench::namespace::{key_next, Namespace};

#[test]
fn strip_gives_back_the_key() {
    let ns = Namespace::new(&Some(String::from("/app")));
    let key = b"/a/app/b".to_vec();
    let full = ns.prefix_namespace(&key);
    assert_eq!(full, b"/app/a/app/b".to_vec());
    assert_eq!(ns.strip_namespace(&full), key);
}

#[test]
fn strip_keeps_namespace_bytes_later_in_the_key() {
    let ns = Namespace::from_bytes(b"ab".to_vec());
    let full = ns.prefix_namespace(b"abab");
    assert_eq!(full, b"ababab".to_vec());
    assert_eq!(ns.strip_namespace(&full), b"abab".to_vec());
}

#[test]
fn no_namespace_scopes_nothing() {
    let ns = Namespace::new(&None);
    assert!(!ns.has_namespace());
    assert_eq!(ns.prefix_namespace(b"/k"), b"/k".to_vec());
    assert_eq!(ns.prefix_namespace_to_range_end(&[0]), vec![0]);
    let empty = Namespace::new(&Some(String::new()));
    assert!(!empty.has_namespace());
    assert_eq!(empty.byte_len(), 0);
}

#[test]
fn key_next_raises_last_byte() {
    let mut k = b"/app".to_vec();
    key_next(&mut k);
    assert_eq!(k, b"/apq".to_vec());
}

#[test]
fn key_next_appends_zero_after_ff() {
    let mut k = vec![0x61, 0xFF];
    key_next(&mut k);
    assert_eq!(k, vec![0x61, 0xFF, 0x00]);
}

#[test]
fn range_end_of_namespace() {
    let ns = Namespace::new(&Some(String::from("/app")));
    assert_eq!(ns.prefix_namespace_to_range_end(&[0]), b"/apq".to_vec());
    assert_eq!(ns.prefix_namespace_to_range_end(b"/z"), b"/app/z".to_vec());
    assert_eq!(ns.root_key(), b"/app".to_vec());
}

#[test]
fn page_range_starts_after_cursor() {
    let ns = Namespace::new(&Some(String::from("/n")));
    let (start, end) = ns.page_range(b"/k");
    assert_eq!(start, b"/n/k\0".to_vec());
    assert_eq!(end, b"/o".to_vec());
    let plain = Namespace::new(&None);
    let (start, end) = plain.page_range(b"");
    assert_eq!(start, vec![0]);
    assert_eq!(end, vec![0]);
}

#[test]
fn incremented_prefix_bounds_its_keys() {
    let mut p = b"/a".to_vec();
    key_next(&mut p);
    for k in [b"/a".to_vec(), b"/a\xff\xff".to_vec(), b"/az".to_vec()] {
        assert!(k < p);
    }
    assert!(b"/b".to_vec() >= p);
}
