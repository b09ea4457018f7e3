use etcd_workbench::error::LogicError;
use etcd_workbench::registry::SessionRegistry;

#[test]
fn ids_increase_and_lookups_fail_softly() {
    let mut r: SessionRegistry<&str> = SessionRegistry::new();
    let a = r.allocate_id().unwrap();
    let b = r.allocate_id().unwrap();
    assert_eq!((a, b), (1, 2));
    r.insert(a, "first");
    assert!(r.contains(a));
    assert!(!r.contains(b));
    assert_eq!(*r.get(a).unwrap(), "first");
    assert!(matches!(r.get(b), Err(LogicError::ConnectionLose)));
    r.insert(b, "second");
    assert_eq!(r.ids(), vec![1, 2]);
    assert_eq!(r.remove(a), Some("first"));
    assert_eq!(r.remove(a), None);
    assert!(matches!(r.get(a), Err(LogicError::ConnectionLose)));
    assert_eq!(r.allocate_id(), Some(3));
}
