use etcd_workbench::connector::{ConnectorLifecycle, ConnectorState};
use etcd_workbench::connector::{after_move_delete, after_move_put, import_step, move_target, ImportStep, MoveStep};
use etcd_workbench::connector::{check_import_strategy, check_rename_limit, find_first_kv, import_key, prepare_import, put_lease, renamed_target, ImportRecord};
use etcd_workbench::kv::PutStrategy;
use etcd_workbench::error::LogicError;
use etcd_workbench::kv::SerializableKeyValue;

#[test]
fn lease_choice() {
    assert_eq!(put_lease(Some(5), Some(9)), Some(5));
    assert_eq!(put_lease(None, Some(9)), Some(9));
    assert_eq!(put_lease(None, Some(0)), None);
    assert_eq!(put_lease(None, None), None);
}

#[test]
fn rename_cap() {
    assert!(check_rename_limit(10, 10).is_ok());
    assert!(matches!(check_rename_limit(11, 10), Err(LogicError::LimitedError(11))));
}

#[test]
fn moved_and_imported_keys() {
    assert_eq!(renamed_target(b"/new/", b"/old/x/y", 5), b"/new/x/y".to_vec());
    assert_eq!(import_key(b"k", &Some(String::from("/p/"))), b"/p/k".to_vec());
    assert_eq!(import_key(b"k", &None), b"k".to_vec());
}

#[test]
fn first_record_or_absence() {
    assert!(matches!(find_first_kv(vec![]), Err(LogicError::ResourceNotExist(m)) if m == "The key does not exist or has expired."));
    let a = SerializableKeyValue::from_parts(b"/a".to_vec(), 1, 1, 1, vec![], 0);
    let b = SerializableKeyValue::from_parts(b"/b".to_vec(), 1, 1, 1, vec![], 0);
    assert_eq!(find_first_kv(vec![a, b]).unwrap().key, "/a");
}

#[test]
fn lifecycle() {
    let mut l = ConnectorLifecycle::new();
    assert!(matches!(l.check_ready(), Err(LogicError::ConnectionLose)));
    l.on_connected(true);
    assert_eq!(l.state(), ConnectorState::Ready);
    assert!(l.check_ready().is_ok());
    l.close();
    assert!(matches!(l.check_ready(), Err(LogicError::ConnectionLose)));
    l.on_connected(true);
    assert_eq!(l.state(), ConnectorState::Closed);
    let mut failed = ConnectorLifecycle::new();
    failed.on_connected(false);
    assert_eq!(failed.state(), ConnectorState::Closed);
}

#[test]
fn import_records() {
    assert!(matches!(prepare_import("2F6B", "7631", &Some(String::from("/p"))), ImportRecord::Ready { key, value } if key == b"/p/k".to_vec() && value == b"v1".to_vec()));
    assert!(matches!(prepare_import("2F6B", "7631", &None), ImportRecord::Ready { key, .. } if key == b"/k".to_vec()));
    assert!(matches!(prepare_import("2F6", "7631", &None), ImportRecord::BadKey(m) if m == "Hex string must have even length"));
    assert!(matches!(prepare_import("2F6B", "zz", &None), ImportRecord::BadValue { key, message } if key == b"/k".to_vec() && message == "Invalid hex at position 0: invalid digit found in string"));
    assert!(check_import_strategy(PutStrategy::Cover).is_ok());
    assert!(check_import_strategy(PutStrategy::Rename).is_ok());
    assert!(matches!(check_import_strategy(PutStrategy::AskMerge), Err(LogicError::ArgumentError)));
}

#[test]
fn move_and_import_steps() {
    assert_eq!(after_move_put(false, true), MoveStep::Stop);
    assert_eq!(after_move_put(true, true), MoveStep::DeleteOrigin);
    assert_eq!(after_move_put(true, false), MoveStep::NextKey);
    assert_eq!(after_move_delete(true), MoveStep::NextKey);
    assert_eq!(after_move_delete(false), MoveStep::Stop);
    assert_eq!(move_target(b"/n/a.txt".to_vec(), PutStrategy::Rename, Some(b"/n/a.txt".to_vec())), b"/n/a(rename).txt".to_vec());
    assert_eq!(move_target(b"/n/a.txt".to_vec(), PutStrategy::Cover, Some(b"/n/a.txt".to_vec())), b"/n/a.txt".to_vec());
    assert_eq!(move_target(b"/n/a.txt".to_vec(), PutStrategy::Rename, None), b"/n/a.txt".to_vec());
    assert_eq!(import_step(PutStrategy::Cover, None), ImportStep::Put);
    assert_eq!(import_step(PutStrategy::Rename, Some(true)), ImportStep::PutRenamed);
    assert_eq!(import_step(PutStrategy::Rename, Some(false)), ImportStep::Put);
    assert_eq!(import_step(PutStrategy::Rename, None), ImportStep::ReportAndSkip);
    assert_eq!(import_step(PutStrategy::AskMerge, Some(true)), ImportStep::Skip);
}
