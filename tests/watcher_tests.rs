use etcd_workbench::connection::KeyMonitorConfig;
use etcd_workbench::event::KeyWatchEventType;
use etcd_workbench::kv::SerializableKeyValue;
use etcd_workbench::watcher::{
    classify_change, watch_event, watch_plan, ChangeKind, NotifyThrottle, ReconnectPolicy,
    ReconnectStep, WatchEntry, WatchPlan, WatchTable, WATCH_RETRY_LIMIT,
};

fn config(key: &str) -> KeyMonitorConfig {
    KeyMonitorConfig {
        key: String::from(key),
        interval_seconds: 5,
        monitor_lease_change: false,
        monitor_value_change: true,
        monitor_create: true,
        monitor_remove: true,
        is_prefix: false,
        paused: false,
    }
}

fn record(key: &str, value: &str, version: i64) -> SerializableKeyValue {
    SerializableKeyValue::from_parts(key.as_bytes().to_vec(), 2, 2 + version, version, value.as_bytes().to_vec(), 0)
}

#[test]
fn version_one_put_is_create() {
    assert_eq!(classify_change(ChangeKind::Put, 1), KeyWatchEventType::Create);
    assert_eq!(classify_change(ChangeKind::Put, 2), KeyWatchEventType::Modify);
    assert_eq!(classify_change(ChangeKind::Delete, 1), KeyWatchEventType::Remove);
}

#[test]
fn events_carry_records() {
    let e = watch_event(3, String::from("/a"), ChangeKind::Put, 9, record("/a/b", "v2", 2), Some(record("/a/b", "v1", 1)));
    assert_eq!(e.event_type, KeyWatchEventType::Modify);
    assert_eq!(e.event_key, "/a/b");
    assert_eq!(e.prev_kv.unwrap().value, b"v1".to_vec());
    assert_eq!(e.cur_kv.unwrap().value, b"v2".to_vec());
    let c = watch_event(3, String::from("/a"), ChangeKind::Put, 9, record("/a/b", "v1", 1), None);
    assert_eq!(c.event_type, KeyWatchEventType::Create);
    assert!(c.prev_kv.is_none());
    let r = watch_event(3, String::from("/a"), ChangeKind::Delete, 9, record("/a/b", "", 0), None);
    assert_eq!(r.event_type, KeyWatchEventType::Remove);
    assert!(r.cur_kv.is_none());
    assert_eq!(r.prev_kv.unwrap().key, "/a/b");
}

#[test]
fn plan_follows_config() {
    let mut c = config("/k");
    assert_eq!(watch_plan(&c), Some(WatchPlan { prefix: false, no_delete: false, no_put: false }));
    c.monitor_remove = false;
    c.monitor_value_change = false;
    c.monitor_create = false;
    c.is_prefix = true;
    assert_eq!(watch_plan(&c), Some(WatchPlan { prefix: true, no_delete: true, no_put: true }));
    c.paused = true;
    assert_eq!(watch_plan(&c), None);
}

#[test]
fn permanent_failure_gives_up_once_at_cap() {
    let mut p = ReconnectPolicy::new(WATCH_RETRY_LIMIT);
    let mut retries = 0;
    let mut give_ups = 0;
    for _ in 0..25 {
        match p.on_failure() {
            ReconnectStep::RetryAfterBackoff => retries += 1,
            ReconnectStep::GiveUp => give_ups += 1,
            ReconnectStep::Nothing => {}
        }
    }
    assert_eq!(retries, 9);
    assert_eq!(give_ups, 1);
    assert!(p.gave_up());
}

#[test]
fn success_resets_the_count() {
    let mut p = ReconnectPolicy::new(3);
    assert_eq!(p.on_failure(), ReconnectStep::RetryAfterBackoff);
    assert_eq!(p.on_failure(), ReconnectStep::RetryAfterBackoff);
    p.on_success();
    assert_eq!(p.on_failure(), ReconnectStep::RetryAfterBackoff);
    assert_eq!(p.on_failure(), ReconnectStep::RetryAfterBackoff);
    assert_eq!(p.on_failure(), ReconnectStep::GiveUp);
    assert_eq!(p.on_failure(), ReconnectStep::Nothing);
}

#[test]
fn notifications_are_debounced() {
    let mut t = NotifyThrottle::new();
    assert!(t.should_notify(false, 10_000));
    assert!(!t.should_notify(true, 10_000));
    t.record(10_000);
    assert!(!t.should_notify(false, 12_999));
    assert!(t.should_notify(false, 13_000));
    assert!(!t.should_notify(false, 5));
}

#[test]
fn table_replaces_per_key() {
    let mut t: WatchTable<u32> = WatchTable::new();
    t.insert(WatchEntry { config: config("/a"), handle: 1 });
    t.insert(WatchEntry { config: config("/b"), handle: 2 });
    assert!(t.contains(&String::from("/a")));
    let old = t.take(&String::from("/a")).unwrap();
    assert_eq!(old.handle, 1);
    assert!(!t.contains(&String::from("/a")));
    assert!(t.take(&String::from("/a")).is_none());
    t.insert(WatchEntry { config: config("/a"), handle: 3 });
    assert_eq!(t.len(), 2);
    assert_eq!(t.keys(), vec![String::from("/b"), String::from("/a")]);
}
