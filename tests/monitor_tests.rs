use etcd_workbench::monitor::KeyMonitorEvent;
use etcd_workbench::connection::KeyMonitorConfig;
use etcd_workbench::monitor::{KeyMonitorEventType, MonitorChange, MonitorTask};

fn all_on(key: &str) -> KeyMonitorConfig {
    KeyMonitorConfig {
        key: String::from(key),
        interval_seconds: 1,
        monitor_lease_change: true,
        monitor_value_change: true,
        monitor_create: true,
        monitor_remove: true,
        is_prefix: false,
        paused: false,
    }
}

fn kinds(c: &[MonitorChange]) -> Vec<KeyMonitorEventType> {
    c.iter().map(|x| x.event_type()).collect()
}

#[test]
fn first_poll_reports_nothing() {
    let mut t = MonitorTask::new(all_on("/k"));
    assert!(t.observe(Some((b"v".to_vec(), 5))).is_empty());
}

#[test]
fn later_polls_report_differences() {
    let mut t = MonitorTask::new(all_on("/k"));
    t.observe(None);
    let c = t.observe(Some((b"v1".to_vec(), 0)));
    assert_eq!(kinds(&c), vec![KeyMonitorEventType::Create, KeyMonitorEventType::ValueChange]);
    let c = t.observe(Some((b"v2".to_vec(), 7)));
    assert_eq!(kinds(&c), vec![KeyMonitorEventType::LeaseChange, KeyMonitorEventType::ValueChange]);
    match &c[0] {
        MonitorChange::LeaseChanged { previous_lease, current_lease } => assert_eq!((*previous_lease, *current_lease), (0, 7)),
        _ => panic!("lease change expected"),
    }
    match &c[1] {
        MonitorChange::ValueChanged { previous, current } => {
            assert_eq!(previous, &b"v1".to_vec());
            assert_eq!(current, &b"v2".to_vec());
        }
        _ => panic!("value change expected"),
    }
    assert!(t.observe(Some((b"v2".to_vec(), 7))).is_empty());
    assert_eq!(kinds(&t.observe(None)), vec![KeyMonitorEventType::Remove]);
}

#[test]
fn new_config_starts_over() {
    let mut t = MonitorTask::new(all_on("/k"));
    t.observe(None);
    t.observe(None);
    t.set_config(all_on("/k"));
    assert!(t.observe(Some((b"v".to_vec(), 1))).is_empty());
    assert_eq!(t.config().key, "/k");
}

#[test]
fn descriptions() {
    assert_eq!(KeyMonitorEventType::Remove.desc(), "removed");
    assert_eq!(KeyMonitorEventType::Create.desc(), "created");
    assert_eq!(KeyMonitorEventType::LeaseChange.desc(), "lease changed");
    assert_eq!(KeyMonitorEventType::ValueChange.desc(), "value changed");
}

#[test]
fn monitor_events() {
    let e: KeyMonitorEvent<String> = KeyMonitorEvent::with(4, String::from("/k"), KeyMonitorEventType::Create, 77);
    assert!(e.previous.is_none() && e.current.is_none());
    assert_eq!((e.session, e.event_time), (4, 77));
    let v = KeyMonitorEvent::with_value(4, String::from("/k"), KeyMonitorEventType::LeaseChange, 78, String::from("0"), String::from("7"));
    assert_eq!(v.previous, Some(String::from("0")));
    assert_eq!(v.current, Some(String::from("7")));
}
