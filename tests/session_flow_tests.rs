use etcd_workbench::connection::KeyMonitorConfig;
use etcd_workbench::error::LogicError;
use etcd_workbench::event::KeyWatchEventType;
use etcd_workbench::kv::SerializableKeyValue;
use etcd_workbench::namespace::Namespace;
use etcd_workbench::registry::SessionRegistry;
use etcd_workbench::tunnel::{dial_target, AcceptEvent, AcceptStep, TunnelControl};
use etcd_workbench::watcher::{watch_event, watch_plan, ChangeKind, WatchEntry, WatchTable};

struct Bundle {
    namespace: Namespace,
    tunnel: Option<TunnelControl>,
    watches: WatchTable<u32>,
}

fn put(key: &str, value: &str, version: i64) -> SerializableKeyValue {
    SerializableKeyValue::from_parts(key.as_bytes().to_vec(), 5, 5 + version, version, value.as_bytes().to_vec(), 0)
}

#[test]
fn tunnel_watch_and_disconnect() {
    let mut sessions: SessionRegistry<Bundle> = SessionRegistry::new();
    let id = sessions.allocate_id().unwrap();

    let tunnel = TunnelControl::new(43210);
    let (host, port) = dial_target(&String::from("etcd.internal"), 2379, Some(tunnel.get_proxy_port()));
    assert_eq!((host.as_str(), port), ("127.0.0.1", 43210));

    let config = KeyMonitorConfig {
        key: String::from("/a/b"),
        interval_seconds: 1,
        monitor_lease_change: false,
        monitor_value_change: true,
        monitor_create: true,
        monitor_remove: true,
        is_prefix: false,
        paused: false,
    };
    assert!(watch_plan(&config).is_some());
    let mut watches = WatchTable::new();
    watches.insert(WatchEntry { config, handle: 1 });
    sessions.insert(id, Bundle { namespace: Namespace::new(&None), tunnel: Some(tunnel), watches });

    let bundle = sessions.get(id).unwrap();
    assert_eq!(bundle.namespace.prefix_namespace(b"/a/b"), b"/a/b".to_vec());
    assert!(bundle.watches.contains(&String::from("/a/b")));

    let created = watch_event(id, String::from("/a/b"), ChangeKind::Put, 1, put("/a/b", "v1", 1), None);
    assert_eq!(created.event_type, KeyWatchEventType::Create);
    assert_eq!(created.cur_kv.as_ref().unwrap().value, b"v1".to_vec());

    let modified = watch_event(id, String::from("/a/b"), ChangeKind::Put, 2, put("/a/b", "v2", 2), Some(put("/a/b", "v1", 1)));
    assert_eq!(modified.event_type, KeyWatchEventType::Modify);
    assert_eq!(modified.prev_kv.as_ref().unwrap().value, b"v1".to_vec());
    assert_eq!(modified.cur_kv.as_ref().unwrap().value, b"v2".to_vec());

    let removed = watch_event(id, String::from("/a/b"), ChangeKind::Delete, 3, put("/a/b", "", 0), None);
    assert_eq!(removed.event_type, KeyWatchEventType::Remove);

    let mut bundle = sessions.remove(id).unwrap();
    for key in bundle.watches.keys() {
        assert!(bundle.watches.take(&key).is_some());
    }
    assert_eq!(bundle.watches.len(), 0);
    let mut tunnel = bundle.tunnel.take().unwrap();
    assert!(tunnel.abort());
    assert_eq!(tunnel.accept_step(AcceptEvent::Connection), AcceptStep::Stop);
    assert!(matches!(sessions.get(id), Err(LogicError::ConnectionLose)));
}
