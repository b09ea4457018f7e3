use etcd_workbench::connection::{default_key_collection, default_key_monitor_list, default_private_key_hash_alg, Connection, ConnectionInfo, KeyMonitorConfig};
use etcd_workbench::settings::SettingConfig;

#[test]
fn default_settings() {
    let s = SettingConfig::default();
    assert_eq!(s.theme, "auto");
    assert_eq!(s.editor_dark_theme, "barf");
    assert_eq!(s.editor_light_theme, "smoothy");
    assert_eq!(s.kv_path_splitter, "/");
    assert_eq!(s.kv_limit_per_page, 2000);
    assert_eq!((s.connect_timeout_seconds, s.request_timeout_seconds, s.ssh_connect_timeout_seconds), (5, 15, 10));
    assert_eq!(s.connection_conf_encrypt_key.len(), 16);
    assert!(s.kv_pagination_query && s.auto_update && s.close_tab_use_ctrl_w && s.kv_check_format_before_save);
}

#[test]
fn connection_defaults_and_merge() {
    assert!(default_private_key_hash_alg().is_none());
    assert!(default_key_collection().is_empty());
    assert!(default_key_monitor_list().is_empty());
    let mut a = KeyMonitorConfig { key: String::from("/a"), interval_seconds: 1, monitor_lease_change: false, monitor_value_change: false, monitor_create: false, monitor_remove: false, is_prefix: false, paused: false };
    let b = KeyMonitorConfig { key: String::from("/b"), interval_seconds: 9, monitor_lease_change: true, monitor_value_change: true, monitor_create: true, monitor_remove: true, is_prefix: true, paused: true };
    a.merge(&b);
    assert_eq!(a.key, "/a");
    assert_eq!(a.interval_seconds, 9);
    assert!(a.monitor_lease_change && a.monitor_value_change && a.monitor_create && a.monitor_remove && a.is_prefix && a.paused);
    let d = a.duplicate();
    assert_eq!(d.key, "/a");
}

fn monitor(key: &str, interval: u64) -> KeyMonitorConfig {
    KeyMonitorConfig { key: String::from(key), interval_seconds: interval, monitor_lease_change: false, monitor_value_change: false, monitor_create: true, monitor_remove: false, is_prefix: false, paused: false }
}

#[test]
fn saved_watch_configs() {
    let connection = Connection { host: String::from("h"), port: 1, namespace: None, user: None, tls: None, ssh: None };
    let mut info = ConnectionInfo { name: String::from("c"), connection, key_collection: vec![], key_monitor_list: vec![monitor("/a", 1), monitor("/b", 1)], key_monitor_paused: false };
    info.set_key_monitor(&monitor("/b", 7));
    assert_eq!(info.key_monitor_list.len(), 2);
    assert_eq!(info.key_monitor_list[1].interval_seconds, 7);
    info.set_key_monitor(&monitor("/c", 3));
    assert_eq!(info.key_monitor_list.len(), 3);
    assert_eq!(info.key_monitor_list[2].key, "/c");
    info.remove_key_monitor(&String::from("/a"));
    let keys: Vec<String> = info.key_monitor_list.iter().map(|c| c.key.clone()).collect();
    assert_eq!(keys, vec![String::from("/b"), String::from("/c")]);
}
