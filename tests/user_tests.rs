use etcd_workbench::user::{is_root_user, permission_covers_all_keys, permission_kind, PermissionKind, SerializablePermission};

fn perm(key: &str, prefix: bool, all_keys: bool) -> SerializablePermission {
    SerializablePermission { key: String::from(key), perm_type: 2, prefix, all_keys }
}

#[test]
fn range_ends() {
    assert_eq!(perm("/a", false, true).parse_range_end(), vec![0]);
    assert_eq!(perm("/a", true, false).parse_range_end(), b"/b".to_vec());
    assert_eq!(perm("/a", false, false).parse_range_end(), Vec::<u8>::new());
    assert_eq!(perm("", true, false).parse_range_end(), Vec::<u8>::new());
    assert_eq!(perm("\u{7f}", true, false).parse_range_end(), vec![0x80]);
}

#[test]
fn all_keys_forms() {
    assert!(permission_covers_all_keys(&[], &[]));
    assert!(permission_covers_all_keys(&[], &[0]));
    assert!(permission_covers_all_keys(&[0], &[0]));
    assert!(!permission_covers_all_keys(&[0], &[]));
    assert!(!permission_covers_all_keys(b"/a", &[0]));
}

#[test]
fn kinds() {
    assert_eq!(permission_kind(0), PermissionKind::Read);
    assert_eq!(permission_kind(1), PermissionKind::Write);
    assert_eq!(permission_kind(2), PermissionKind::ReadWrite);
    assert_eq!(permission_kind(9), PermissionKind::Read);
    assert_eq!(perm("/a", false, false).kind(), PermissionKind::ReadWrite);
}

#[test]
fn root_users() {
    assert!(is_root_user(&String::from("root"), &vec![]));
    assert!(is_root_user(&String::from("ann"), &vec![String::from("dev"), String::from("root")]));
    assert!(!is_root_user(&String::from("ann"), &vec![String::from("dev")]));
}
