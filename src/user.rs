//! Users, roles and key permissions.

use vstd::prelude::*;
use vstd::utf8::encode_utf8;
use crate::namespace::bytes_of;

verus! {

/// A user and the roles granted to it.
#[derive(Clone, Debug)]
pub struct SerializableUser {
    pub user: String,
    pub roles: Vec<String>,
}

/// A permission of a role on a key, a key prefix, or every key.
#[derive(Clone, Debug)]
pub struct SerializablePermission {
    pub key: String,
    pub perm_type: i32,
    pub prefix: bool,
    pub all_keys: bool,
}

/// The kind of access a permission grants.
#[derive(Clone, Copy, Debug, PartialEq, Eq, Structural)]
pub enum PermissionKind {
    Read,
    Write,
    ReadWrite,
}

/// The kind numbered `v` on the wire (0 read, 1 write, 2 both); an unknown
/// number reads as read.
pub open spec fn kind_of(v: i32) -> PermissionKind {
    if v == 1 {
        PermissionKind::Write
    } else if v == 2 {
        PermissionKind::ReadWrite
    } else {
        PermissionKind::Read
    }
}

/// The range end a permission is granted up to: a single 0x00 for every key;
/// for a prefix, the key with its last byte raised by one (0xFF gets a 0x01
/// appended; an empty key stays empty); nothing for a single key.
pub open spec fn permission_range_end(key: Seq<u8>, prefix: bool, all_keys: bool) -> Seq<u8> {
    if all_keys {
        seq![0u8]
    } else if prefix {
        if key.len() == 0 {
            key
        } else if key.last() == 0xFF {
            key.push(1)
        } else {
            key.update(key.len() - 1, (key.last() + 1) as u8)
        }
    } else {
        Seq::empty()
    }
}

/// Whether a granted key and range end stand for every key: an empty key
/// with an empty or 0x00 range end, or (as older servers send it) a 0x00
/// key with a 0x00 range end.
pub open spec fn covers_all_keys(key: Seq<u8>, range_end: Seq<u8>) -> bool {
    (key.len() == 0 && (range_end.len() == 0 || range_end == seq![0u8])) || (key == seq![0u8]
        && range_end == seq![0u8])
}

impl SerializablePermission {
    /// The range end to grant or revoke the permission with.
    pub fn parse_range_end(&self) -> (r: Vec<u8>)
        ensures
            r@ == permission_range_end(encode_utf8(self.key@), self.prefix, self.all_keys),
    {
        if self.all_keys {
            let r = vec![0u8];
            assert(r@ =~= seq![0u8]);
            r
        } else if self.prefix {
            let mut range_end = bytes_of(self.key.as_str().as_bytes());
            let len = range_end.len();
            if len > 0 {
                let last = range_end[len - 1];
                if last == 255u8 {
                    range_end.push(1u8);
                } else {
                    range_end.set(len - 1, last + 1);
                }
            }
            range_end
        } else {
            let r: Vec<u8> = Vec::new();
            assert(r@ =~= Seq::<u8>::empty());
            r
        }
    }

    /// The kind of access granted.
    pub fn kind(&self) -> (r: PermissionKind)
        ensures
            r == kind_of(self.perm_type),
    {
        permission_kind(self.perm_type)
    }
}

/// The kind numbered `v` on the wire.
pub fn permission_kind(v: i32) -> (r: PermissionKind)
    ensures
        r == kind_of(v),
{
    if v == 1 {
        PermissionKind::Write
    } else if v == 2 {
        PermissionKind::ReadWrite
    } else {
        PermissionKind::Read
    }
}

/// Whether a permission as the server sent it covers every key.
pub fn permission_covers_all_keys(key: &[u8], range_end: &[u8]) -> (r: bool)
    ensures
        r == covers_all_keys(key@, range_end@),
{
    let r = (key.len() == 0 && (range_end.len() == 0 || (range_end.len() == 1 && range_end[0]
        == 0u8))) || (key.len() == 1 && range_end.len() == 1 && key[0] == 0u8 && range_end[0]
        == 0u8);
    proof {
        if range_end@ == seq![0u8] {
            assert(range_end@[0] == 0u8);
        }
        if key@ == seq![0u8] {
            assert(key@[0] == 0u8);
        }
        if range_end.len() == 1 && range_end@[0] == 0u8 {
            assert(range_end@ =~= seq![0u8]);
        }
        if key.len() == 1 && key@[0] == 0u8 {
            assert(key@ =~= seq![0u8]);
        }
    }
    r
}

/// The name of the superuser and of its role.
pub open spec fn root_name() -> Seq<char> {
    "root"@
}

/// Whether a user counts as root: it is the root user, or holds the root role.
pub fn is_root_user(user: &String, roles: &Vec<String>) -> (r: bool)
    ensures
        r == (user@ == root_name() || exists|i: int| 0 <= i < roles@.len() && roles@[i]@ == root_name()),
{
    let root = "root".to_owned();
    if *user == root {
        return true;
    }
    let mut i: usize = 0;
    while i < roles.len()
        invariant
            i <= roles@.len(),
            root@ == root_name(),
            forall|k: int| 0 <= k < i ==> roles@[k]@ != root_name(),
        decreases roles@.len() - i,
    {
        if roles[i] == root {
            return true;
        }
        i = i + 1;
    }
    false
}

} // verus!
