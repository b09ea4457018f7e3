//! What a connection is made of, as the application stores and hands it over.

use vstd::prelude::*;

verus! {

/// User and password for etcd's own authentication.
#[derive(Clone, Debug)]
pub struct ConnectionUser {
    pub username: String,
    pub password: String,
}

/// A client certificate and its key, both PEM.
#[derive(Clone, Debug)]
pub struct TlsIdentity {
    pub cert: Vec<u8>,
    pub key: Vec<u8>,
}

/// TLS material: the expected domain, CA certificates, a client identity.
#[derive(Clone, Debug)]
pub struct ConnectionTls {
    pub domain: Option<String>,
    pub cert: Vec<Vec<u8>>,
    pub identity: Option<TlsIdentity>,
}

/// A private key for the SSH bastion, with its passphrase and the name of
/// the hash algorithm to sign with.
#[derive(Clone, Debug)]
pub struct SshPrivateKey {
    pub key: Vec<u8>,
    pub passphrase: Option<String>,
    pub hash_algorithm: Option<String>,
}

/// How to authenticate at the SSH bastion: by private key, else by password.
#[derive(Clone, Debug)]
pub struct SshIdentity {
    pub password: Option<String>,
    pub key: Option<SshPrivateKey>,
}

/// The SSH bastion that forwards to the etcd server.
#[derive(Clone, Debug)]
pub struct ConnectionSsh {
    pub host: String,
    pub port: u16,
    pub user: String,
    pub identity: Option<SshIdentity>,
}

/// Everything needed to reach one etcd server.
#[derive(Clone, Debug)]
pub struct Connection {
    pub host: String,
    pub port: u16,
    pub namespace: Option<String>,
    pub user: Option<ConnectionUser>,
    pub tls: Option<ConnectionTls>,
    pub ssh: Option<ConnectionSsh>,
}

/// A saved connection with its name, favourite keys and watched keys.
#[derive(Clone, Debug)]
pub struct ConnectionInfo {
    pub name: String,
    pub connection: Connection,
    pub key_collection: Vec<String>,
    pub key_monitor_list: Vec<KeyMonitorConfig>,
    pub key_monitor_paused: bool,
}

/// `a`'s key with every other setting of `b`.
pub open spec fn merged(a: KeyMonitorConfig, b: KeyMonitorConfig) -> KeyMonitorConfig {
    KeyMonitorConfig {
        key: a.key,
        interval_seconds: b.interval_seconds,
        monitor_lease_change: b.monitor_lease_change,
        monitor_value_change: b.monitor_value_change,
        monitor_create: b.monitor_create,
        monitor_remove: b.monitor_remove,
        is_prefix: b.is_prefix,
        paused: b.paused,
    }
}

/// `f` is the first position of a config for `key`.
pub open spec fn first_for_key(list: Seq<KeyMonitorConfig>, key: Seq<char>, f: int) -> bool {
    0 <= f < list.len() && list[f].key@ == key && forall|j: int| 0 <= j < f ==> list[j].key@ != key
}

impl ConnectionInfo {
    /// Saves a watch config: merged into the first saved config of its key,
    /// or added at the end when the key has none.
    pub fn set_key_monitor(&mut self, config: &KeyMonitorConfig)
        ensures
            final(self).name == old(self).name,
            final(self).connection == old(self).connection,
            final(self).key_collection == old(self).key_collection,
            final(self).key_monitor_paused == old(self).key_monitor_paused,
            (forall|i: int| 0 <= i < old(self).key_monitor_list@.len()
                ==> old(self).key_monitor_list@[i].key@ != config.key@) ==> final(self).key_monitor_list@
                == old(self).key_monitor_list@.push(*config),
            forall|f: int|
                first_for_key(old(self).key_monitor_list@, config.key@, f)
                    ==> final(self).key_monitor_list@ == old(self).key_monitor_list@.update(
                    f,
                    merged(old(self).key_monitor_list@[f], *config),
                ),
    {
        let mut i: usize = 0;
        while i < self.key_monitor_list.len()
            invariant
                self.key_monitor_list@ == old(self).key_monitor_list@,
                self.name == old(self).name,
                self.connection == old(self).connection,
                self.key_collection == old(self).key_collection,
                self.key_monitor_paused == old(self).key_monitor_paused,
                i <= self.key_monitor_list@.len(),
                forall|j: int| 0 <= j < i ==> self.key_monitor_list@[j].key@ != config.key@,
            decreases self.key_monitor_list@.len() - i,
        {
            if self.key_monitor_list[i].key == config.key {
                let mut c = self.key_monitor_list[i].duplicate();
                c.merge(config);
                self.key_monitor_list.set(i, c);
                proof {
                    assert forall|f: int| first_for_key(old(self).key_monitor_list@, config.key@, f) implies f == i by {
                        if f < i {
                        } else if f > i {
                            assert(old(self).key_monitor_list@[i as int].key@ != config.key@);
                        }
                    }
                }
                return;
            }
            i = i + 1;
        }
        self.key_monitor_list.push(config.duplicate());
    }

    /// Drops every saved watch config of `key`.
    pub fn remove_key_monitor(&mut self, key: &String)
        ensures
            final(self).name == old(self).name,
            final(self).connection == old(self).connection,
            final(self).key_collection == old(self).key_collection,
            final(self).key_monitor_paused == old(self).key_monitor_paused,
            final(self).key_monitor_list@ == old(self).key_monitor_list@.filter(
                |c: KeyMonitorConfig| c.key@ != key@,
            ),
    {
        let ghost pred = |c: KeyMonitorConfig| c.key@ != key@;
        let mut kept: Vec<KeyMonitorConfig> = Vec::new();
        let mut i: usize = 0;
        while i < self.key_monitor_list.len()
            invariant
                self.key_monitor_list@ == old(self).key_monitor_list@,
                i <= self.key_monitor_list@.len(),
                kept@ == self.key_monitor_list@.subrange(0, i as int).filter(pred),
                pred == (|c: KeyMonitorConfig| c.key@ != key@),
            decreases self.key_monitor_list@.len() - i,
        {
            let ghost s = self.key_monitor_list@.subrange(0, i + 1);
            let ghost prev = kept@;
            proof {
                reveal(Seq::filter);
                assert(s.drop_last() =~= self.key_monitor_list@.subrange(0, i as int));
                assert(s.last() == self.key_monitor_list@[i as int]);
                assert(s.len() > 0);
                assert(s.filter(pred) == (if pred(s.last()) {
                    s.drop_last().filter(pred).push(s.last())
                } else {
                    s.drop_last().filter(pred)
                }));
            }
            if !(self.key_monitor_list[i].key == *key) {
                let c = self.key_monitor_list[i].duplicate();
                kept.push(c);
                assert(kept@ == prev.push(s.last()));
            } else {
                assert(!pred(s.last()));
            }
            i = i + 1;
        }
        proof {
            assert(self.key_monitor_list@.subrange(0, i as int) =~= self.key_monitor_list@);
        }
        self.key_monitor_list = kept;
    }
}

/// What a new session reports to the application.
#[derive(Clone, Debug)]
pub struct SessionData {
    pub id: i32,
    pub user: Option<String>,
    pub root: bool,
    pub connection_saved: bool,
    pub namespace: Option<String>,
    pub key_collection: Option<Vec<String>>,
    pub key_monitor_list: Option<Vec<KeyMonitorConfig>>,
}

/// The watch settings of one key (or key prefix).
#[derive(Clone, Debug)]
pub struct KeyMonitorConfig {
    /// The key (full path) or the prefix watched.
    pub key: String,
    pub interval_seconds: u64,
    pub monitor_lease_change: bool,
    pub monitor_value_change: bool,
    pub monitor_create: bool,
    pub monitor_remove: bool,
    /// Watch every key under `key` rather than `key` alone.
    pub is_prefix: bool,
    /// Kept, but no live subscription is made for it.
    pub paused: bool,
}

impl KeyMonitorConfig {
    /// Takes over every setting of `other` but the key.
    pub fn merge(&mut self, other: &KeyMonitorConfig)
        ensures
            final(self).key == old(self).key,
            final(self).interval_seconds == other.interval_seconds,
            final(self).monitor_lease_change == other.monitor_lease_change,
            final(self).monitor_value_change == other.monitor_value_change,
            final(self).monitor_create == other.monitor_create,
            final(self).monitor_remove == other.monitor_remove,
            final(self).is_prefix == other.is_prefix,
            final(self).paused == other.paused,
    {
        self.interval_seconds = other.interval_seconds;
        self.monitor_lease_change = other.monitor_lease_change;
        self.monitor_value_change = other.monitor_value_change;
        self.monitor_create = other.monitor_create;
        self.monitor_remove = other.monitor_remove;
        self.is_prefix = other.is_prefix;
        self.paused = other.paused;
    }

    /// A field-by-field copy.
    pub fn duplicate(&self) -> (r: KeyMonitorConfig)
        ensures
            r == *self,
    {
        KeyMonitorConfig {
            key: self.key.clone(),
            interval_seconds: self.interval_seconds,
            monitor_lease_change: self.monitor_lease_change,
            monitor_value_change: self.monitor_value_change,
            monitor_create: self.monitor_create,
            monitor_remove: self.monitor_remove,
            is_prefix: self.is_prefix,
            paused: self.paused,
        }
    }
}

/// The hash algorithm of a private key when none is named.
pub fn default_private_key_hash_alg() -> (r: Option<String>)
    ensures
        r.is_none(),
{
    None
}

/// No favourite keys.
pub fn default_key_collection() -> (r: Vec<String>)
    ensures
        r@.len() == 0,
{
    Vec::new()
}

/// No watched keys.
pub fn default_key_monitor_list() -> (r: Vec<KeyMonitorConfig>)
    ensures
        r@.len() == 0,
{
    Vec::new()
}

} // verus!
