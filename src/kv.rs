//! Key-value records as the application sees them.

use vstd::prelude::*;
use vstd::utf8::{encode_utf8, valid_utf8};
use crate::namespace::bytes_from;
use crate::text::{decimal_string, decimal_text, is_utf8, lossy_text, text_of_bytes};

verus! {

/// The language of a pretty-printed value.
#[derive(Clone, Copy, Debug, PartialEq, Eq, Structural)]
pub enum FormatLanguage {
    Json,
}

/// Where a pretty-printed value's format came from.
#[derive(Clone, Copy, Debug, PartialEq, Eq, Structural)]
pub enum FormatSource {
    Kubernetes,
}

/// A value shown in a readable form.
#[derive(Clone, Debug)]
pub struct FormattedValue {
    pub source: FormatSource,
    pub language: FormatLanguage,
    pub value: String,
}

/// One key-value record.
#[derive(Clone, Debug)]
pub struct SerializableKeyValue {
    /// The key as text.
    pub key: String,
    /// The key's bytes.
    pub key_bytes: Vec<u8>,
    /// Whether the key's bytes are valid UTF-8.
    pub key_encoded_utf8: bool,
    pub create_revision: i64,
    pub mod_revision: i64,
    pub version: i64,
    pub value: Vec<u8>,
    /// The lease id in decimal; "0" for none.
    pub lease: String,
    pub lease_info: Option<SerializableLeaseSimpleInfo>,
    pub formatted_value: Option<FormattedValue>,
}

impl SerializableKeyValue {
    /// A record of the key, its revisions, value and lease as the server sent them.
    pub fn from_parts(
        key_bytes: Vec<u8>,
        create_revision: i64,
        mod_revision: i64,
        version: i64,
        value: Vec<u8>,
        lease: i64,
    ) -> (r: SerializableKeyValue)
        ensures
            r.key@ == lossy_text(key_bytes@),
            r.key_bytes@ == key_bytes@,
            r.key_encoded_utf8 == valid_utf8(key_bytes@),
            r.create_revision == create_revision,
            r.mod_revision == mod_revision,
            r.version == version,
            r.value@ == value@,
            r.lease@ == decimal_text(lease as int),
            r.lease_info.is_none(),
            r.formatted_value.is_none(),
    {
        let key = text_of_bytes(key_bytes.as_slice());
        let key_encoded_utf8 = is_utf8(key_bytes.as_slice());
        SerializableKeyValue {
            key,
            key_bytes,
            key_encoded_utf8,
            create_revision,
            mod_revision,
            version,
            value,
            lease: decimal_string(lease),
            lease_info: None,
            formatted_value: None,
        }
    }

    /// Takes the first `prefix_len` bytes off the key (the namespace) and
    /// renews its text; a length of 0 leaves the record as it is.
    pub fn remove_prefix(&mut self, prefix_len: usize)
        requires
            prefix_len <= old(self).key_bytes@.len(),
        ensures
            prefix_len == 0 ==> *final(self) == *old(self),
            prefix_len > 0 ==> final(self).key_bytes@ == old(self).key_bytes@.subrange(
                prefix_len as int,
                old(self).key_bytes@.len() as int,
            ) && final(self).key@ == lossy_text(final(self).key_bytes@),
            final(self).key_encoded_utf8 == old(self).key_encoded_utf8,
            final(self).create_revision == old(self).create_revision,
            final(self).mod_revision == old(self).mod_revision,
            final(self).version == old(self).version,
            final(self).value == old(self).value,
            final(self).lease == old(self).lease,
            final(self).lease_info == old(self).lease_info,
            final(self).formatted_value == old(self).formatted_value,
    {
        if prefix_len == 0 {
            return;
        }
        let rest = bytes_from(self.key_bytes.as_slice(), prefix_len);
        self.key = text_of_bytes(rest.as_slice());
        self.key_bytes = rest;
    }
}

/// `b` is `a` with the first `n` key bytes taken off, where the key is that
/// long; otherwise `b` is `a`.
pub open spec fn stripped_record(a: SerializableKeyValue, b: SerializableKeyValue, n: nat) -> bool {
    if n > 0 && n <= a.key_bytes@.len() {
        &&& b.key_bytes@ == a.key_bytes@.subrange(n as int, a.key_bytes@.len() as int)
        &&& b.key@ == lossy_text(b.key_bytes@)
        &&& b.key_encoded_utf8 == a.key_encoded_utf8
        &&& b.create_revision == a.create_revision
        &&& b.mod_revision == a.mod_revision
        &&& b.version == a.version
        &&& b.value == a.value
        &&& b.lease == a.lease
        &&& b.lease_info == a.lease_info
        &&& b.formatted_value == a.formatted_value
    } else {
        b == a
    }
}

impl SerializableKeyValue {
    /// The records with the namespace's `prefix_len` bytes taken off each key
    /// that is that long, in the same order.
    pub fn from_vec(kvs: Vec<SerializableKeyValue>, prefix_len: usize) -> (r: Vec<SerializableKeyValue>)
        ensures
            r@.len() == kvs@.len(),
            forall|i: int| 0 <= i < r@.len() ==> stripped_record(kvs@[i], #[trigger] r@[i], prefix_len as nat),
    {
        let mut rest = kvs;
        let mut reversed: Vec<SerializableKeyValue> = Vec::new();
        while rest.len() > 0
            invariant
                rest@.len() + reversed@.len() == kvs@.len(),
                rest@ == kvs@.subrange(0, rest@.len() as int),
                forall|j: int| 0 <= j < reversed@.len() ==> stripped_record(
                    kvs@[kvs@.len() - 1 - j],
                    #[trigger] reversed@[j],
                    prefix_len as nat,
                ),
            decreases rest@.len(),
        {
            let mut kv = rest.pop().unwrap();
            if prefix_len > 0 && prefix_len <= kv.key_bytes.len() {
                kv.remove_prefix(prefix_len);
            }
            reversed.push(kv);
            assert(rest@ =~= kvs@.subrange(0, rest@.len() as int));
        }
        let mut r: Vec<SerializableKeyValue> = Vec::new();
        while reversed.len() > 0
            invariant
                reversed@.len() + r@.len() == kvs@.len(),
                forall|j: int| 0 <= j < reversed@.len() ==> stripped_record(
                    kvs@[kvs@.len() - 1 - j],
                    #[trigger] reversed@[j],
                    prefix_len as nat,
                ),
                forall|i: int| 0 <= i < r@.len() ==> stripped_record(kvs@[i], #[trigger] r@[i], prefix_len as nat),
            decreases reversed@.len(),
        {
            let kv = reversed.pop().unwrap();
            r.push(kv);
        }
        r
    }
}

/// A lease with the keys bound to it.
#[derive(Clone, Debug)]
pub struct SerializableLeaseInfo {
    pub id: String,
    pub ttl: i64,
    pub granted_ttl: i64,
    pub keys: Vec<String>,
}

/// A lease's remaining and granted time to live.
#[derive(Clone, Copy, Debug, PartialEq, Eq, Structural)]
pub struct SerializableLeaseSimpleInfo {
    pub ttl: i64,
    pub granted_ttl: i64,
}

/// Records found by a search, with their count.
#[derive(Clone, Debug)]
pub struct SearchResult {
    pub count: usize,
    pub results: Vec<SerializableKeyValue>,
}

/// The outcome of a put that checks the version it expects.
#[derive(Clone, Debug)]
pub struct KVPutResult {
    pub success: bool,
    pub final_kv: Option<SerializableKeyValue>,
    pub exist_value: Option<Vec<u8>>,
    pub exist_version: Option<i64>,
}

/// Whether a put that expects `expected_version` may go ahead, given the
/// version the key has now (`None` when it does not exist). A negative
/// expectation puts unconditionally.
pub open spec fn put_allowed(expected_version: i64, current: Option<i64>) -> bool {
    expected_version < 0 || match current {
        Some(v) => v == expected_version,
        None => true,
    }
}

impl KVPutResult {
    /// Decides a versioned put: `None` when it may go ahead, else the refusal
    /// that shows the value and version found.
    pub fn check_version(expected_version: i64, current: Option<(Vec<u8>, i64)>) -> (r: Option<
        KVPutResult,
    >)
        ensures
            r.is_none() == put_allowed(
                expected_version,
                match current {
                    Some(c) => Some(c.1),
                    None => None,
                },
            ),
            r.is_some() ==> ({
                let p = r.unwrap();
                let c = current.unwrap();
                &&& current.is_some()
                &&& !p.success
                &&& p.final_kv.is_none()
                &&& p.exist_value == Some(c.0)
                &&& p.exist_version == Some(c.1)
            }),
    {
        if expected_version < 0 {
            return None;
        }
        match current {
            Some(c) => {
                if c.1 != expected_version {
                    let version = c.1;
                    Some(
                        KVPutResult {
                            success: false,
                            final_kv: None,
                            exist_value: Some(c.0),
                            exist_version: Some(version),
                        },
                    )
                } else {
                    None
                }
            },
            None => None,
        }
    }
}

/// A step of moving a directory of keys.
#[derive(Clone, Copy, Debug, PartialEq, Eq, Structural)]
pub enum RenameAction {
    Put,
    Delete,
}

/// What to do when a key that is written already exists.
#[derive(Clone, Copy, Debug, PartialEq, Eq, Structural)]
pub enum PutStrategy {
    Cover,
    Rename,
    AskMerge,
}

/// The bytes of "(rename)".
pub open spec fn rename_marker() -> Seq<u8> {
    seq![40u8, 114u8, 101u8, 110u8, 97u8, 109u8, 101u8, 41u8]
}

/// The index of the last '.' in `key`, or -1.
pub open spec fn last_dot(key: Seq<u8>) -> int
    decreases key.len(),
{
    if key.len() == 0 {
        -1
    } else if key.last() == 46u8 {
        key.len() - 1
    } else {
        last_dot(key.drop_last())
    }
}

/// `key` with "(rename)" put before its extension, or at its end when it has none.
pub open spec fn renamed_key(key: Seq<u8>) -> Seq<u8> {
    let d = last_dot(key);
    if d < 0 {
        key + rename_marker()
    } else {
        key.subrange(0, d) + rename_marker() + key.subrange(d, key.len() as int)
    }
}

proof fn lemma_last_dot_prefix(key: Seq<u8>, i: int)
    requires
        0 <= i <= key.len(),
        forall|k: int| i <= k < key.len() ==> key[k] != 46u8,
    ensures
        last_dot(key) == last_dot(key.subrange(0, i)),
    decreases key.len() - i,
{
    if i < key.len() {
        assert(key.drop_last() =~= key.subrange(0, key.len() - 1));
        lemma_last_dot_prefix(key.drop_last(), i);
        assert(key.drop_last().subrange(0, i) =~= key.subrange(0, i));
    } else {
        assert(key.subrange(0, i) =~= key);
    }
}

impl PutStrategy {
    /// The name a key is written under when its own name is taken. The key
    /// is read as text first (each invalid UTF-8 sequence becomes U+FFFD);
    /// then "(rename)" goes before the text's last '.', or at its end. A '.'
    /// is one ASCII byte, so this is done on the text's UTF-8 bytes.
    pub fn rename(key: &[u8]) -> (r: Vec<u8>)
        ensures
            r@ == renamed_key(encode_utf8(lossy_text(key@))),
    {
        let text = text_of_bytes(key);
        rename_text_bytes(text.as_str().as_bytes())
    }
}

/// `key` with "(rename)" put before its last '.', or at its end.
fn rename_text_bytes(key: &[u8]) -> (r: Vec<u8>)
    ensures
        r@ == renamed_key(key@),
{
    let mut i: usize = key.len();
    while i > 0 && key[i - 1] != 46u8
        invariant
            i <= key@.len(),
            forall|k: int| i <= k < key@.len() ==> key@[k] != 46u8,
        decreases i,
    {
        i = i - 1;
    }
    proof {
        lemma_last_dot_prefix(key@, i as int);
        if i > 0 {
            assert(key@.subrange(0, i as int).last() == 46u8);
        }
    }
    let mut r: Vec<u8> = Vec::new();
    let mut j: usize = 0;
    let cut: usize = if i > 0 { i - 1 } else { key.len() };
    while j < cut
        invariant
            j <= cut <= key@.len(),
            r@ == key@.subrange(0, j as int),
        decreases cut - j,
    {
        r.push(key[j]);
        j = j + 1;
        assert(r@ =~= key@.subrange(0, j as int));
    }
    let marker: [u8; 8] = [40u8, 114u8, 101u8, 110u8, 97u8, 109u8, 101u8, 41u8];
    let mut m: usize = 0;
    while m < 8
        invariant
            m <= 8,
            marker@ == rename_marker(),
            r@ == key@.subrange(0, cut as int) + rename_marker().subrange(0, m as int),
        decreases 8 - m,
    {
        r.push(marker[m]);
        m = m + 1;
        assert(r@ =~= key@.subrange(0, cut as int) + rename_marker().subrange(0, m as int));
    }
    assert(rename_marker().subrange(0, 8) =~= rename_marker());
    let ghost head = r@;
    while j < key.len()
        invariant
            cut <= j <= key@.len(),
            r@ == head + key@.subrange(cut as int, j as int),
        decreases key@.len() - j,
    {
        r.push(key[j]);
        j = j + 1;
        assert(r@ =~= head + key@.subrange(cut as int, j as int));
    }
    proof {
        if i == 0 {
            assert(key@.subrange(0, 0) =~= Seq::<u8>::empty());
            assert(key@.subrange(0, key@.len() as int) =~= key@);
            assert(key@.subrange(key@.len() as int, key@.len() as int) =~= Seq::<u8>::empty());
            assert(r@ =~= key@ + rename_marker());
        }
    }
    r
}

} // verus!
