//! The connector's lifecycle and its own decisions around its calls: which
//! lease a put binds, whether a directory rename is allowed, where renamed
//! and imported keys go, how an imported record decodes, and which record a
//! lookup returns.

use vstd::prelude::*;
use vstd::utf8::encode_utf8;
use crate::error::LogicError;
use crate::hex::{hex_decoded, hex_to_vec};
use crate::kv::{renamed_key, PutStrategy, SerializableKeyValue};
use crate::text::lossy_text;
use crate::namespace::{bytes_from, bytes_of, concat_bytes};

verus! {

/// Where a connector stands.
#[derive(Clone, Copy, Debug, PartialEq, Eq, Structural)]
pub enum ConnectorState {
    Connecting,
    Ready,
    Closed,
}

/// The state after the connection attempt ended, successfully or not; only
/// a connector still connecting moves.
pub open spec fn after_connect(s: ConnectorState, ok: bool) -> ConnectorState {
    if s == ConnectorState::Connecting {
        if ok {
            ConnectorState::Ready
        } else {
            ConnectorState::Closed
        }
    } else {
        s
    }
}

/// The lifecycle of one connector.
pub struct ConnectorLifecycle {
    state: ConnectorState,
}

impl View for ConnectorLifecycle {
    type V = ConnectorState;

    closed spec fn view(&self) -> ConnectorState {
        self.state
    }
}

impl ConnectorLifecycle {
    /// A connector being connected.
    pub fn new() -> (r: ConnectorLifecycle)
        ensures
            r@ == ConnectorState::Connecting,
    {
        ConnectorLifecycle { state: ConnectorState::Connecting }
    }

    /// Where the connector stands.
    pub fn state(&self) -> (r: ConnectorState)
        ensures
            r == self@,
    {
        self.state
    }

    /// Reports how the connection attempt ended.
    pub fn on_connected(&mut self, ok: bool)
        ensures
            final(self)@ == after_connect(old(self)@, ok),
    {
        if self.state == ConnectorState::Connecting {
            self.state = if ok {
                ConnectorState::Ready
            } else {
                ConnectorState::Closed
            };
        }
    }

    /// Closes the connector, on request or after a fault it cannot recover from.
    pub fn close(&mut self)
        ensures
            final(self)@ == ConnectorState::Closed,
    {
        self.state = ConnectorState::Closed;
    }

    /// Checks that a data operation may go ahead: only a ready connector
    /// takes one; otherwise the connection counts as lost.
    pub fn check_ready(&self) -> (r: Result<(), LogicError>)
        ensures
            r.is_ok() == (self@ == ConnectorState::Ready),
            r.is_err() ==> r == Err::<(), LogicError>(LogicError::ConnectionLose),
    {
        if self.state == ConnectorState::Ready {
            Ok(())
        } else {
            Err(LogicError::ConnectionLose)
        }
    }
}

/// A closed connector never becomes ready again: whatever the connection
/// attempt reports, it stays closed.
pub proof fn lemma_closed_stays_closed(ok: bool)
    ensures
        after_connect(ConnectorState::Closed, ok) == ConnectorState::Closed,
{
}

/// The lease a put binds the key to: the lease granted for a time to live,
/// else the lease the key holds now; 0 (no lease) gives `None`.
pub open spec fn lease_for_put(granted: Option<i64>, current: Option<i64>) -> Option<i64> {
    let id = match granted {
        Some(g) => g,
        None => current.unwrap_or(0),
    };
    if id == 0 {
        None
    } else {
        Some(id)
    }
}

/// Picks the lease a put binds the key to.
pub fn put_lease(granted: Option<i64>, current: Option<i64>) -> (r: Option<i64>)
    ensures
        r == lease_for_put(granted, current),
{
    let id = match granted {
        Some(g) => g,
        None => match current {
            Some(c) => c,
            None => 0,
        },
    };
    if id == 0 {
        None
    } else {
        Some(id)
    }
}

/// A directory rename touching `count` keys goes ahead only up to `limit`
/// keys; beyond, it is refused before anything is done.
pub fn check_rename_limit(count: i64, limit: i64) -> (r: Result<(), LogicError>)
    ensures
        r.is_ok() == (count <= limit),
        r.is_err() ==> r == Err::<(), LogicError>(LogicError::LimitedError(count)),
{
    if count > limit {
        Err(LogicError::LimitedError(count))
    } else {
        Ok(())
    }
}

/// Where a directory rename moves a key: the new prefix followed by what
/// follows the old prefix in the key.
pub fn renamed_target(new_prefix: &[u8], key: &[u8], old_prefix_len: usize) -> (r: Vec<u8>)
    requires
        old_prefix_len <= key@.len(),
    ensures
        r@ == new_prefix@ + key@.subrange(old_prefix_len as int, key@.len() as int),
{
    let rest = bytes_from(key, old_prefix_len);
    concat_bytes(new_prefix, rest.as_slice())
}

/// The key an imported record is written under, before the namespace: the
/// optional prefix's bytes followed by the record's key.
pub fn import_key(key: &[u8], prefix: &Option<String>) -> (r: Vec<u8>)
    ensures
        r@ == match prefix {
            Some(p) => encode_utf8(p@) + key@,
            None => key@,
        },
{
    match prefix {
        Some(p) => concat_bytes(p.as_str().as_bytes(), key),
        None => bytes_of(key),
    }
}

/// An imported record, decoded from its two hex lines.
#[derive(Clone, Debug)]
pub enum ImportRecord {
    /// The key (with the import prefix, before the namespace) and the value.
    Ready { key: Vec<u8>, value: Vec<u8> },
    /// The key line is not hex.
    BadKey(String),
    /// The value line of a good key is not hex.
    BadValue { key: Vec<u8>, message: String },
}

/// Decodes one exported record: its key line and value line are hex text;
/// the key gets the optional prefix once both decode.
pub fn prepare_import(key_line: &str, value_line: &str, prefix: &Option<String>) -> (r: ImportRecord)
    ensures
        match (hex_decoded(encode_utf8(key_line@)), hex_decoded(encode_utf8(value_line@))) {
            (Err(m), _) => r matches ImportRecord::BadKey(x) && x@ == m,
            (Ok(k), Err(m)) => r matches ImportRecord::BadValue { key, message } && key@ == k
                && message@ == m,
            (Ok(k), Ok(v)) => r matches ImportRecord::Ready { key, value } && value@ == v
                && key@ == match prefix {
                Some(p) => encode_utf8(p@) + k,
                None => k,
            },
        },
{
    let key = match hex_to_vec(key_line) {
        Ok(k) => k,
        Err(m) => return ImportRecord::BadKey(m),
    };
    let value = match hex_to_vec(value_line) {
        Ok(v) => v,
        Err(m) => return ImportRecord::BadValue { key, message: m },
    };
    ImportRecord::Ready { key: import_key(key.as_slice(), prefix), value }
}

/// A batch import cannot ask the user about each existing key: only
/// overwriting and renaming are taken.
pub fn check_import_strategy(strategy: PutStrategy) -> (r: Result<(), LogicError>)
    ensures
        r.is_ok() == (strategy != PutStrategy::AskMerge),
        r.is_err() ==> r == Err::<(), LogicError>(LogicError::ArgumentError),
{
    if strategy == PutStrategy::AskMerge {
        Err(LogicError::ArgumentError)
    } else {
        Ok(())
    }
}

/// What a directory move does after one of its steps.
#[derive(Clone, Copy, Debug, PartialEq, Eq, Structural)]
pub enum MoveStep {
    /// Delete the key that was just copied.
    DeleteOrigin,
    /// Go on with the next key.
    NextKey,
    /// Stop the move: a step failed.
    Stop,
}

/// After the copy of a key was put: a failure stops the move; otherwise the
/// original is deleted when asked, else the next key follows.
pub fn after_move_put(ok: bool, delete_origin: bool) -> (r: MoveStep)
    ensures
        !ok ==> r == MoveStep::Stop,
        ok && delete_origin ==> r == MoveStep::DeleteOrigin,
        ok && !delete_origin ==> r == MoveStep::NextKey,
{
    if !ok {
        MoveStep::Stop
    } else if delete_origin {
        MoveStep::DeleteOrigin
    } else {
        MoveStep::NextKey
    }
}

/// After the original of a key was deleted: a failure stops the move.
pub fn after_move_delete(ok: bool) -> (r: MoveStep)
    ensures
        r == (if ok {
            MoveStep::NextKey
        } else {
            MoveStep::Stop
        }),
{
    if ok {
        MoveStep::NextKey
    } else {
        MoveStep::Stop
    }
}

/// Where a moved key is written: with the rename strategy, when exactly one
/// key already stands at the target (`existing`), under that key renamed;
/// otherwise at the target.
pub fn move_target(target: Vec<u8>, strategy: PutStrategy, existing: Option<Vec<u8>>) -> (r: Vec<u8>)
    ensures
        strategy == PutStrategy::Rename && existing.is_some() ==> r@ == renamed_key(
            encode_utf8(lossy_text(existing.unwrap()@)),
        ),
        !(strategy == PutStrategy::Rename && existing.is_some()) ==> r == target,
{
    match existing {
        Some(k) => if strategy == PutStrategy::Rename {
            PutStrategy::rename(k.as_slice())
        } else {
            target
        },
        None => target,
    }
}

/// What a batch import does with one decoded record.
#[derive(Clone, Copy, Debug, PartialEq, Eq, Structural)]
pub enum ImportStep {
    /// Write the record under its key.
    Put,
    /// Write the record under its key renamed.
    PutRenamed,
    /// Report that the existence check failed and go on with the next record.
    ReportAndSkip,
    /// Go on with the next record without writing.
    Skip,
}

/// Decides one record of a batch import: overwriting writes as it is;
/// renaming renames a key that exists (`found`, `None` when the lookup
/// failed); asking is not done in a batch.
pub fn import_step(strategy: PutStrategy, found: Option<bool>) -> (r: ImportStep)
    ensures
        strategy == PutStrategy::Cover ==> r == ImportStep::Put,
        strategy == PutStrategy::AskMerge ==> r == ImportStep::Skip,
        strategy == PutStrategy::Rename ==> r == match found {
            Some(true) => ImportStep::PutRenamed,
            Some(false) => ImportStep::Put,
            None => ImportStep::ReportAndSkip,
        },
{
    match strategy {
        PutStrategy::Cover => ImportStep::Put,
        PutStrategy::AskMerge => ImportStep::Skip,
        PutStrategy::Rename => match found {
            Some(true) => ImportStep::PutRenamed,
            Some(false) => ImportStep::Put,
            None => ImportStep::ReportAndSkip,
        },
    }
}

/// The message for a lookup that found nothing.
pub open spec fn not_found_message() -> Seq<char> {
    "The key does not exist or has expired."@
}

/// The first record of a lookup, or the key's absence as an error.
pub fn find_first_kv(kvs: Vec<SerializableKeyValue>) -> (r: Result<SerializableKeyValue, LogicError>)
    ensures
        kvs@.len() == 0 ==> (r matches Err(LogicError::ResourceNotExist(m)) && m@
            == not_found_message()),
        kvs@.len() > 0 ==> r == Ok::<SerializableKeyValue, LogicError>(kvs@[0]),
{
    let mut kvs = kvs;
    if kvs.len() == 0 {
        Err(LogicError::ResourceNotExist("The key does not exist or has expired.".to_owned()))
    } else {
        Ok(kvs.remove(0))
    }
}

} // verus!
