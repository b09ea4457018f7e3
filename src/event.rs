//! Events handed up to the application.

use vstd::prelude::*;
use crate::connection::KeyMonitorConfig;
use crate::kv::SerializableKeyValue;

verus! {

/// Why a session ended on its own.
#[derive(Clone, Debug, PartialEq, Eq)]
pub enum DisconnectCase {
    SshChannelFailure,
    SshChannelEof,
    SshDisconnected(String),
    SshTunnelError(String),
    /// The watch of this key failed past its retry cap.
    WatchLost(String),
}

/// A session ended because its transport failed.
#[derive(Clone, Debug)]
pub struct SessionDisconnectedEvent {
    pub session_id: i32,
    pub case: DisconnectCase,
}

/// Passes transport failures of one session up to its owner.
#[derive(Clone, Copy, Debug, Default)]
pub struct EtcdConnectorHandler {
    pub session_id: i32,
}

impl EtcdConnectorHandler {
    /// The handler of session `session_id`; 0 stands for no session.
    pub fn new(session_id: i32) -> (r: EtcdConnectorHandler)
        ensures
            r.session_id == session_id,
    {
        EtcdConnectorHandler { session_id }
    }

    /// The event to send up for a failure, and whether the session is to be
    /// torn down: always, but for the handler of no session.
    pub fn disconnected(&self, case: DisconnectCase) -> (r: (SessionDisconnectedEvent, bool))
        ensures
            r.0.session_id == self.session_id,
            r.0.case == case,
            r.1 == (self.session_id != 0),
    {
        (SessionDisconnectedEvent { session_id: self.session_id, case }, self.session_id != 0)
    }
}

/// The kind of change a watch reports.
#[derive(Clone, Copy, Debug, PartialEq, Eq, Structural)]
pub enum KeyWatchEventType {
    Remove,
    Create,
    Modify,
}

impl KeyWatchEventType {
    /// A line of text that names the change.
    pub fn desc(&self) -> (r: String)
        ensures
            r@ == match self {
                KeyWatchEventType::Remove => "The key is removed"@,
                KeyWatchEventType::Create => "The key is created"@,
                KeyWatchEventType::Modify => "The key is modified"@,
            },
    {
        match self {
            KeyWatchEventType::Remove => "The key is removed".to_owned(),
            KeyWatchEventType::Create => "The key is created".to_owned(),
            KeyWatchEventType::Modify => "The key is modified".to_owned(),
        }
    }
}

/// One change seen by a watch.
#[derive(Clone, Debug)]
pub struct KeyWatchEvent {
    pub session: i32,
    /// The watched key (full path).
    pub key: String,
    /// The key that changed (full path).
    pub event_key: String,
    pub event_type: KeyWatchEventType,
    pub event_time: u64,
    pub prev_kv: Option<SerializableKeyValue>,
    pub cur_kv: Option<SerializableKeyValue>,
}

/// The server changed a watch's settings.
#[derive(Clone, Debug)]
pub struct KeyMonitorModifiedByServerEvent {
    pub session: i32,
    pub config: KeyMonitorConfig,
}

/// Progress of an update download.
#[derive(Clone, Copy, Debug)]
pub struct UpdateDownloadingProgressEvent {
    pub chunk_length: usize,
    pub content_length: Option<u64>,
}

} // verus!
