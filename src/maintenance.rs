//! Cluster records and the progress and cancellation of a snapshot export.

use vstd::prelude::*;

verus! {

/// A cluster with its members and status.
#[derive(Clone, Debug)]
pub struct SerializableCluster {
    pub id: String,
    pub member_id: String,
    pub revision: i64,
    pub members: Vec<SerializableClusterMember>,
    pub status: SerializableClusterStatus,
}

/// One member of the cluster and the alarm raised on it.
#[derive(Clone, Debug)]
pub struct SerializableClusterMember {
    pub id: String,
    pub name: String,
    pub peer_uri: Vec<String>,
    pub client_uri: Vec<String>,
    pub alarm_type: i32,
}

/// The status the contacted member reports.
#[derive(Clone, Debug)]
pub struct SerializableClusterStatus {
    pub version: String,
    pub db_size_allocated: i64,
    pub db_size_used: i64,
    pub leader: String,
    pub raft_index: String,
    pub raft_term: String,
    pub raft_applied_index: String,
    pub errors: Vec<String>,
}

/// The alarm code of no alarm.
pub const ALARM_NONE: i32 = 0;

/// The alarm raised on `member`, given (member id, alarm code) pairs; the
/// last pair of a member counts, and a member without one has no alarm.
pub open spec fn alarm_of(alarms: Seq<(u64, i32)>, member: u64) -> i32
    decreases alarms.len(),
{
    if alarms.len() == 0 {
        ALARM_NONE
    } else if alarms.last().0 == member {
        alarms.last().1
    } else {
        alarm_of(alarms.drop_last(), member)
    }
}

/// Looks up the alarm raised on `member`.
pub fn member_alarm(alarms: &Vec<(u64, i32)>, member: u64) -> (r: i32)
    ensures
        r == alarm_of(alarms@, member),
{
    let mut i: usize = alarms.len();
    assert(alarms@.subrange(0, i as int) =~= alarms@);
    while i > 0
        invariant
            i <= alarms@.len(),
            alarm_of(alarms@, member) == alarm_of(alarms@.subrange(0, i as int), member),
        decreases i,
    {
        let a = alarms[i - 1];
        assert(alarms@.subrange(0, i as int).drop_last() =~= alarms@.subrange(0, i - 1));
        if a.0 == member {
            return a.1;
        }
        i = i - 1;
    }
    ALARM_NONE
}

/// What the state of a snapshot export shows.
#[derive(Clone, Debug)]
pub struct SnapshotState {
    pub finished: bool,
    /// Bytes written so far.
    pub received: u64,
    /// Bytes the server still has to send.
    pub remain: u64,
    pub error_msg: Option<String>,
}

/// One report of a snapshot stream: bytes received with this chunk, bytes
/// remaining, and the error that ended the stream, if any.
pub type SnapshotProgress = (u64, u64, Option<String>);

impl SnapshotState {
    /// Nothing received yet.
    pub fn new() -> (r: SnapshotState)
        ensures
            !r.finished && r.received == 0 && r.remain == 0 && r.error_msg.is_none(),
    {
        SnapshotState { finished: false, received: 0, remain: 0, error_msg: None }
    }

    /// Takes in one progress report: an error is noted as it is; otherwise
    /// the chunk's bytes are added up (held at the largest `u64`) and the
    /// remaining count replaced.
    pub fn apply(&mut self, progress: SnapshotProgress)
        ensures
            final(self).finished == old(self).finished,
            progress.2.is_some() ==> final(self).error_msg == progress.2 && final(self).received
                == old(self).received && final(self).remain == old(self).remain,
            progress.2.is_none() ==> final(self).error_msg == old(self).error_msg
                && final(self).received == (if old(self).received + progress.0 > u64::MAX {
                    u64::MAX as int
                } else {
                    old(self).received + progress.0
                }) && final(self).remain == progress.1,
    {
        let (chunk, remain, error) = progress;
        match error {
            Some(e) => {
                self.error_msg = Some(e);
            },
            None => {
                self.received = self.received.saturating_add(chunk);
                self.remain = remain;
            },
        }
    }
}

/// A snapshot export shown to the user.
#[derive(Clone, Debug)]
pub struct SnapshotStateInfo {
    pub name: String,
    pub id: i32,
    pub state: SnapshotState,
}

/// A snapshot export with the folder it writes to.
#[derive(Clone, Debug)]
pub struct SnapshotInfo {
    pub id: i32,
    pub name: String,
    pub folder: String,
    pub state: SnapshotState,
}

/// What the snapshot stream delivered.
#[derive(Clone, Debug)]
pub enum SnapshotMessage {
    /// A chunk of this many bytes, with the bytes that remain after it.
    Chunk { received: u64, remaining: u64 },
    /// The stream ended.
    End,
    /// The stream failed, by its text.
    Failed(String),
}

/// The report for a stream message, and whether the stream goes on: it ends
/// after the last chunk, at its end, and on an error, which is reported as
/// an error event rather than raised.
pub fn snapshot_step(msg: SnapshotMessage) -> (r: (SnapshotProgress, bool))
    ensures
        match msg {
            SnapshotMessage::Chunk { received, remaining } => r == ((received, remaining, None::<String>), remaining != 0),
            SnapshotMessage::End => r == ((0u64, 0u64, None::<String>), false),
            SnapshotMessage::Failed(e) => r == ((0u64, 0u64, Some(e)), false),
        },
{
    match msg {
        SnapshotMessage::Chunk { received, remaining } => ((received, remaining, None), remaining != 0),
        SnapshotMessage::End => ((0, 0, None), false),
        SnapshotMessage::Failed(e) => ((0, 0, Some(e)), false),
    }
}

/// A running snapshot export and the one-shot notifier that stops it.
pub struct SnapshotTask<S> {
    pub name: String,
    pub folder: String,
    pub state: SnapshotState,
    pub stop_notifier: Option<S>,
}

impl<S> SnapshotTask<S> {
    /// Stops the export: hands out the notifier to fire, the first time only,
    /// and marks the state as stopped.
    pub fn stop(&mut self) -> (r: Option<S>)
        ensures
            r == old(self).stop_notifier,
            final(self).stop_notifier.is_none(),
            final(self).state.error_msg matches Some(m) && m@ == "Stopped"@,
            final(self).state.received == old(self).state.received,
            final(self).state.remain == old(self).state.remain,
            final(self).name == old(self).name,
            final(self).folder == old(self).folder,
    {
        let notifier = self.stop_notifier.take();
        self.state.error_msg = Some("Stopped".to_owned());
        notifier
    }
}

} // verus!
