//! The polling key monitor: each poll of a key is compared with what the
//! previous poll saw, and the differences the configuration asks for are
//! reported.

use vstd::prelude::*;
use crate::connection::KeyMonitorConfig;

verus! {

/// The kind of difference a poll found.
#[derive(Clone, Copy, Debug, PartialEq, Eq, Structural)]
pub enum KeyMonitorEventType {
    Remove,
    Create,
    LeaseChange,
    ValueChange,
}

impl KeyMonitorEventType {
    /// A word or two naming the difference.
    pub fn desc(&self) -> (r: String)
        ensures
            r@ == match self {
                KeyMonitorEventType::Remove => "removed"@,
                KeyMonitorEventType::Create => "created"@,
                KeyMonitorEventType::LeaseChange => "lease changed"@,
                KeyMonitorEventType::ValueChange => "value changed"@,
            },
    {
        match self {
            KeyMonitorEventType::Remove => "removed".to_owned(),
            KeyMonitorEventType::Create => "created".to_owned(),
            KeyMonitorEventType::LeaseChange => "lease changed".to_owned(),
            KeyMonitorEventType::ValueChange => "value changed".to_owned(),
        }
    }
}

/// A difference reported to the application, with what was seen before and
/// after where the kind has values.
#[derive(Clone, Debug)]
pub struct KeyMonitorEvent<T> {
    pub session: i32,
    pub key: String,
    pub event_type: KeyMonitorEventType,
    /// When the difference was seen, in milliseconds since the epoch.
    pub event_time: u64,
    pub previous: Option<T>,
    pub current: Option<T>,
}

impl<T> KeyMonitorEvent<T> {
    /// An event without values.
    pub fn with(session: i32, key: String, event_type: KeyMonitorEventType, event_time: u64) -> (r:
        KeyMonitorEvent<T>)
        ensures
            r == (KeyMonitorEvent::<T> {
                session,
                key,
                event_type,
                event_time,
                previous: None,
                current: None,
            }),
    {
        KeyMonitorEvent { session, key, event_type, event_time, previous: None, current: None }
    }

    /// An event with the values before and after.
    pub fn with_value(
        session: i32,
        key: String,
        event_type: KeyMonitorEventType,
        event_time: u64,
        previous: T,
        current: T,
    ) -> (r: KeyMonitorEvent<T>)
        ensures
            r == (KeyMonitorEvent {
                session,
                key,
                event_type,
                event_time,
                previous: Some(previous),
                current: Some(current),
            }),
    {
        KeyMonitorEvent {
            session,
            key,
            event_type,
            event_time,
            previous: Some(previous),
            current: Some(current),
        }
    }
}

/// A difference found by a poll.
#[derive(Clone, Debug)]
pub enum MonitorChange {
    Created,
    Removed,
    LeaseChanged { previous_lease: i64, current_lease: i64 },
    ValueChanged { previous: Vec<u8>, current: Vec<u8> },
}

/// A difference as plain values.
pub enum ChangeView {
    Created,
    Removed,
    LeaseChanged(i64, i64),
    ValueChanged(Seq<u8>, Seq<u8>),
}

impl View for MonitorChange {
    type V = ChangeView;

    open spec fn view(&self) -> ChangeView {
        match self {
            MonitorChange::Created => ChangeView::Created,
            MonitorChange::Removed => ChangeView::Removed,
            MonitorChange::LeaseChanged { previous_lease, current_lease } => ChangeView::LeaseChanged(
                *previous_lease,
                *current_lease,
            ),
            MonitorChange::ValueChanged { previous, current } => ChangeView::ValueChanged(
                previous@,
                current@,
            ),
        }
    }
}

impl MonitorChange {
    /// The kind of the difference.
    pub fn event_type(&self) -> (r: KeyMonitorEventType)
        ensures
            r == match self@ {
                ChangeView::Created => KeyMonitorEventType::Create,
                ChangeView::Removed => KeyMonitorEventType::Remove,
                ChangeView::LeaseChanged(..) => KeyMonitorEventType::LeaseChange,
                ChangeView::ValueChanged(..) => KeyMonitorEventType::ValueChange,
            },
    {
        match self {
            MonitorChange::Created => KeyMonitorEventType::Create,
            MonitorChange::Removed => KeyMonitorEventType::Remove,
            MonitorChange::LeaseChanged { .. } => KeyMonitorEventType::LeaseChange,
            MonitorChange::ValueChanged { .. } => KeyMonitorEventType::ValueChange,
        }
    }
}

/// What a poll saw of the key: `None` when it does not exist, else its value
/// and lease.
pub type Polled = Option<(Vec<u8>, i64)>;

/// What the monitor of one key remembers, as plain values.
pub struct MonitorView {
    pub config: KeyMonitorConfig,
    pub first_run: bool,
    pub previous_exist: Option<bool>,
    pub previous_value: Option<Seq<u8>>,
    pub previous_lease: Option<i64>,
}

/// The state after the first poll: what was seen is kept, nothing reported.
pub open spec fn first_poll(v: MonitorView, polled: Option<(Seq<u8>, i64)>) -> MonitorView {
    let c = v.config;
    MonitorView {
        first_run: false,
        previous_exist: if c.monitor_create || c.monitor_remove {
            Some(polled.is_some())
        } else {
            v.previous_exist
        },
        previous_lease: if polled.is_some() && c.monitor_lease_change {
            Some(polled.unwrap().1)
        } else {
            v.previous_lease
        },
        previous_value: if polled.is_some() && c.monitor_value_change {
            Some(polled.unwrap().0)
        } else {
            v.previous_value
        },
        ..v
    }
}

/// The differences a later poll reports, in this order: created, removed,
/// lease changed, value changed. A key never seen counts as absent, a lease
/// never seen as 0, a value never seen as empty.
pub open spec fn later_poll_changes(v: MonitorView, polled: Option<(Seq<u8>, i64)>) -> Seq<ChangeView> {
    let c = v.config;
    let was = v.previous_exist.unwrap_or(false);
    let exist = polled.is_some();
    let created: Seq<ChangeView> = if c.monitor_create && !was && exist {
        seq![ChangeView::Created]
    } else {
        Seq::empty()
    };
    let removed: Seq<ChangeView> = if c.monitor_remove && was && !exist {
        seq![ChangeView::Removed]
    } else {
        Seq::empty()
    };
    let lease: Seq<ChangeView> = if exist && c.monitor_lease_change && v.previous_lease.unwrap_or(0)
        != polled.unwrap().1 {
        seq![ChangeView::LeaseChanged(v.previous_lease.unwrap_or(0), polled.unwrap().1)]
    } else {
        Seq::empty()
    };
    let value: Seq<ChangeView> = if exist && c.monitor_value_change && v.previous_value.unwrap_or(
        Seq::empty(),
    ) != polled.unwrap().0 {
        seq![ChangeView::ValueChanged(v.previous_value.unwrap_or(Seq::empty()), polled.unwrap().0)]
    } else {
        Seq::empty()
    };
    created + removed + lease + value
}

/// The state after a later poll: the key's presence is always kept; its
/// lease and value, when it exists and they are monitored.
pub open spec fn later_poll(v: MonitorView, polled: Option<(Seq<u8>, i64)>) -> MonitorView {
    let c = v.config;
    MonitorView {
        previous_exist: Some(polled.is_some()),
        previous_lease: if polled.is_some() && c.monitor_lease_change {
            Some(polled.unwrap().1)
        } else {
            v.previous_lease
        },
        previous_value: if polled.is_some() && c.monitor_value_change {
            Some(polled.unwrap().0)
        } else {
            v.previous_value
        },
        ..v
    }
}

/// A poll as plain values.
pub open spec fn polled_view(p: Polled) -> Option<(Seq<u8>, i64)> {
    match p {
        Some((value, lease)) => Some((value@, lease)),
        None => None,
    }
}

/// The polling monitor of one key.
pub struct MonitorTask {
    config: KeyMonitorConfig,
    first_run: bool,
    previous_exist: Option<bool>,
    previous_value: Option<Vec<u8>>,
    previous_lease: Option<i64>,
}

impl View for MonitorTask {
    type V = MonitorView;

    closed spec fn view(&self) -> MonitorView {
        MonitorView {
            config: self.config,
            first_run: self.first_run,
            previous_exist: self.previous_exist,
            previous_value: match self.previous_value {
                Some(v) => Some(v@),
                None => None,
            },
            previous_lease: self.previous_lease,
        }
    }
}

fn same_bytes(a: &Vec<u8>, b: &Vec<u8>) -> (r: bool)
    ensures
        r == (a@ == b@),
{
    if a.len() != b.len() {
        return false;
    }
    let mut i: usize = 0;
    while i < a.len()
        invariant
            a@.len() == b@.len(),
            i <= a@.len(),
            forall|k: int| 0 <= k < i ==> a@[k] == b@[k],
        decreases a@.len() - i,
    {
        if a[i] != b[i] {
            return false;
        }
        i = i + 1;
    }
    assert(a@ =~= b@);
    true
}

fn copy_bytes(a: &Vec<u8>) -> (r: Vec<u8>)
    ensures
        r@ == a@,
{
    crate::namespace::bytes_of(a.as_slice())
}

impl MonitorTask {
    /// A monitor that has not polled yet.
    pub fn new(config: KeyMonitorConfig) -> (r: MonitorTask)
        ensures
            r@ == (MonitorView {
                config,
                first_run: true,
                previous_exist: None,
                previous_value: None,
                previous_lease: None,
            }),
    {
        MonitorTask {
            config,
            first_run: true,
            previous_exist: None,
            previous_value: None,
            previous_lease: None,
        }
    }

    /// The configuration polled for.
    pub fn config(&self) -> (r: &KeyMonitorConfig)
        ensures
            *r == self@.config,
    {
        &self.config
    }

    /// Replaces the configuration; the next poll is a first one again.
    pub fn set_config(&mut self, config: KeyMonitorConfig)
        ensures
            final(self)@ == (MonitorView { config, first_run: true, ..old(self)@ }),
    {
        self.config = config;
        self.first_run = true;
    }

    /// Takes in one poll and returns the differences to report.
    pub fn observe(&mut self, polled: Polled) -> (r: Vec<MonitorChange>)
        ensures
            old(self)@.first_run ==> final(self)@ == first_poll(old(self)@, polled_view(polled))
                && r@.len() == 0,
            !old(self)@.first_run ==> final(self)@ == later_poll(old(self)@, polled_view(polled))
                && r@.map_values(|c: MonitorChange| c@) == later_poll_changes(
                old(self)@,
                polled_view(polled),
            ),
    {
        let mut changes: Vec<MonitorChange> = Vec::new();
        let exist = polled.is_some();
        let monitor_create = self.config.monitor_create;
        let monitor_remove = self.config.monitor_remove;
        let monitor_lease = self.config.monitor_lease_change;
        let monitor_value = self.config.monitor_value_change;
        if self.first_run {
            if monitor_create || monitor_remove {
                self.previous_exist = Some(exist);
            }
            if let Some((value, lease)) = polled {
                if monitor_lease {
                    self.previous_lease = Some(lease);
                }
                if monitor_value {
                    self.previous_value = Some(value);
                }
            }
            self.first_run = false;
            return changes;
        }
        let ghost v0 = self@;
        let ghost pv = polled_view(polled);
        let was = match self.previous_exist {
            Some(b) => b,
            None => false,
        };
        if monitor_create && !was && exist {
            changes.push(MonitorChange::Created);
        }
        if monitor_remove && was && !exist {
            changes.push(MonitorChange::Removed);
        }
        proof {
            let c = v0.config;
            let created: Seq<ChangeView> = if c.monitor_create && !was && exist {
                seq![ChangeView::Created]
            } else {
                Seq::empty()
            };
            let removed: Seq<ChangeView> = if c.monitor_remove && was && !exist {
                seq![ChangeView::Removed]
            } else {
                Seq::empty()
            };
            assert(changes@.map_values(|c: MonitorChange| c@) =~= created + removed);
        }
        let ghost before_lease = changes@.map_values(|c: MonitorChange| c@);
        self.previous_exist = Some(exist);
        if let Some((value, lease)) = polled {
            if monitor_lease {
                let previous = match self.previous_lease {
                    Some(l) => l,
                    None => 0,
                };
                if previous != lease {
                    changes.push(
                        MonitorChange::LeaseChanged { previous_lease: previous, current_lease: lease },
                    );
                }
                self.previous_lease = Some(lease);
            }
            let ghost before_value = changes@.map_values(|c: MonitorChange| c@);
            assert(before_value =~= before_lease + (if monitor_lease && v0.previous_lease.unwrap_or(0)
                != lease {
                seq![ChangeView::LeaseChanged(v0.previous_lease.unwrap_or(0), lease)]
            } else {
                Seq::<ChangeView>::empty()
            }));
            if monitor_value {
                let previous = match &self.previous_value {
                    Some(p) => copy_bytes(p),
                    None => Vec::new(),
                };
                assert(previous@ == v0.previous_value.unwrap_or(Seq::empty()));
                if !same_bytes(&previous, &value) {
                    let current = copy_bytes(&value);
                    changes.push(MonitorChange::ValueChanged { previous, current });
                }
                self.previous_value = Some(value);
            }
            assert(changes@.map_values(|c: MonitorChange| c@) =~= later_poll_changes(v0, pv));
        } else {
            assert(changes@.map_values(|c: MonitorChange| c@) =~= later_poll_changes(v0, pv));
        }
        changes
    }
}

} // verus!
