//! Per-key watch bookkeeping: what a change notification means, which
//! filters a subscription asks for, when to reconnect and when to give up,
//! when to raise a desktop notification, and the table of live subscriptions.

use vstd::prelude::*;
use crate::connection::KeyMonitorConfig;
use crate::event::{KeyWatchEvent, KeyWatchEventType};
use crate::kv::SerializableKeyValue;

verus! {

/// A low-level change notification.
#[derive(Clone, Copy, Debug, PartialEq, Eq, Structural)]
pub enum ChangeKind {
    Put,
    Delete,
}

/// A put that made version 1 created the key; any other put modified it; a
/// delete removed it.
pub open spec fn change_type(kind: ChangeKind, version: i64) -> KeyWatchEventType {
    match kind {
        ChangeKind::Put => if version == 1 {
            KeyWatchEventType::Create
        } else {
            KeyWatchEventType::Modify
        },
        ChangeKind::Delete => KeyWatchEventType::Remove,
    }
}

/// Classes a change by its kind and the version the key has after it.
pub fn classify_change(kind: ChangeKind, version: i64) -> (r: KeyWatchEventType)
    ensures
        r == change_type(kind, version),
{
    match kind {
        ChangeKind::Put => if version == 1 {
            KeyWatchEventType::Create
        } else {
            KeyWatchEventType::Modify
        },
        ChangeKind::Delete => KeyWatchEventType::Remove,
    }
}

/// The event for one change of the watched `key`: `kv` is the record the
/// change carries, `prev_kv` the record before it, if the server sent it.
/// A creation has no previous record; a removal has no current one and
/// shows the removed record as the previous.
pub fn watch_event(
    session: i32,
    key: String,
    kind: ChangeKind,
    event_time: u64,
    kv: SerializableKeyValue,
    prev_kv: Option<SerializableKeyValue>,
) -> (r: KeyWatchEvent)
    ensures
        r.session == session,
        r.key == key,
        r.event_key == kv.key,
        r.event_time == event_time,
        r.event_type == change_type(kind, kv.version),
        r.event_type == KeyWatchEventType::Create ==> r.prev_kv.is_none() && r.cur_kv == Some(kv),
        r.event_type == KeyWatchEventType::Modify ==> r.prev_kv == prev_kv && r.cur_kv == Some(kv),
        r.event_type == KeyWatchEventType::Remove ==> r.prev_kv == Some(kv) && r.cur_kv.is_none(),
{
    let event_type = classify_change(kind, kv.version);
    let event_key = kv.key.clone();
    match event_type {
        KeyWatchEventType::Create => KeyWatchEvent {
            session,
            key,
            event_key,
            event_type,
            event_time,
            prev_kv: None,
            cur_kv: Some(kv),
        },
        KeyWatchEventType::Modify => KeyWatchEvent {
            session,
            key,
            event_key,
            event_type,
            event_time,
            prev_kv,
            cur_kv: Some(kv),
        },
        KeyWatchEventType::Remove => KeyWatchEvent {
            session,
            key,
            event_key,
            event_type,
            event_time,
            prev_kv: Some(kv),
            cur_kv: None,
        },
    }
}

/// The options of a live subscription.
#[derive(Clone, Copy, Debug, PartialEq, Eq, Structural)]
pub struct WatchPlan {
    /// Watch every key under the configured key.
    pub prefix: bool,
    /// Ask the server not to report deletes.
    pub no_delete: bool,
    /// Ask the server not to report puts.
    pub no_put: bool,
}

/// The subscription a configuration asks for; a paused one asks for none.
pub fn watch_plan(config: &KeyMonitorConfig) -> (r: Option<WatchPlan>)
    ensures
        r.is_none() == config.paused,
        r.is_some() ==> r.unwrap() == (WatchPlan {
            prefix: config.is_prefix,
            no_delete: !config.monitor_remove,
            no_put: !config.monitor_value_change && !config.monitor_create,
        }),
{
    if config.paused {
        None
    } else {
        Some(
            WatchPlan {
                prefix: config.is_prefix,
                no_delete: !config.monitor_remove,
                no_put: !config.monitor_value_change && !config.monitor_create,
            },
        )
    }
}

/// How many failed subscription attempts end the watch of a key.
pub const WATCH_RETRY_LIMIT: u32 = 10;

/// The pause before the next subscription attempt, in seconds.
pub const WATCH_RETRY_BACKOFF_SECONDS: u64 = 3;

/// What to do after a subscription attempt failed.
#[derive(Clone, Copy, Debug, PartialEq, Eq, Structural)]
pub enum ReconnectStep {
    /// Wait the backoff, then subscribe again.
    RetryAfterBackoff,
    /// Stop trying and report the session as lost: sent once.
    GiveUp,
    /// The key was already given up: nothing more.
    Nothing,
}

/// The reconnect state of one key, as plain values.
pub struct ReconnectView {
    pub cap: nat,
    /// Failed attempts in a row.
    pub failures: nat,
    pub gave_up: bool,
}

/// A key's reconnect state before any failure.
pub open spec fn reconnect_start(cap: nat) -> ReconnectView {
    ReconnectView { cap, failures: 0, gave_up: false }
}

/// The state and step after one more failed attempt.
pub open spec fn after_failure(v: ReconnectView) -> (ReconnectView, ReconnectStep) {
    if v.gave_up {
        (v, ReconnectStep::Nothing)
    } else if v.failures + 1 >= v.cap {
        (ReconnectView { failures: v.failures + 1, gave_up: true, ..v }, ReconnectStep::GiveUp)
    } else {
        (ReconnectView { failures: v.failures + 1, ..v }, ReconnectStep::RetryAfterBackoff)
    }
}

/// The state after `n` failed attempts in a row, with how many give-up
/// signals and how many retries they caused.
pub open spec fn run_failures(v: ReconnectView, n: nat) -> (ReconnectView, nat, nat)
    decreases n,
{
    if n == 0 {
        (v, 0, 0)
    } else {
        let (v1, step) = after_failure(v);
        let (v2, g, r) = run_failures(v1, (n - 1) as nat);
        (
            v2,
            g + if step == ReconnectStep::GiveUp {
                1nat
            } else {
                0nat
            },
            r + if step == ReconnectStep::RetryAfterBackoff {
                1nat
            } else {
                0nat
            },
        )
    }
}

/// Counts failed subscription attempts of one key and decides on retry.
pub struct ReconnectPolicy {
    cap: u32,
    failures: u32,
    gave_up: bool,
}

impl View for ReconnectPolicy {
    type V = ReconnectView;

    closed spec fn view(&self) -> ReconnectView {
        ReconnectView { cap: self.cap as nat, failures: self.failures as nat, gave_up: self.gave_up }
    }
}

impl ReconnectPolicy {
    /// Until the cap is reached, the failures stay below it.
    pub closed spec fn well_formed(&self) -> bool {
        self.cap > 0 && (!self.gave_up ==> self.failures < self.cap)
    }

    /// A policy that gives up after `cap` failed attempts in a row.
    pub fn new(cap: u32) -> (r: ReconnectPolicy)
        requires
            cap > 0,
        ensures
            r.well_formed(),
            r@ == reconnect_start(cap as nat),
    {
        ReconnectPolicy { cap, failures: 0, gave_up: false }
    }

    /// Reports a failed attempt (a subscription that could not be made, or a
    /// stream that ended on an error other than local cancellation).
    pub fn on_failure(&mut self) -> (r: ReconnectStep)
        requires
            old(self).well_formed(),
        ensures
            final(self).well_formed(),
            (final(self)@, r) == after_failure(old(self)@),
    {
        if self.gave_up {
            ReconnectStep::Nothing
        } else {
            self.failures = self.failures + 1;
            if self.failures >= self.cap {
                self.gave_up = true;
                ReconnectStep::GiveUp
            } else {
                ReconnectStep::RetryAfterBackoff
            }
        }
    }

    /// Reports a successful subscription: the count starts again.
    pub fn on_success(&mut self)
        requires
            old(self).well_formed(),
        ensures
            final(self).well_formed(),
            final(self)@ == (ReconnectView { failures: 0, ..old(self)@ }),
    {
        self.failures = 0;
    }

    /// Whether the key was given up.
    pub fn gave_up(&self) -> (r: bool)
        ensures
            r == self@.gave_up,
    {
        self.gave_up
    }
}

proof fn lemma_run_after_give_up(v: ReconnectView, n: nat)
    requires
        v.gave_up,
    ensures
        run_failures(v, n) == (v, 0nat, 0nat),
    decreases n,
{
    if n > 0 {
        lemma_run_after_give_up(v, (n - 1) as nat);
    }
}

proof fn lemma_run_from(v: ReconnectView, n: nat)
    requires
        !v.gave_up,
        v.failures < v.cap,
    ensures
        ({
            let (s, g, r) = run_failures(v, n);
            &&& s.gave_up == (v.failures + n >= v.cap)
            &&& g == (if v.failures + n >= v.cap { 1nat } else { 0nat })
            &&& r == (if v.failures + n >= v.cap { (v.cap - 1 - v.failures) as nat } else { n })
        }),
    decreases n,
{
    if n > 0 {
        let (v1, step) = after_failure(v);
        if v.failures + 1 >= v.cap {
            lemma_run_after_give_up(v1, (n - 1) as nat);
        } else {
            lemma_run_from(v1, (n - 1) as nat);
        }
    }
}

/// A key whose subscription keeps failing is given up after exactly `cap`
/// failed attempts (the first and `cap - 1` retries), and that raises one
/// give-up signal however many failures are reported.
pub proof fn lemma_reconnect_cap(cap: nat, n: nat)
    requires
        cap > 0,
    ensures
        ({
            let (s, g, r) = run_failures(reconnect_start(cap), n);
            &&& s.gave_up == (n >= cap)
            &&& g == (if n >= cap { 1nat } else { 0nat })
            &&& r == (if n >= cap { (cap - 1) as nat } else { n })
        }),
{
    lemma_run_from(reconnect_start(cap), n);
}

/// At most one desktop notification per key within this many milliseconds.
pub const NOTIFY_DEBOUNCE_MILLIS: u64 = 3000;

/// Throttles desktop notifications of one key.
pub struct NotifyThrottle {
    last: u64,
}

impl View for NotifyThrottle {
    type V = nat;

    /// When the last notification was shown, in milliseconds.
    closed spec fn view(&self) -> nat {
        self.last as nat
    }
}

impl NotifyThrottle {
    /// No notification shown yet.
    pub fn new() -> (r: NotifyThrottle)
        ensures
            r@ == 0,
    {
        NotifyThrottle { last: 0 }
    }

    /// Whether an event at `now` (milliseconds) raises a notification: only
    /// while the window is not focused, and not within the debounce window of
    /// the last one.
    pub fn should_notify(&self, focused: bool, now: u64) -> (r: bool)
        ensures
            r == (!focused && now >= self@ + NOTIFY_DEBOUNCE_MILLIS),
    {
        !focused && now >= self.last && now - self.last >= NOTIFY_DEBOUNCE_MILLIS
    }

    /// Notes that a notification was shown at `now`.
    pub fn record(&mut self, now: u64)
        ensures
            final(self)@ == now,
    {
        self.last = now;
    }
}

/// A live subscription: its configuration and what the caller keeps to
/// cancel it.
pub struct WatchEntry<H> {
    pub config: KeyMonitorConfig,
    pub handle: H,
}

/// The table holds a subscription for `key`.
pub open spec fn holds_key<H>(entries: Seq<WatchEntry<H>>, key: Seq<char>) -> bool {
    exists|i: int| 0 <= i < entries.len() && (#[trigger] entries[i]).config.key@ == key
}

/// The live subscriptions of one session, at most one per key.
pub struct WatchTable<H> {
    entries: Vec<WatchEntry<H>>,
}

impl<H> View for WatchTable<H> {
    type V = Seq<WatchEntry<H>>;

    closed spec fn view(&self) -> Seq<WatchEntry<H>> {
        self.entries@
    }
}

impl<H> WatchTable<H> {
    /// No key appears twice.
    pub open spec fn well_formed(&self) -> bool {
        forall|i: int, j: int|
            0 <= i < j < self@.len() ==> (#[trigger] self@[i]).config.key@ != (#[trigger] self@[j]).config.key@
    }

    /// An empty table.
    pub fn new() -> (r: WatchTable<H>)
        ensures
            r.well_formed(),
            r@.len() == 0,
    {
        WatchTable { entries: Vec::new() }
    }

    /// How many subscriptions are live.
    pub fn len(&self) -> (r: usize)
        ensures
            r == self@.len(),
    {
        self.entries.len()
    }

    /// Whether `key` has a live subscription.
    pub fn contains(&self, key: &String) -> (r: bool)
        requires
            self.well_formed(),
        ensures
            r == holds_key(self@, key@),
    {
        let mut i: usize = 0;
        while i < self.entries.len()
            invariant
                i <= self@.len(),
                forall|k: int| 0 <= k < i ==> (#[trigger] self@[k]).config.key@ != key@,
            decreases self@.len() - i,
        {
            if self.entries[i].config.key == *key {
                return true;
            }
            i = i + 1;
        }
        false
    }

    /// Takes the subscription of `key` out of the table, so that the caller
    /// can cancel it and wait for its task before dropping it.
    pub fn take(&mut self, key: &String) -> (r: Option<WatchEntry<H>>)
        requires
            old(self).well_formed(),
        ensures
            final(self).well_formed(),
            r.is_some() == holds_key(old(self)@, key@),
            r.is_some() ==> r.unwrap().config.key@ == key@ && old(self)@.contains(r.unwrap()),
            !holds_key(final(self)@, key@),
            forall|k: Seq<char>| k != key@ ==> (holds_key(final(self)@, k) == holds_key(old(self)@, k)),
            forall|e: WatchEntry<H>| final(self)@.contains(e) ==> old(self)@.contains(e),
            r.is_none() ==> final(self)@ == old(self)@,
    {
        let mut i: usize = 0;
        while i < self.entries.len()
            invariant
                i <= self@.len(),
                self@ == old(self)@,
                self.well_formed(),
                forall|k: int| 0 <= k < i ==> (#[trigger] self@[k]).config.key@ != key@,
            decreases self@.len() - i,
        {
            if self.entries[i].config.key == *key {
                let ghost before = self@;
                let e = self.entries.remove(i);
                proof {
                    assert(before[i as int] == e);
                    assert forall|a: int, b: int| 0 <= a < b < self@.len() implies (
                    #[trigger] self@[a]).config.key@ != (#[trigger] self@[b]).config.key@ by {
                        let a0 = if a < i { a } else { a + 1 };
                        let b0 = if b < i { b } else { b + 1 };
                        assert(self@[a] == before[a0]);
                        assert(self@[b] == before[b0]);
                    }
                    assert forall|a: int| 0 <= a < self@.len() implies (#[trigger] self@[a]).config.key@
                        != key@ by {
                        let a0 = if a < i { a } else { a + 1 };
                        assert(self@[a] == before[a0]);
                    }
                    assert forall|k: Seq<char>| k != key@ implies (holds_key(self@, k) == holds_key(before, k)) by {
                        if holds_key(before, k) {
                            let j = choose|j: int| 0 <= j < before.len() && (#[trigger] before[j]).config.key@ == k;
                            assert(j != i);
                            let j1 = if j < i { j } else { j - 1 };
                            assert(self@[j1] == before[j]);
                        }
                        if holds_key(self@, k) {
                            let j = choose|j: int| 0 <= j < self@.len() && (#[trigger] self@[j]).config.key@ == k;
                            let j0 = if j < i { j } else { j + 1 };
                            assert(self@[j] == before[j0]);
                        }
                    }
                    assert forall|x: WatchEntry<H>| self@.contains(x) implies before.contains(x) by {
                        let j = choose|j: int| 0 <= j < self@.len() && self@[j] == x;
                        let j0 = if j < i { j } else { j + 1 };
                        assert(self@[j] == before[j0]);
                    }
                }
                return Some(e);
            }
            i = i + 1;
        }
        None
    }

    /// Adds the subscription of a key that has none.
    pub fn insert(&mut self, entry: WatchEntry<H>)
        requires
            old(self).well_formed(),
            !holds_key(old(self)@, entry.config.key@),
        ensures
            final(self).well_formed(),
            final(self)@ == old(self)@.push(entry),
    {
        let ghost key = entry.config.key@;
        self.entries.push(entry);
        proof {
            assert forall|a: int, b: int| 0 <= a < b < self@.len() implies (
            #[trigger] self@[a]).config.key@ != (#[trigger] self@[b]).config.key@ by {
                if b == self@.len() - 1 {
                    assert(old(self)@[a] == self@[a]);
                    if self@[a].config.key@ == key {
                        assert(holds_key(old(self)@, key));
                    }
                } else {
                    assert(old(self)@[a] == self@[a]);
                    assert(old(self)@[b] == self@[b]);
                }
            }
        }
    }

    /// The keys that have a live subscription, in table order.
    pub fn keys(&self) -> (r: Vec<String>)
        ensures
            r@.len() == self@.len(),
            forall|i: int| 0 <= i < r@.len() ==> (#[trigger] r@[i])@ == self@[i].config.key@,
    {
        let mut r: Vec<String> = Vec::new();
        let mut i: usize = 0;
        while i < self.entries.len()
            invariant
                i <= self@.len(),
                r@.len() == i,
                forall|k: int| 0 <= k < i ==> (#[trigger] r@[k])@ == self@[k].config.key@,
            decreases self@.len() - i,
        {
            r.push(self.entries[i].config.key.clone());
            i = i + 1;
        }
        r
    }
}

} // verus!
