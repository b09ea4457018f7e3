//! The backward walk over a key's revisions. Each step asks the server for
//! the key at one candidate revision; the answer decides the next candidate.

use vstd::prelude::*;

verus! {

/// What the server answered for the key at one revision.
#[derive(Clone, Copy, PartialEq, Eq, Structural, Debug)]
pub enum RevisionLookup {
    /// The key as it stood at that revision: created at `create_revision`,
    /// last modified at `mod_revision`.
    Found { create_revision: i64, mod_revision: i64 },
    /// The key did not exist at that revision.
    Missing,
    /// The request failed, for instance because the revision was compacted.
    Failed,
}

/// The state of a walk, as plain values.
pub struct HistoryWalkView {
    pub start: int,
    pub end: int,
    pub candidate: int,
    pub stopped: bool,
    pub history: Seq<i64>,
}

/// The walk has nothing more to ask.
pub open spec fn walk_finished(v: HistoryWalkView) -> bool {
    v.stopped || v.candidate < v.start || v.candidate > v.end
}

/// The state after the server answered `answer` for the current candidate.
pub open spec fn walk_step(v: HistoryWalkView, answer: RevisionLookup) -> HistoryWalkView {
    match answer {
        RevisionLookup::Found { create_revision, mod_revision } => {
            if create_revision <= v.candidate <= mod_revision {
                HistoryWalkView {
                    candidate: if v.candidate == v.start {
                        v.candidate
                    } else {
                        v.candidate - 1
                    },
                    stopped: v.candidate == v.start,
                    history: v.history.push(v.candidate as i64),
                    ..v
                }
            } else if mod_revision < v.candidate {
                HistoryWalkView { candidate: mod_revision as int, ..v }
            } else {
                HistoryWalkView { stopped: true, ..v }
            }
        },
        _ => HistoryWalkView { stopped: true, ..v },
    }
}

/// How many more answers the walk can take at most.
pub open spec fn walk_measure(v: HistoryWalkView) -> nat {
    if walk_finished(v) {
        0
    } else {
        (v.candidate - v.start + 1) as nat
    }
}

/// The state after the answers are taken in order, up to the walk's end.
pub open spec fn run_walk(v: HistoryWalkView, answers: Seq<RevisionLookup>) -> HistoryWalkView
    decreases answers.len(),
{
    if answers.len() == 0 || walk_finished(v) {
        v
    } else {
        run_walk(walk_step(v, answers[0]), answers.drop_first())
    }
}

/// Each answer to an unfinished walk brings it closer to its end.
pub proof fn lemma_step_decreases(v: HistoryWalkView, answer: RevisionLookup)
    requires
        !walk_finished(v),
    ensures
        walk_measure(walk_step(v, answer)) < walk_measure(v),
{
}

/// Whatever the server answers, a walk is over after at most one answer per
/// revision of its range.
pub proof fn lemma_walk_terminates(v: HistoryWalkView, answers: Seq<RevisionLookup>)
    requires
        answers.len() >= walk_measure(v),
    ensures
        walk_finished(run_walk(v, answers)),
    decreases answers.len(),
{
    if answers.len() > 0 && !walk_finished(v) {
        lemma_step_decreases(v, answers[0]);
        lemma_walk_terminates(walk_step(v, answers[0]), answers.drop_first());
    }
}

/// Every recorded revision lies in `[start, end]` and, while the walk goes
/// on, above the candidate; the record descends strictly.
pub open spec fn walk_inv(v: HistoryWalkView) -> bool {
    &&& forall|i: int| 0 <= i < v.history.len() ==> v.start <= #[trigger] v.history[i] <= v.end
    &&& !v.stopped ==> forall|i: int| 0 <= i < v.history.len() ==> v.candidate < #[trigger] v.history[i]
    &&& forall|i: int, j: int| 0 <= i < j < v.history.len() ==> v.history[i] > v.history[j]
}

/// A walk over `[start, end]` before its first answer.
pub open spec fn walk_start(start: int, end: int) -> HistoryWalkView {
    HistoryWalkView { start, end, candidate: end, stopped: end < start, history: Seq::empty() }
}

/// The walk driven by a server that answers `server(r)` at revision `r`,
/// for at most `fuel` answers.
pub open spec fn run_server(
    v: HistoryWalkView,
    server: spec_fn(int) -> RevisionLookup,
    fuel: nat,
) -> HistoryWalkView
    decreases fuel,
{
    if fuel == 0 || walk_finished(v) {
        v
    } else {
        run_server(walk_step(v, server(v.candidate)), server, (fuel - 1) as nat)
    }
}

/// The same server after every revision below `c` was compacted away.
pub open spec fn compacted(server: spec_fn(int) -> RevisionLookup, c: int) -> spec_fn(int) -> RevisionLookup {
    |r: int|
        if r < c {
            RevisionLookup::Failed
        } else {
            server(r)
        }
}

/// One answer keeps the walk's invariant.
pub proof fn lemma_step_keeps_inv(v: HistoryWalkView, answer: RevisionLookup)
    requires
        walk_inv(v),
        !walk_finished(v),
    ensures
        walk_inv(walk_step(v, answer)),
{
    let w = walk_step(v, answer);
    if w.history.len() > v.history.len() {
        assert(w.history == v.history.push(v.candidate as i64));
        assert forall|i: int| 0 <= i < w.history.len() implies v.start <= #[trigger] w.history[i] <= v.end by {
            if i < v.history.len() {
                assert(w.history[i] == v.history[i]);
            }
        }
        assert forall|i: int, j: int| 0 <= i < j < w.history.len() implies w.history[i] > w.history[j] by {
            assert(w.history[i] == v.history[i]);
            if j < v.history.len() {
                assert(w.history[j] == v.history[j]);
            }
        }
        if !w.stopped {
            assert forall|i: int| 0 <= i < w.history.len() implies w.candidate < #[trigger] w.history[i] by {
                if i < v.history.len() {
                    assert(w.history[i] == v.history[i]);
                }
            }
        }
    }
}

/// Whatever the answers, every revision a walk records lies in its range,
/// none is recorded twice, and they come newest first.
pub proof fn lemma_walk_history(start: int, end: int, answers: Seq<RevisionLookup>)
    ensures
        walk_inv(run_walk(walk_start(start, end), answers)),
{
    lemma_run_keeps_inv(walk_start(start, end), answers);
}

proof fn lemma_run_keeps_inv(v: HistoryWalkView, answers: Seq<RevisionLookup>)
    requires
        walk_inv(v),
    ensures
        walk_inv(run_walk(v, answers)),
    decreases answers.len(),
{
    if answers.len() > 0 && !walk_finished(v) {
        lemma_step_keeps_inv(v, answers[0]);
        lemma_run_keeps_inv(walk_step(v, answers[0]), answers.drop_first());
    }
}

/// A walk only appends, and what it appends is at most its candidate.
proof fn lemma_run_appends(v: HistoryWalkView, server: spec_fn(int) -> RevisionLookup, fuel: nat)
    ensures
        ({
            let w = run_server(v, server, fuel);
            &&& v.history.len() <= w.history.len()
            &&& w.history.subrange(0, v.history.len() as int) == v.history
            &&& forall|i: int| v.history.len() <= i < w.history.len() ==> w.history[i] <= v.candidate
        }),
    decreases fuel,
{
    if fuel > 0 && !walk_finished(v) {
        let n = walk_step(v, server(v.candidate));
        lemma_run_appends(n, server, (fuel - 1) as nat);
        let w = run_server(n, server, (fuel - 1) as nat);
        assert(n.candidate <= v.candidate);
        assert(v.history.len() <= n.history.len());
        assert(n.history.subrange(0, v.history.len() as int) == v.history);
        assert(w.history.subrange(0, v.history.len() as int) =~= n.history.subrange(0, v.history.len() as int));
        assert forall|i: int| v.history.len() <= i < w.history.len() implies w.history[i] <= v.candidate by {
            if i < n.history.len() {
                assert(w.history[i] == w.history.subrange(0, n.history.len() as int)[i]);
                assert(n.history[i] == v.candidate);
            }
        }
    } else {
        assert(v.history.subrange(0, v.history.len() as int) =~= v.history);
    }
}

proof fn lemma_compaction_from(
    v: HistoryWalkView,
    server: spec_fn(int) -> RevisionLookup,
    c: int,
    fuel: nat,
)
    ensures
        ({
            let full = run_server(v, server, fuel);
            let cut = run_server(v, compacted(server, c), fuel);
            &&& v.history.len() <= cut.history.len() <= full.history.len()
            &&& cut.history == full.history.subrange(0, cut.history.len() as int)
            &&& forall|i: int| v.history.len() <= i < cut.history.len() ==> cut.history[i] >= c
            &&& forall|i: int| cut.history.len() <= i < full.history.len() ==> full.history[i] < c
        }),
    decreases fuel,
{
    let cs = compacted(server, c);
    if fuel == 0 || walk_finished(v) {
        assert(v.history.subrange(0, v.history.len() as int) =~= v.history);
    } else if v.candidate >= c {
        assert(cs(v.candidate) == server(v.candidate));
        let n = walk_step(v, server(v.candidate));
        lemma_compaction_from(n, server, c, (fuel - 1) as nat);
        let cut = run_server(n, cs, (fuel - 1) as nat);
        assert forall|i: int| v.history.len() <= i < cut.history.len() implies cut.history[i] >= c by {
            if i < n.history.len() {
                lemma_run_appends(n, cs, (fuel - 1) as nat);
                assert(cut.history[i] == cut.history.subrange(0, n.history.len() as int)[i]);
                assert(n.history[i] == v.candidate);
            }
        }
    } else {
        assert(cs(v.candidate) == RevisionLookup::Failed);
        let n = walk_step(v, RevisionLookup::Failed);
        assert(walk_finished(n));
        if fuel > 1 {
            assert(run_server(n, cs, (fuel - 1) as nat) == n);
        }
        lemma_run_appends(v, server, fuel);
        let full = run_server(v, server, fuel);
        assert(n.history == v.history);
    }
}

/// Compaction below revision `c` cuts a walk short without error: the
/// revisions it records are exactly those the walk over the whole history
/// records at or above `c`, which come first; so where the whole walk
/// reaches below `c`, the compacted one records strictly fewer.
pub proof fn lemma_compaction_prefix(
    start: int,
    end: int,
    server: spec_fn(int) -> RevisionLookup,
    c: int,
    fuel: nat,
)
    ensures
        ({
            let full = run_server(walk_start(start, end), server, fuel);
            let cut = run_server(walk_start(start, end), compacted(server, c), fuel);
            &&& cut.history == full.history.subrange(0, cut.history.len() as int)
            &&& forall|i: int| 0 <= i < cut.history.len() ==> cut.history[i] >= c
            &&& forall|i: int| cut.history.len() <= i < full.history.len() ==> full.history[i] < c
            &&& (exists|i: int| 0 <= i < full.history.len() && full.history[i] < c) ==> cut.history.len()
                < full.history.len()
        }),
{
    lemma_compaction_from(walk_start(start, end), server, c, fuel);
    let full = run_server(walk_start(start, end), server, fuel);
    let cut = run_server(walk_start(start, end), compacted(server, c), fuel);
    if exists|i: int| 0 <= i < full.history.len() && full.history[i] < c {
        let i = choose|i: int| 0 <= i < full.history.len() && full.history[i] < c;
        if cut.history.len() == full.history.len() {
            assert(cut.history[i] == full.history[i]);
        }
    }
}

/// Walks a key's revisions in `[start, end]` from `end` downwards, recording
/// each revision at which the key was live.
pub struct HistoryWalk {
    start: i64,
    end: i64,
    candidate: i64,
    stopped: bool,
    history: Vec<i64>,
}

impl View for HistoryWalk {
    type V = HistoryWalkView;

    closed spec fn view(&self) -> HistoryWalkView {
        HistoryWalkView {
            start: self.start as int,
            end: self.end as int,
            candidate: self.candidate as int,
            stopped: self.stopped,
            history: self.history@,
        }
    }
}

impl HistoryWalk {
    /// The walk's invariant holds of its state.
    pub open spec fn well_formed(&self) -> bool {
        walk_inv(self@)
    }

    /// A walk over `[start, end]`, first asking for revision `end`.
    pub fn new(start: i64, end: i64) -> (r: HistoryWalk)
        ensures
            r.well_formed(),
            r@ == walk_start(start as int, end as int),
            r@.start == start,
            r@.end == end,
            r@.candidate == end,
            r@.history.len() == 0,
            r@.stopped == (end < start),
    {
        HistoryWalk { start, end, candidate: end, stopped: end < start, history: Vec::new() }
    }

    /// The revision to ask the server for next, or `None` once the walk is over.
    pub fn next_revision(&self) -> (r: Option<i64>)
        requires
            self.well_formed(),
        ensures
            r == (if walk_finished(self@) {
                None
            } else {
                Some(self@.candidate as i64)
            }),
    {
        if self.stopped || self.candidate < self.start || self.candidate > self.end {
            None
        } else {
            Some(self.candidate)
        }
    }

    /// Takes the server's answer for the revision `next_revision` gave: a
    /// revision within the key's `[create, mod]` span is recorded and the walk
    /// steps one below it; otherwise it jumps down to the modification
    /// revision. A missing key or a failed request ends the walk early, which
    /// is no error.
    pub fn on_lookup(&mut self, answer: RevisionLookup)
        requires
            old(self).well_formed(),
            !walk_finished(old(self)@),
        ensures
            final(self).well_formed(),
            final(self)@ == walk_step(old(self)@, answer),
            walk_measure(final(self)@) < walk_measure(old(self)@),
    {
        assert(self.well_formed());
        assert(self@.history == self.history@);
        match answer {
            RevisionLookup::Found { create_revision, mod_revision } => {
                let c = self.candidate;
                if create_revision <= c && c <= mod_revision {
                    let ghost before = self.history@;
                    self.history.push(c);
                    assert(forall|i: int| 0 <= i < before.len() ==> self.history@[i] == before[i]);
                    assert(self.history@[before.len() as int] == c);
                    if c == self.start {
                        self.stopped = true;
                    } else {
                        self.candidate = c - 1;
                    }
                } else if mod_revision < c {
                    self.candidate = mod_revision;
                } else {
                    self.stopped = true;
                }
            },
            _ => {
                self.stopped = true;
            },
        }
    }

    /// The revisions recorded so far, newest first.
    pub fn history(&self) -> (r: &Vec<i64>)
        ensures
            r@ == self@.history,
    {
        &self.history
    }

    /// Whether the walk is over.
    pub fn is_finished(&self) -> (r: bool)
        ensures
            r == walk_finished(self@),
    {
        self.stopped || self.candidate < self.start || self.candidate > self.end
    }
}

} // verus!
