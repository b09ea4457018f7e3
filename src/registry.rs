//! The table of live sessions: each session id, unique for the life of the
//! registry, bound to the bundle of what the session owns.

use vstd::prelude::*;
use crate::error::LogicError;

verus! {

/// One session and what it owns.
pub struct SessionEntry<B> {
    pub id: i32,
    pub bundle: B,
}

/// The table holds session `id`.
pub open spec fn holds_id<B>(entries: Seq<SessionEntry<B>>, id: i32) -> bool {
    exists|i: int| 0 <= i < entries.len() && (#[trigger] entries[i]).id == id
}

/// The state of a registry, as plain values.
pub struct RegistryView<B> {
    /// The id the next session gets.
    pub next_id: int,
    pub entries: Seq<SessionEntry<B>>,
}

/// Binds session ids to their bundles. Ids are handed out in increasing
/// order and never again; a bundle goes in whole, once it is built.
pub struct SessionRegistry<B> {
    next_id: i32,
    entries: Vec<SessionEntry<B>>,
}

impl<B> View for SessionRegistry<B> {
    type V = RegistryView<B>;

    closed spec fn view(&self) -> RegistryView<B> {
        RegistryView { next_id: self.next_id as int, entries: self.entries@ }
    }
}

impl<B> SessionRegistry<B> {
    /// Ids are positive, below the next one, and each held once.
    pub open spec fn well_formed(&self) -> bool {
        &&& 1 <= self@.next_id <= i32::MAX
        &&& forall|i: int| 0 <= i < self@.entries.len() ==> 1 <= (#[trigger] self@.entries[i]).id
            < self@.next_id
        &&& forall|i: int, j: int|
            0 <= i < j < self@.entries.len() ==> (#[trigger] self@.entries[i]).id != (
            #[trigger] self@.entries[j]).id
    }

    /// An empty registry; the first id is 1.
    pub fn new() -> (r: SessionRegistry<B>)
        ensures
            r.well_formed(),
            r@.next_id == 1,
            r@.entries.len() == 0,
    {
        SessionRegistry { next_id: 1, entries: Vec::new() }
    }

    /// Hands out the next session id, or `None` once every id was used.
    pub fn allocate_id(&mut self) -> (r: Option<i32>)
        requires
            old(self).well_formed(),
        ensures
            final(self).well_formed(),
            final(self)@.entries == old(self)@.entries,
            r matches Some(id) ==> id == old(self)@.next_id,
            old(self)@.next_id < i32::MAX ==> r == Some(old(self)@.next_id as i32)
                && final(self)@.next_id == old(self)@.next_id + 1,
            old(self)@.next_id == i32::MAX ==> r.is_none() && final(self)@ == old(self)@,
    {
        assert(self.well_formed());
        if self.next_id < i32::MAX {
            let id = self.next_id;
            self.next_id = id + 1;
            proof {
                assert forall|i: int| 0 <= i < self@.entries.len() implies 1 <= (
                #[trigger] self@.entries[i]).id < self@.next_id by {
                    assert(old(self)@.entries[i] == self@.entries[i]);
                }
                assert(self@.entries == old(self)@.entries);
            }
            Some(id)
        } else {
            None
        }
    }

    /// Whether session `id` is live.
    pub fn contains(&self, id: i32) -> (r: bool)
        ensures
            r == holds_id(self@.entries, id),
    {
        let mut i: usize = 0;
        while i < self.entries.len()
            invariant
                i <= self@.entries.len(),
                forall|k: int| 0 <= k < i ==> (#[trigger] self@.entries[k]).id != id,
            decreases self@.entries.len() - i,
        {
            if self.entries[i].id == id {
                return true;
            }
            i = i + 1;
        }
        false
    }

    /// Puts the finished bundle of a session whose id was handed out.
    pub fn insert(&mut self, id: i32, bundle: B)
        requires
            old(self).well_formed(),
            1 <= id < old(self)@.next_id,
            !holds_id(old(self)@.entries, id),
        ensures
            final(self).well_formed(),
            final(self)@.next_id == old(self)@.next_id,
            final(self)@.entries == old(self)@.entries.push(SessionEntry { id, bundle }),
    {
        self.entries.push(SessionEntry { id, bundle });
        proof {
            assert forall|a: int, b: int| 0 <= a < b < self@.entries.len() implies (
            #[trigger] self@.entries[a]).id != (#[trigger] self@.entries[b]).id by {
                assert(old(self)@.entries[a] == self@.entries[a]);
                if b < old(self)@.entries.len() {
                    assert(old(self)@.entries[b] == self@.entries[b]);
                } else if self@.entries[a].id == id {
                    assert(holds_id(old(self)@.entries, id));
                }
            }
            assert forall|i: int| 0 <= i < self@.entries.len() implies 1 <= (
            #[trigger] self@.entries[i]).id < self@.next_id by {
                if i < old(self)@.entries.len() {
                    assert(old(self)@.entries[i] == self@.entries[i]);
                }
            }
        }
    }

    /// The bundle of session `id`; a session that is not live is a lost
    /// connection, never a panic.
    pub fn get(&self, id: i32) -> (r: Result<&B, LogicError>)
        ensures
            r.is_ok() == holds_id(self@.entries, id),
            r.is_ok() ==> exists|i: int|
                0 <= i < self@.entries.len() && self@.entries[i].id == id && self@.entries[i].bundle
                    == *r.unwrap(),
            r.is_err() ==> r == Err::<&B, LogicError>(LogicError::ConnectionLose),
    {
        let mut i: usize = 0;
        while i < self.entries.len()
            invariant
                i <= self@.entries.len(),
                forall|k: int| 0 <= k < i ==> (#[trigger] self@.entries[k]).id != id,
            decreases self@.entries.len() - i,
        {
            if self.entries[i].id == id {
                return Ok(&self.entries[i].bundle);
            }
            i = i + 1;
        }
        Err(LogicError::ConnectionLose)
    }

    /// Takes session `id` out, handing its bundle back for teardown.
    pub fn remove(&mut self, id: i32) -> (r: Option<B>)
        requires
            old(self).well_formed(),
        ensures
            final(self).well_formed(),
            final(self)@.next_id == old(self)@.next_id,
            r.is_some() == holds_id(old(self)@.entries, id),
            r.is_some() ==> exists|i: int|
                0 <= i < old(self)@.entries.len() && old(self)@.entries[i].id == id
                    && old(self)@.entries[i].bundle == r.unwrap(),
            !holds_id(final(self)@.entries, id),
            forall|k: i32| k != id ==> (holds_id(final(self)@.entries, k) == holds_id(old(self)@.entries, k)),
            r.is_none() ==> final(self)@ == old(self)@,
    {
        let mut i: usize = 0;
        while i < self.entries.len()
            invariant
                i <= self@.entries.len(),
                self@ == old(self)@,
                self.well_formed(),
                forall|k: int| 0 <= k < i ==> (#[trigger] self@.entries[k]).id != id,
            decreases self@.entries.len() - i,
        {
            if self.entries[i].id == id {
                let ghost before = self@.entries;
                let e = self.entries.remove(i);
                proof {
                    assert(before[i as int] == e);
                    assert forall|a: int, b: int| 0 <= a < b < self@.entries.len() implies (
                    #[trigger] self@.entries[a]).id != (#[trigger] self@.entries[b]).id by {
                        let a0 = if a < i { a } else { a + 1 };
                        let b0 = if b < i { b } else { b + 1 };
                        assert(self@.entries[a] == before[a0]);
                        assert(self@.entries[b] == before[b0]);
                    }
                    assert forall|a: int| 0 <= a < self@.entries.len() implies 1 <= (
                    #[trigger] self@.entries[a]).id < self@.next_id && self@.entries[a].id != id by {
                        let a0 = if a < i { a } else { a + 1 };
                        assert(self@.entries[a] == before[a0]);
                    }
                    assert forall|k: i32| k != id implies (holds_id(self@.entries, k) == holds_id(before, k)) by {
                        if holds_id(before, k) {
                            let j = choose|j: int| 0 <= j < before.len() && (#[trigger] before[j]).id == k;
                            let j1 = if j < i { j } else { j - 1 };
                            assert(self@.entries[j1] == before[j]);
                        }
                        if holds_id(self@.entries, k) {
                            let j = choose|j: int| 0 <= j < self@.entries.len() && (#[trigger] self@.entries[j]).id == k;
                            let j0 = if j < i { j } else { j + 1 };
                            assert(self@.entries[j] == before[j0]);
                        }
                    }
                }
                return Some(e.bundle);
            }
            i = i + 1;
        }
        None
    }

    /// The ids of the live sessions, in table order.
    pub fn ids(&self) -> (r: Vec<i32>)
        ensures
            r@.len() == self@.entries.len(),
            forall|i: int| 0 <= i < r@.len() ==> r@[i] == self@.entries[i].id,
    {
        let mut r: Vec<i32> = Vec::new();
        let mut i: usize = 0;
        while i < self.entries.len()
            invariant
                i <= self@.entries.len(),
                r@.len() == i,
                forall|k: int| 0 <= k < i ==> r@[k] == self@.entries[k].id,
            decreases self@.entries.len() - i,
        {
            r.push(self.entries[i].id);
            i = i + 1;
        }
        r
    }
}

} // verus!
