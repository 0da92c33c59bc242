//! Checkpoint ordering: entries are submitted in increasing id order, may
//! complete in any order, and their checkpoints are released for persisting
//! strictly in submission order, each only after the entry succeeded.
use vstd::prelude::*;

use crate::error::SyncError;

verus! {

#[derive(Debug, Clone, Copy, PartialEq, Eq, Structural)]
pub enum EntryStatus {
    InFlight,
    Succeeded,
    Failed,
}

pub struct CheckpointView {
    /// Entries not yet checkpointed, in submission order.
    pub entries: Seq<(i64, EntryStatus)>,
    pub last_submitted: Option<i64>,
    /// Every checkpoint released for persisting, in order.
    pub released: Seq<i64>,
    /// Entries whose gates all resolved successfully.
    pub succeeded: Set<i64>,
}

/// The position of entry `id` among `entries`, if it is there.
pub open spec fn position_of(entries: Seq<(i64, EntryStatus)>, id: i64) -> Option<int> {
    if exists|i: int| 0 <= i < entries.len() && entries[i].0 == id {
        Some(choose|i: int| 0 <= i < entries.len() && entries[i].0 == id)
    } else {
        None
    }
}

impl CheckpointView {
    pub open spec fn wf(self) -> bool {
        &&& forall|i: int, j: int|
            0 <= i < j < self.entries.len() ==> self.entries[i].0 < self.entries[j].0
        &&& forall|i: int, j: int|
            0 <= i < j < self.released.len() ==> self.released[i] < self.released[j]
        &&& self.entries.len() > 0 ==> self.last_submitted == Some(self.entries.last().0)
        &&& self.released.len() > 0 ==> {
            &&& self.last_submitted is Some
            &&& self.released.last() <= self.last_submitted.unwrap()
            &&& forall|i: int|
                0 <= i < self.entries.len() ==> self.released.last() < #[trigger] self.entries[i].0
        }
        &&& forall|i: int| 0 <= i < self.released.len() ==> self.succeeded.contains(self.released[i])
        &&& forall|i: int|
            0 <= i < self.entries.len() && (#[trigger] self.entries[i]).1 == EntryStatus::Succeeded
                ==> self.succeeded.contains(self.entries[i].0)
    }

    /// Whether entry `id` is in flight and not yet finished.
    pub open spec fn is_in_flight(self, id: i64) -> bool {
        &&& position_of(self.entries, id) is Some
        &&& self.entries[position_of(self.entries, id).unwrap()].1 == EntryStatus::InFlight
    }

    /// Whether `id` may be submitted next.
    pub open spec fn accepts(self, id: i64) -> bool {
        match self.last_submitted {
            Some(p) => p < id,
            None => true,
        }
    }

    /// The checkpoint that can be released now, if any: the oldest entry, once
    /// it succeeded.
    pub open spec fn ready(self) -> Option<i64> {
        if self.entries.len() > 0 && self.entries[0].1 == EntryStatus::Succeeded {
            Some(self.entries[0].0)
        } else {
            None
        }
    }
}

pub struct CheckpointQueue {
    entries: Vec<(i64, EntryStatus)>,
    last_submitted: Option<i64>,
    released: Ghost<Seq<i64>>,
    succeeded: Ghost<Set<i64>>,
}

impl View for CheckpointQueue {
    type V = CheckpointView;

    closed spec fn view(&self) -> CheckpointView {
        CheckpointView {
            entries: self.entries@,
            last_submitted: self.last_submitted,
            released: self.released@,
            succeeded: self.succeeded@,
        }
    }
}

impl CheckpointQueue {
    /// A queue that resumes after the checkpoint `resume_after`, if any: only
    /// later entries can be submitted.
    pub fn new(resume_after: Option<i64>) -> (r: Self)
        ensures
            r@.wf(),
            r@.entries.len() == 0,
            r@.last_submitted == resume_after,
            r@.released.len() == 0,
            r@.succeeded.is_empty(),
    {
        CheckpointQueue {
            entries: Vec::new(),
            last_submitted: resume_after,
            released: Ghost(Seq::empty()),
            succeeded: Ghost(Set::empty()),
        }
    }

    pub fn in_flight(&self) -> (r: usize)
        ensures
            r == self@.entries.len(),
    {
        self.entries.len()
    }

    /// Puts entry `id` in flight. Ids must strictly increase.
    pub fn submit(&mut self, id: i64) -> (r: Result<(), SyncError>)
        requires
            old(self)@.wf(),
        ensures
            final(self)@.wf(),
            r.is_ok() == old(self)@.accepts(id),
            r.is_err() ==> r == Err::<(), SyncError>(SyncError::EntryOutOfOrder) && final(self)@
                == old(self)@,
            r.is_ok() ==> final(self)@ == (CheckpointView {
                entries: old(self)@.entries.push((id, EntryStatus::InFlight)),
                last_submitted: Some(id),
                ..old(self)@
            }),
    {
        match self.last_submitted {
            Some(p) => {
                if id <= p {
                    return Err(SyncError::EntryOutOfOrder);
                }
            },
            None => {},
        }
        self.entries.push((id, EntryStatus::InFlight));
        self.last_submitted = Some(id);
        assert(self@.entries.last().0 == id);
        Ok(())
    }

    /// Records how entry `id` ended: `Ok` once its changeset (and bookmark
    /// move, if any) was confirmed, an error otherwise.
    pub fn complete(&mut self, id: i64, outcome: Result<(), SyncError>) -> (r: Result<
        (),
        SyncError,
    >)
        requires
            old(self)@.wf(),
        ensures
            final(self)@.wf(),
            r.is_ok() == old(self)@.is_in_flight(id),
            r.is_err() ==> r == Err::<(), SyncError>(SyncError::UnknownEntry) && final(self)@
                == old(self)@,
            r.is_ok() ==> {
                let i = position_of(old(self)@.entries, id).unwrap();
                let status = if outcome is Ok {
                    EntryStatus::Succeeded
                } else {
                    EntryStatus::Failed
                };
                &&& final(self)@.entries == old(self)@.entries.update(i, (id, status))
                &&& final(self)@.last_submitted == old(self)@.last_submitted
                &&& final(self)@.released == old(self)@.released
                &&& final(self)@.succeeded == if outcome is Ok {
                    old(self)@.succeeded.insert(id)
                } else {
                    old(self)@.succeeded
                }
            },
    {
        let mut i: usize = 0;
        while i < self.entries.len()
            invariant
                self@ == old(self)@,
                i <= self.entries.len(),
                forall|k: int| 0 <= k < i ==> self.entries@[k].0 != id,
            ensures
                i < self.entries.len() ==> self.entries@[i as int].0 == id,
            decreases self.entries.len() - i,
        {
            if self.entries[i].0 == id {
                break;
            }
            i = i + 1;
        }
        if i == self.entries.len() {
            return Err(SyncError::UnknownEntry);
        }
        proof {
            let p = position_of(self@.entries, id).unwrap();
            assert(self@.entries[i as int].0 == id);
            if p != i as int {
                if p < i {
                } else {
                    assert(self.entries@[i as int].0 < self.entries@[p].0);
                }
            }
            assert(p == i);
        }
        if self.entries[i].1 != EntryStatus::InFlight {
            return Err(SyncError::UnknownEntry);
        }
        let status = match outcome {
            Ok(()) => EntryStatus::Succeeded,
            Err(_) => EntryStatus::Failed,
        };
        self.entries.set(i, (id, status));
        if status == EntryStatus::Succeeded {
            self.succeeded = Ghost(self.succeeded@.insert(id));
        }
        proof {
            let v = self@;
            assert forall|k: int|
                0 <= k < v.entries.len() && (#[trigger] v.entries[k]).1 == EntryStatus::Succeeded
                    implies v.succeeded.contains(v.entries[k].0) by {
                if k != i as int {
                    assert(v.entries[k] == old(self)@.entries[k]);
                }
            }
            assert forall|k: int|
                0 <= k < v.entries.len() implies v.entries[k].0 == old(self)@.entries[k].0 by {}
        }
        Ok(())
    }

    /// Releases the next checkpoint to persist: the oldest entry's id, once
    /// that entry succeeded. A failed or unfinished oldest entry holds back
    /// every later one.
    pub fn pop_ready(&mut self) -> (r: Option<i64>)
        requires
            old(self)@.wf(),
        ensures
            final(self)@.wf(),
            r == old(self)@.ready(),
            r is None ==> final(self)@ == old(self)@,
            r is Some ==> final(self)@ == (CheckpointView {
                entries: old(self)@.entries.drop_first(),
                released: old(self)@.released.push(r.unwrap()),
                ..old(self)@
            }),
    {
        if self.entries.len() == 0 || self.entries[0].1 != EntryStatus::Succeeded {
            return None;
        }
        let (id, _) = self.entries.remove(0);
        self.released = Ghost(self.released@.push(id));
        proof {
            let o = old(self)@;
            let v = self@;
            assert(o.entries[0].1 == EntryStatus::Succeeded);
            assert(o.succeeded.contains(o.entries[0].0));
            assert forall|k: int| 0 <= k < v.entries.len() implies v.entries[k] == o.entries[k
                + 1] by {}
            assert forall|k: int| 0 <= k < v.entries.len() implies id < #[trigger] v.entries[k].0 by {
                assert(v.entries[k] == o.entries[k + 1]);
            }
            assert forall|a: int, b: int| 0 <= a < b < v.released.len() implies v.released[a]
                < v.released[b] by {
                if b == v.released.len() - 1 && a < b {
                    assert(o.released.len() > 0 ==> o.released.last() < o.entries[0].0);
                }
            }
            assert forall|k: int|
                0 <= k < v.entries.len() && (#[trigger] v.entries[k]).1 == EntryStatus::Succeeded
                    implies v.succeeded.contains(v.entries[k].0) by {
                assert(v.entries[k] == o.entries[k + 1]);
            }
            if v.entries.len() > 0 {
                assert(v.entries.last() == o.entries.last());
            }
        }
        Some(id)
    }
}

/// Checkpoint monotonicity: the checkpoints released for persisting strictly
/// increase, and each belongs to an entry whose gates all resolved
/// successfully. It holds of every state a queue can reach.
pub proof fn lemma_checkpoints_monotonic(q: CheckpointView)
    requires
        q.wf(),
    ensures
        forall|i: int, j: int|
            0 <= i < j < q.released.len() ==> q.released[i] < q.released[j],
        forall|i: int| 0 <= i < q.released.len() ==> q.succeeded.contains(q.released[i]),
{
}

/// Entries that finish out of order are still checkpointed in order: a
/// later entry that succeeded is not released while an earlier one is in
/// flight or failed.
pub proof fn lemma_no_checkpoint_past_unfinished(q: CheckpointView)
    requires
        q.wf(),
        q.entries.len() > 0,
        q.entries[0].1 != EntryStatus::Succeeded,
    ensures
        q.ready() is None,
{
}

} // verus!
