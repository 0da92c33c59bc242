//! The orchestrator's decisions: which entries may enter the pipeline, what
//! follows once an entry's changesets resolved, and which checkpoints can be
//! persisted, in order, as entries finish.
use vstd::prelude::*;

use crate::checkpoint::CheckpointQueue;
use crate::checkpoint::position_of;
use crate::checkpoint::EntryStatus;
use crate::checkpoint::CheckpointView;
use crate::error::SyncError;
use crate::worker::GateOutcome;

verus! {

/// The counter that holds the id of the last entry fully synced.
pub const MODERN_SYNC_COUNTER_NAME: &'static str = "modern_sync";

/// Capacity of each stage's channel; a producer waits when it is full.
pub const CONTENT_CHANNEL_SIZE: usize = 40_000;
pub const FILES_CHANNEL_SIZE: usize = 50_000;
pub const TREES_CHANNEL_SIZE: usize = 50_000;
pub const CHANGESET_CHANNEL_SIZE: usize = 15_000;

/// Largest batch of each stage.
pub const MAX_CONTENT_BATCH_SIZE: usize = 300;
pub const MAX_FILENODES_BATCH_SIZE: usize = 500;
pub const MAX_TREES_BATCH_SIZE: usize = 500;
pub const MAX_CHANGESET_BATCH_SIZE: usize = 20;

/// How often every stage flushes what it holds, in milliseconds.
pub const FLUSH_INTERVAL_MS: u64 = 1_000;

/// How often the stop condition is polled, in milliseconds.
pub const CANCELLATION_POLL_MS: u64 = 5_000;

/// What the orchestrator does once an entry's changesets resolved.
#[derive(Debug, Clone, Copy)]
pub enum AfterChangesets {
    /// Move the entry's bookmark on the remote end, then finish the entry
    /// with `entry_outcome`.
    MoveBookmark,
    /// Finish the entry with this result.
    Finish(Result<(), SyncError>),
}

pub open spec fn gate_result(outcome: GateOutcome) -> Result<(), SyncError> {
    match outcome {
        GateOutcome::Succeeded => Ok(()),
        GateOutcome::Failed => Err(SyncError::UpstreamFailed),
        GateOutcome::Closed => Err(SyncError::UpstreamClosed),
    }
}

/// A bookmark is moved only after the entry's changesets all succeeded.
pub fn after_changesets(changesets: GateOutcome, has_bookmark: bool) -> (r: AfterChangesets)
    ensures
        r == (if changesets == GateOutcome::Succeeded && has_bookmark {
            AfterChangesets::MoveBookmark
        } else {
            AfterChangesets::Finish(gate_result(changesets))
        }),
{
    match changesets {
        GateOutcome::Succeeded => {
            if has_bookmark {
                AfterChangesets::MoveBookmark
            } else {
                AfterChangesets::Finish(Ok(()))
            }
        },
        GateOutcome::Failed => AfterChangesets::Finish(Err(SyncError::UpstreamFailed)),
        GateOutcome::Closed => AfterChangesets::Finish(Err(SyncError::UpstreamClosed)),
    }
}

/// The outcome of an entry whose bookmark move was attempted.
pub fn entry_outcome(bookmark_moved: bool) -> (r: Result<(), SyncError>)
    ensures
        r == (if bookmark_moved {
            Ok::<(), SyncError>(())
        } else {
            Err(SyncError::BookmarkFailed)
        }),
{
    if bookmark_moved {
        Ok(())
    } else {
        Err(SyncError::BookmarkFailed)
    }
}

pub struct OrchestratorView {
    pub queue: CheckpointView,
    pub cancelled: bool,
}

pub struct Orchestrator {
    queue: CheckpointQueue,
    cancelled: bool,
}

impl View for Orchestrator {
    type V = OrchestratorView;

    closed spec fn view(&self) -> OrchestratorView {
        OrchestratorView { queue: self.queue@, cancelled: self.cancelled }
    }
}

impl Orchestrator {
    /// The queue is well formed, and every checkpoint that could be
    /// released has been.
    pub open spec fn wf(&self) -> bool {
        self@.queue.wf() && self@.queue.ready() is None
    }

    /// An orchestrator resuming after the persisted checkpoint `resume_after`.
    pub fn new(resume_after: Option<i64>) -> (r: Self)
        ensures
            r.wf(),
            !r@.cancelled,
            r@.queue.entries.len() == 0,
            r@.queue.last_submitted == resume_after,
            r@.queue.released.len() == 0,
    {
        Orchestrator { queue: CheckpointQueue::new(resume_after), cancelled: false }
    }

    pub fn is_cancelled(&self) -> (r: bool)
        ensures
            r == self@.cancelled,
    {
        self.cancelled
    }

    /// Sets the cancellation flag; nothing is accepted afterwards.
    pub fn cancel(&mut self)
        requires
            old(self).wf(),
        ensures
            final(self).wf(),
            final(self)@ == (OrchestratorView { cancelled: true, ..old(self)@ }),
    {
        self.cancelled = true;
    }

    /// Admits entry `id` into the pipeline: refused once cancelled, and
    /// unless ids strictly increase.
    pub fn submit(&mut self, id: i64) -> (r: Result<(), SyncError>)
        requires
            old(self).wf(),
        ensures
            final(self).wf(),
            old(self)@.cancelled ==> r == Err::<(), SyncError>(SyncError::Cancelled),
            !old(self)@.cancelled && !old(self)@.queue.accepts(id) ==> r == Err::<(), SyncError>(
                SyncError::EntryOutOfOrder,
            ),
            r.is_ok() == (!old(self)@.cancelled && old(self)@.queue.accepts(id)),
            r.is_err() ==> final(self)@ == old(self)@,
            r.is_ok() ==> final(self)@ == (OrchestratorView {
                queue: CheckpointView {
                    entries: old(self)@.queue.entries.push(
                        (id, crate::checkpoint::EntryStatus::InFlight),
                    ),
                    last_submitted: Some(id),
                    ..old(self)@.queue
                },
                ..old(self)@
            }),
    {
        if self.cancelled {
            return Err(SyncError::Cancelled);
        }
        self.queue.submit(id)
    }

    /// Records that entry `id` ended with `outcome` and releases, in order,
    /// every checkpoint that can now be persisted. A failed entry's error is
    /// returned and no checkpoint is released for it or after it.
    pub fn entry_finished(&mut self, id: i64, outcome: Result<(), SyncError>) -> (r: Result<
        Vec<i64>,
        SyncError,
    >)
        requires
            old(self).wf(),
        ensures
            final(self).wf(),
            final(self)@.cancelled == old(self)@.cancelled,
            !old(self)@.queue.is_in_flight(id) ==> r == Err::<Vec<i64>, SyncError>(
                SyncError::UnknownEntry,
            ) && final(self)@ == old(self)@,
            old(self)@.queue.is_in_flight(id) && outcome is Err ==> r == Err::<Vec<i64>, SyncError>(
                outcome.unwrap_err(),
            ) && final(self)@.queue.released == old(self)@.queue.released
                && final(self)@.queue.entries == old(self)@.queue.entries.update(
                position_of(old(self)@.queue.entries, id).unwrap(),
                (id, EntryStatus::Failed),
            ),
            old(self)@.queue.is_in_flight(id) && outcome is Ok ==> {
                &&& r is Ok
                &&& r.unwrap()@ == final(self)@.queue.released.skip(
                    old(self)@.queue.released.len() as int,
                )
                &&& final(self)@.queue.succeeded.contains(id)
                &&& final(self)@.queue.entries == old(self)@.queue.entries.update(
                    position_of(old(self)@.queue.entries, id).unwrap(),
                    (id, EntryStatus::Succeeded),
                ).skip(r.unwrap()@.len() as int)
            },
            final(self)@.queue.released.len() >= old(self)@.queue.released.len(),
            old(self)@.queue.released.is_prefix_of(final(self)@.queue.released),
    {
        match self.queue.complete(id, outcome) {
            Ok(()) => {},
            Err(e) => {
                return Err(e);
            },
        }
        proof {
            let o = old(self)@.queue;
            let i = position_of(o.entries, id).unwrap();
            if outcome is Err && i != 0 {
                assert(self@.queue.entries[0] == o.entries[0]);
            }
        }
        let ghost base = self.queue@.released;
        let ghost updated = self.queue@.entries;
        let mut ready: Vec<i64> = Vec::new();
        loop
            invariant
                self@.queue.wf(),
                self@.cancelled == old(self)@.cancelled,
                base == old(self)@.queue.released,
                base.is_prefix_of(self@.queue.released),
                ready@ == self@.queue.released.skip(base.len() as int),
                outcome is Ok ==> self@.queue.succeeded.contains(id),
                outcome is Err ==> self@.queue.ready() is None && self@.queue.released == base,
                ready@.len() <= updated.len(),
                self@.queue.entries == updated.skip(ready@.len() as int),
            ensures
                ready@.len() <= updated.len(),
                self@.queue.entries == updated.skip(ready@.len() as int),
                self@.queue.wf(),
                self@.queue.ready() is None,
                base.is_prefix_of(self@.queue.released),
                ready@ == self@.queue.released.skip(base.len() as int),
                outcome is Ok ==> self@.queue.succeeded.contains(id),
                outcome is Err ==> self@.queue.released == base,
            decreases self@.queue.entries.len(),
        {
            match self.queue.pop_ready() {
                Some(c) => {
                    assert(updated.skip(ready@.len() as int).drop_first() =~= updated.skip(
                        ready@.len() + 1 as int,
                    ));
                    ready.push(c);
                    assert(ready@ =~= self@.queue.released.skip(base.len() as int));
                    assert(base.is_prefix_of(self@.queue.released));
                },
                None => {
                    break;
                },
            }
        }
        match outcome {
            Ok(()) => Ok(ready),
            Err(e) => Err(e),
        }
    }
}

} // verus!
