//! Errors of the replication pipeline.
use vstd::prelude::*;

verus! {

/// Why a stage, a gate or an entry did not complete.
#[derive(Debug, Clone, Copy, PartialEq, Eq, Structural)]
pub enum SyncError {
    /// An upstream stage fulfilled its gate with an error.
    UpstreamFailed,
    /// An upstream gate was dropped without being fulfilled.
    UpstreamClosed,
    /// The remote endpoint rejected a batch; the whole batch counts as failed.
    UploadFailed,
    /// The pipeline was shut down before the work completed.
    Cancelled,
    /// The remote endpoint rejected a bookmark move.
    BookmarkFailed,
    /// The checkpoint store did not persist a checkpoint.
    CheckpointFailed,
    /// An entry id was not greater than the one submitted before it.
    EntryOutOfOrder,
    /// The entry is not in flight.
    UnknownEntry,
}

} // verus!
