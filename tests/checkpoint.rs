use modern_sync::checkpoint::CheckpointQueue;
use modern_sync::error::SyncError;
use modern_sync::pipeline::after_changesets;
use modern_sync::pipeline::entry_outcome;
use modern_sync::pipeline::AfterChangesets;
use modern_sync::pipeline::Orchestrator;
use modern_sync::worker::GateOutcome;

#[test]
fn checkpoints_are_released_in_submission_order() {
    let mut q = CheckpointQueue::new(None);
    q.submit(1).unwrap();
    q.submit(2).unwrap();
    q.submit(3).unwrap();
    q.complete(2, Ok(())).unwrap();
    assert_eq!(q.pop_ready(), None);
    q.complete(1, Ok(())).unwrap();
    assert_eq!(q.pop_ready(), Some(1));
    assert_eq!(q.pop_ready(), Some(2));
    assert_eq!(q.pop_ready(), None);
    q.complete(3, Ok(())).unwrap();
    assert_eq!(q.pop_ready(), Some(3));
    assert_eq!(q.in_flight(), 0);
}

#[test]
fn entry_ids_must_increase() {
    let mut q = CheckpointQueue::new(None);
    q.submit(5).unwrap();
    assert_eq!(q.submit(5), Err(SyncError::EntryOutOfOrder));
    assert_eq!(q.submit(3), Err(SyncError::EntryOutOfOrder));
    assert_eq!(q.in_flight(), 1);
}

#[test]
fn resume_only_accepts_later_entries() {
    let mut q = CheckpointQueue::new(Some(10));
    assert_eq!(q.submit(10), Err(SyncError::EntryOutOfOrder));
    assert_eq!(q.submit(11), Ok(()));
}

#[test]
fn failed_entry_halts_checkpoints() {
    let mut q = CheckpointQueue::new(None);
    q.submit(1).unwrap();
    q.submit(2).unwrap();
    q.complete(1, Err(SyncError::UploadFailed)).unwrap();
    q.complete(2, Ok(())).unwrap();
    assert_eq!(q.pop_ready(), None);
    assert_eq!(q.in_flight(), 2);
}

#[test]
fn unknown_or_finished_entry_is_refused() {
    let mut q = CheckpointQueue::new(None);
    q.submit(1).unwrap();
    assert_eq!(q.complete(7, Ok(())), Err(SyncError::UnknownEntry));
    q.complete(1, Ok(())).unwrap();
    assert_eq!(q.complete(1, Ok(())), Err(SyncError::UnknownEntry));
}

#[test]
fn orchestrator_releases_ready_checkpoints() {
    let mut o = Orchestrator::new(None);
    o.submit(1).unwrap();
    o.submit(2).unwrap();
    assert_eq!(o.entry_finished(2, Ok(())), Ok(vec![]));
    assert_eq!(o.entry_finished(1, Ok(())), Ok(vec![1, 2]));
}

#[test]
fn orchestrator_surfaces_entry_failure() {
    let mut o = Orchestrator::new(None);
    o.submit(1).unwrap();
    o.submit(2).unwrap();
    assert_eq!(
        o.entry_finished(1, Err(SyncError::UpstreamFailed)),
        Err(SyncError::UpstreamFailed)
    );
    assert_eq!(o.entry_finished(2, Ok(())), Ok(vec![]));
    assert_eq!(o.entry_finished(3, Ok(())), Err(SyncError::UnknownEntry));
}

#[test]
fn orchestrator_refuses_entries_after_cancellation() {
    let mut o = Orchestrator::new(Some(4));
    assert_eq!(o.submit(4), Err(SyncError::EntryOutOfOrder));
    o.submit(5).unwrap();
    o.cancel();
    assert!(o.is_cancelled());
    assert_eq!(o.submit(6), Err(SyncError::Cancelled));
}

#[test]
fn bookmark_moves_only_after_changesets_succeed() {
    assert!(matches!(
        after_changesets(GateOutcome::Succeeded, true),
        AfterChangesets::MoveBookmark
    ));
    assert!(matches!(
        after_changesets(GateOutcome::Succeeded, false),
        AfterChangesets::Finish(Ok(()))
    ));
    assert!(matches!(
        after_changesets(GateOutcome::Failed, true),
        AfterChangesets::Finish(Err(SyncError::UpstreamFailed))
    ));
    assert!(matches!(
        after_changesets(GateOutcome::Closed, false),
        AfterChangesets::Finish(Err(SyncError::UpstreamClosed))
    ));
    assert_eq!(entry_outcome(true), Ok(()));
    assert_eq!(entry_outcome(false), Err(SyncError::BookmarkFailed));
}
