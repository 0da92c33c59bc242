use modern_sync::error::SyncError;
use modern_sync::worker::FlushStep;
use modern_sync::worker::GateOutcome;
use modern_sync::worker::Phase;
use modern_sync::worker::StageWorker;

fn uploaded(step: FlushStep<u32, &'static str>) -> Vec<u32> {
    match step {
        FlushStep::Upload(b) => b,
        _ => panic!("expected an upload"),
    }
}

fn released(step: FlushStep<u32, &'static str>) -> (Vec<&'static str>, Result<(), SyncError>) {
    match step {
        FlushStep::Release(g, r) => (g, r),
        _ => panic!("expected gates to be released"),
    }
}

fn is_idle(step: &FlushStep<u32, &'static str>) -> bool {
    matches!(step, FlushStep::Idle)
}

#[test]
fn batch_flushes_by_size() {
    let mut w: StageWorker<u32, &'static str> = StageWorker::new(3);
    assert!(w.receive_item(1).is_none());
    assert!(w.receive_item(2).is_none());
    assert_eq!(w.receive_item(3), Some(vec![1, 2, 3]));
    assert_eq!(w.phase(), Phase::Flushing);
    let (gates, result) = released(w.upload_finished(true));
    assert!(gates.is_empty());
    assert_eq!(result, Ok(()));
    assert!(w.receive_item(4).is_none());
    assert_eq!(w.batch_len(), 1);
    assert_eq!(uploaded(w.tick()), vec![4]);
}

#[test]
fn batch_flushes_by_time() {
    let mut w: StageWorker<u32, &'static str> = StageWorker::new(5);
    assert!(w.receive_item(7).is_none());
    assert!(w.receive_item(8).is_none());
    assert_eq!(uploaded(w.tick()), vec![7, 8]);
    assert_eq!(w.batch_len(), 0);
}

#[test]
fn empty_flush_is_a_no_op() {
    let mut w: StageWorker<u32, &'static str> = StageWorker::new(5);
    assert!(is_idle(&w.tick()));
    assert_eq!(w.phase(), Phase::Collecting);
}

#[test]
fn max_batch_of_one_uploads_each_item() {
    let mut w: StageWorker<u32, &'static str> = StageWorker::new(1);
    assert_eq!(w.receive_item(1), Some(vec![1]));
    w.upload_finished(true);
    assert_eq!(w.receive_item(2), Some(vec![2]));
}

#[test]
fn gate_succeeds_after_its_batch_is_uploaded() {
    let mut w: StageWorker<u32, &'static str> = StageWorker::new(10);
    w.receive_item(1);
    w.receive_item(2);
    assert_eq!(uploaded(w.receive_done("entry-1")), vec![1, 2]);
    let (gates, result) = released(w.upload_finished(true));
    assert_eq!(gates, vec!["entry-1"]);
    assert_eq!(result, Ok(()));
}

#[test]
fn gate_with_nothing_pending_succeeds_at_once() {
    let mut w: StageWorker<u32, &'static str> = StageWorker::new(10);
    let (gates, result) = released(w.receive_done("g"));
    assert_eq!(gates, vec!["g"]);
    assert_eq!(result, Ok(()));
}

#[test]
fn upstream_failure_drops_items_and_fails_gates() {
    let mut w: StageWorker<u32, &'static str> = StageWorker::new(10);
    w.receive_wait(GateOutcome::Succeeded);
    w.receive_wait(GateOutcome::Failed);
    assert!(w.receive_item(1).is_none());
    assert_eq!(w.batch_len(), 0);
    let (gates, result) = released(w.receive_done("g"));
    assert_eq!(gates, vec!["g"]);
    assert_eq!(result, Err(SyncError::UpstreamFailed));
    // The failed entry's window is over: the next entry's objects are taken.
    assert!(!w.is_stopped());
    assert!(w.receive_item(2).is_none());
    assert_eq!(w.batch_len(), 1);
}

#[test]
fn closed_upstream_gate_counts_as_failure() {
    let mut w: StageWorker<u32, &'static str> = StageWorker::new(10);
    w.receive_wait(GateOutcome::Closed);
    let (_, result) = released(w.receive_done("g"));
    assert_eq!(result, Err(SyncError::UpstreamClosed));
}

#[test]
fn first_upstream_error_is_kept() {
    let mut w: StageWorker<u32, &'static str> = StageWorker::new(10);
    w.receive_wait(GateOutcome::Closed);
    w.receive_wait(GateOutcome::Failed);
    let (_, result) = released(w.receive_done("g"));
    assert_eq!(result, Err(SyncError::UpstreamClosed));
}

#[test]
fn upload_failure_fails_gates_and_stops() {
    let mut w: StageWorker<u32, &'static str> = StageWorker::new(10);
    w.receive_item(1);
    assert_eq!(uploaded(w.receive_done("a")), vec![1]);
    let (gates, result) = released(w.upload_finished(false));
    assert_eq!(gates, vec!["a"]);
    assert_eq!(result, Err(SyncError::UploadFailed));
    assert!(!w.is_stopped());
    assert!(w.receive_item(2).is_none());
    assert_eq!(w.batch_len(), 1);
}

#[test]
fn size_flush_failure_fails_the_entry_gate() {
    let mut w: StageWorker<u32, &'static str> = StageWorker::new(2);
    w.receive_item(1);
    assert_eq!(w.receive_item(2), Some(vec![1, 2]));
    let (gates, result) = released(w.upload_finished(false));
    assert!(gates.is_empty());
    assert_eq!(result, Err(SyncError::UploadFailed));
    assert!(w.receive_item(3).is_none());
    assert_eq!(w.batch_len(), 0);
    let (gates, result) = released(w.receive_done("entry"));
    assert_eq!(gates, vec!["entry"]);
    assert_eq!(result, Err(SyncError::UploadFailed));
    assert!(w.receive_item(4).is_none());
    assert_eq!(w.batch_len(), 1);
}

#[test]
fn error_drops_pending_batch_on_tick() {
    let mut w: StageWorker<u32, &'static str> = StageWorker::new(10);
    w.receive_item(1);
    w.receive_wait(GateOutcome::Failed);
    assert!(is_idle(&w.tick()));
    assert_eq!(w.batch_len(), 0);
    let (_, result) = released(w.receive_done("entry"));
    assert_eq!(result, Err(SyncError::UpstreamFailed));
}

#[test]
fn cancellation_drains_safely() {
    let mut w: StageWorker<u32, &'static str> = StageWorker::new(10);
    w.receive_item(1);
    let left = w.stop();
    assert!(left.is_empty());
    assert!(w.is_stopped());
    assert_eq!(w.batch_len(), 0);
    assert!(w.receive_item(2).is_none());
    assert_eq!(w.batch_len(), 0);
    assert!(is_idle(&w.tick()));
    let (gates, result) = released(w.receive_done("late"));
    assert_eq!(gates, vec!["late"]);
    assert_eq!(result, Err(SyncError::Cancelled));
}

#[test]
fn changesets_wait_for_files_and_trees() {
    let mut blocked: StageWorker<u32, &'static str> = StageWorker::new(1);
    blocked.receive_wait(GateOutcome::Succeeded);
    blocked.receive_wait(GateOutcome::Failed);
    assert!(blocked.receive_item(100).is_none());
    let (_, result) = released(blocked.receive_done("entry"));
    assert_eq!(result, Err(SyncError::UpstreamFailed));

    let mut ready: StageWorker<u32, &'static str> = StageWorker::new(1);
    ready.receive_wait(GateOutcome::Succeeded);
    ready.receive_wait(GateOutcome::Succeeded);
    assert_eq!(ready.receive_item(100), Some(vec![100]));
}
