//! The stage worker: collects the objects of one kind into batches, flushes
//! them when a batch is full, when the flush timer fires or when a completion
//! gate is requested, and fulfils the gates once everything before them has
//! been uploaded.
//!
//! The worker is a state machine. Whoever drives it performs the actions it
//! returns (an upload, fulfilling gates) and reports the outcomes back.
use vstd::prelude::*;

use crate::error::SyncError;

verus! {

#[derive(Debug, Clone, Copy, PartialEq, Eq, Structural)]
pub enum Phase {
    /// Accepting messages.
    Collecting,
    /// A batch upload is out; its outcome must be reported before anything else.
    Flushing,
    /// Terminal: after a cancellation.
    Stopped,
}

/// How an awaited upstream completion gate resolved.
#[derive(Debug, Clone, Copy, PartialEq, Eq, Structural)]
pub enum GateOutcome {
    Succeeded,
    Failed,
    /// Dropped without being fulfilled.
    Closed,
}

/// What the driver of a worker must do next.
pub enum FlushStep<T, G> {
    /// Nothing.
    Idle,
    /// Upload this batch, then report the outcome with `upload_finished`.
    Upload(Vec<T>),
    /// Fulfil each of these gates with this result.
    Release(Vec<G>, Result<(), SyncError>),
}

/// The mathematical counterpart of `FlushStep`.
pub enum StepView<T, G> {
    Idle,
    Upload(Seq<T>),
    Release(Seq<G>, Result<(), SyncError>),
}

impl<T, G> View for FlushStep<T, G> {
    type V = StepView<T, G>;

    open spec fn view(&self) -> StepView<T, G> {
        match self {
            FlushStep::Idle => StepView::Idle,
            FlushStep::Upload(b) => StepView::Upload(b@),
            FlushStep::Release(gs, r) => StepView::Release(gs@, *r),
        }
    }
}

/// The state of a worker.
pub struct WorkerView<T, G> {
    /// Objects accepted since the last flush, in order.
    pub batch: Seq<T>,
    /// Gate fulfillers waiting for the next flush, in order.
    pub waiting: Seq<G>,
    /// The first error met in the current window, if any. A window ends when
    /// its completion gates are fulfilled.
    pub error: Option<SyncError>,
    pub phase: Phase,
    pub max_batch_size: nat,
    /// Every object accepted in the current window, in order.
    pub accepted: Seq<T>,
    /// How many of `accepted` (a prefix) the remote endpoint has confirmed.
    pub confirmed: nat,
    /// The outcome of every upstream gate awaited in the current window
    /// (true: succeeded).
    pub upstream: Seq<bool>,
}

pub open spec fn all_true(s: Seq<bool>) -> bool {
    forall|j: int| 0 <= j < s.len() ==> s[j]
}

/// Whether a step fulfils gates with success.
pub open spec fn releases_ok<T, G>(step: StepView<T, G>) -> bool {
    match step {
        StepView::Release(_, r) => r is Ok,
        _ => false,
    }
}

pub open spec fn gate_error(outcome: GateOutcome) -> SyncError {
    if outcome == GateOutcome::Failed {
        SyncError::UpstreamFailed
    } else {
        SyncError::UpstreamClosed
    }
}

impl<T, G> WorkerView<T, G> {
    pub open spec fn wf(self) -> bool {
        &&& self.max_batch_size > 0
        &&& self.confirmed <= self.accepted.len()
        &&& self.phase == Phase::Collecting ==> {
            &&& self.batch.len() < self.max_batch_size
            &&& self.error.is_none() ==> self.accepted.skip(self.confirmed as int) =~= self.batch
        }
        &&& self.phase == Phase::Flushing ==> self.batch.len() == 0 && self.error.is_none()
        &&& self.phase == Phase::Stopped ==> self.batch.len() == 0 && self.waiting.len() == 0
        &&& self.error.is_none() ==> all_true(self.upstream)
    }

    /// A new window: no error, nothing pending, collecting.
    pub open spec fn reset_window(self) -> Self {
        WorkerView {
            batch: Seq::empty(),
            waiting: Seq::empty(),
            error: None,
            phase: Phase::Collecting,
            accepted: Seq::empty(),
            confirmed: 0,
            upstream: Seq::empty(),
            ..self
        }
    }

    /// A freshly started worker.
    pub open spec fn initial(max_batch_size: nat) -> Self {
        WorkerView {
            batch: Seq::empty(),
            waiting: Seq::empty(),
            error: None,
            phase: Phase::Collecting,
            max_batch_size,
            accepted: Seq::empty(),
            confirmed: 0,
            upstream: Seq::empty(),
        }
    }

    /// An upstream gate resolved: a failure is recorded as the window's error
    /// (the first error is kept).
    pub open spec fn on_wait(self, outcome: GateOutcome) -> Self {
        if self.phase == Phase::Stopped {
            self
        } else {
            let ok = outcome == GateOutcome::Succeeded;
            WorkerView {
                upstream: self.upstream.push(ok),
                error: if self.error.is_none() && !ok {
                    Some(gate_error(outcome))
                } else {
                    self.error
                },
                ..self
            }
        }
    }

    /// An object arrived. It is dropped once an error has been recorded in
    /// this window or the worker stopped; otherwise it joins the batch, and a batch that
    /// reaches the maximum size goes out at once.
    pub open spec fn on_item(self, item: T) -> (Self, Option<Seq<T>>) {
        if self.phase == Phase::Stopped || self.error.is_some() {
            (self, None)
        } else {
            let b = self.batch.push(item);
            if b.len() >= self.max_batch_size {
                (
                    WorkerView {
                        batch: Seq::empty(),
                        phase: Phase::Flushing,
                        accepted: self.accepted.push(item),
                        ..self
                    },
                    Some(b),
                )
            } else {
                (WorkerView { batch: b, accepted: self.accepted.push(item), ..self }, None)
            }
        }
    }

    /// A flush: upload the batch if there is one; fulfil the waiting gates
    /// once nothing is left to upload. If an error was recorded, the batch is
    /// dropped, and the waiting gates (if any) all fail, which ends the window.
    pub open spec fn on_flush(self) -> (Self, StepView<T, G>) {
        if self.phase == Phase::Stopped || (self.batch.len() == 0 && self.waiting.len() == 0) {
            (self, StepView::Idle)
        } else if self.error.is_some() {
            if self.waiting.len() > 0 {
                (self.reset_window(), StepView::Release(self.waiting, Err(self.error.unwrap())))
            } else {
                (WorkerView { batch: Seq::empty(), ..self }, StepView::Idle)
            }
        } else if self.batch.len() > 0 {
            (
                WorkerView { batch: Seq::empty(), phase: Phase::Flushing, ..self },
                StepView::Upload(self.batch),
            )
        } else {
            (self.reset_window(), StepView::Release(self.waiting, Ok(())))
        }
    }

    /// A completion gate was requested for everything received so far: flush
    /// now. A stopped worker fails that request at once.
    pub open spec fn on_done(self, gate: G) -> (Self, StepView<T, G>) {
        if self.phase == Phase::Stopped {
            (self, StepView::Release(seq![gate], Err(SyncError::Cancelled)))
        } else {
            WorkerView { waiting: self.waiting.push(gate), ..self }.on_flush()
        }
    }

    /// The outcome of the upload that is out: on success the batch counts as
    /// confirmed and the waiting gates succeed; on failure they all fail. Gates
    /// fulfilled end the window; a failure with no gate waiting is recorded as
    /// the window's error.
    pub open spec fn on_upload_finished(self, succeeded: bool) -> (Self, StepView<T, G>) {
        if self.waiting.len() > 0 {
            (
                self.reset_window(),
                StepView::Release(
                    self.waiting,
                    if succeeded {
                        Ok(())
                    } else {
                        Err(SyncError::UploadFailed)
                    },
                ),
            )
        } else if succeeded {
            (
                WorkerView { confirmed: self.accepted.len(), phase: Phase::Collecting, ..self },
                StepView::Release(Seq::empty(), Ok(())),
            )
        } else {
            (
                WorkerView {
                    error: Some(SyncError::UploadFailed),
                    phase: Phase::Collecting,
                    ..self
                },
                StepView::Release(Seq::empty(), Err(SyncError::UploadFailed)),
            )
        }
    }

    /// Cancellation: the worker stops, drops its batch and hands back every
    /// waiting gate to be failed.
    pub open spec fn on_stop(self) -> (Self, Seq<G>) {
        (
            WorkerView {
                phase: Phase::Stopped,
                batch: Seq::empty(),
                waiting: Seq::empty(),
                ..self
            },
            self.waiting,
        )
    }
}

pub struct StageWorker<T, G> {
    batch: Vec<T>,
    waiting: Vec<G>,
    error: Option<SyncError>,
    phase: Phase,
    max_batch_size: usize,
    accepted: Ghost<Seq<T>>,
    confirmed: Ghost<nat>,
    upstream: Ghost<Seq<bool>>,
}

impl<T, G> View for StageWorker<T, G> {
    type V = WorkerView<T, G>;

    closed spec fn view(&self) -> WorkerView<T, G> {
        WorkerView {
            batch: self.batch@,
            waiting: self.waiting@,
            error: self.error,
            phase: self.phase,
            max_batch_size: self.max_batch_size as nat,
            accepted: self.accepted@,
            confirmed: self.confirmed@,
            upstream: self.upstream@,
        }
    }
}

impl<T, G> StageWorker<T, G> {
    pub fn new(max_batch_size: usize) -> (r: Self)
        requires
            max_batch_size > 0,
        ensures
            r@ == WorkerView::<T, G>::initial(max_batch_size as nat),
            r@.wf(),
    {
        StageWorker {
            batch: Vec::new(),
            waiting: Vec::new(),
            error: None,
            phase: Phase::Collecting,
            max_batch_size,
            accepted: Ghost(Seq::empty()),
            confirmed: Ghost(0),
            upstream: Ghost(Seq::empty()),
        }
    }

    pub fn phase(&self) -> (r: Phase)
        ensures
            r == self@.phase,
    {
        self.phase
    }

    pub fn is_stopped(&self) -> (r: bool)
        ensures
            r == (self@.phase == Phase::Stopped),
    {
        self.phase == Phase::Stopped
    }

    pub fn batch_len(&self) -> (r: usize)
        ensures
            r == self@.batch.len(),
    {
        self.batch.len()
    }

    fn take_waiting(&mut self) -> (r: Vec<G>)
        ensures
            r@ == old(self).waiting@,
            final(self).waiting@ == Seq::<G>::empty(),
            final(self).batch == old(self).batch,
            final(self).error == old(self).error,
            final(self).phase == old(self).phase,
            final(self).max_batch_size == old(self).max_batch_size,
            final(self).accepted == old(self).accepted,
            final(self).confirmed == old(self).confirmed,
            final(self).upstream == old(self).upstream,
    {
        let mut out: Vec<G> = Vec::new();
        std::mem::swap(&mut out, &mut self.waiting);
        out
    }

    fn reset_window(&mut self)
        ensures
            final(self)@ == old(self)@.reset_window(),
    {
        self.batch = Vec::new();
        self.waiting = Vec::new();
        self.error = None;
        self.phase = Phase::Collecting;
        self.accepted = Ghost(Seq::empty());
        self.confirmed = Ghost(0);
        self.upstream = Ghost(Seq::empty());
        assert(self@ =~= old(self)@.reset_window());
    }

    /// Records how an awaited upstream gate resolved.
    pub fn receive_wait(&mut self, outcome: GateOutcome)
        requires
            old(self)@.wf(),
            old(self)@.phase != Phase::Flushing,
        ensures
            final(self)@ == old(self)@.on_wait(outcome),
            final(self)@.wf(),
    {
        if self.phase == Phase::Stopped {
            return ;
        }
        let ok = match outcome {
            GateOutcome::Succeeded => true,
            _ => false,
        };
        self.upstream = Ghost(self.upstream@.push(ok));
        if self.error.is_none() && !ok {
            self.error = Some(
                match outcome {
                    GateOutcome::Failed => SyncError::UpstreamFailed,
                    _ => SyncError::UpstreamClosed,
                },
            );
        }
        assert(self@ == old(self)@.on_wait(outcome));
    }

    /// Takes in one object; returns the batch to upload when it became full.
    pub fn receive_item(&mut self, item: T) -> (r: Option<Vec<T>>)
        requires
            old(self)@.wf(),
            old(self)@.phase != Phase::Flushing,
        ensures
            final(self)@ == old(self)@.on_item(item).0,
            r.is_some() == old(self)@.on_item(item).1.is_some(),
            r.is_some() ==> r.unwrap()@ == old(self)@.on_item(item).1.unwrap(),
            final(self)@.wf(),
    {
        if self.phase == Phase::Stopped || self.error.is_some() {
            return None;
        }
        self.batch.push(item);
        self.accepted = Ghost(self.accepted@.push(item));
        if self.batch.len() >= self.max_batch_size {
            let mut out: Vec<T> = Vec::new();
            std::mem::swap(&mut out, &mut self.batch);
            self.phase = Phase::Flushing;
            assert(self@ =~= old(self)@.on_item(item).0);
            Some(out)
        } else {
            assert(self.accepted@.skip(self.confirmed@ as int) =~= self.batch@) by {
                assert(old(self).accepted@.skip(old(self).confirmed@ as int) =~= old(
                    self,
                ).batch@);
            }
            assert(self@ =~= old(self)@.on_item(item).0);
            None
        }
    }

    fn flush(&mut self) -> (r: FlushStep<T, G>)
        requires
            old(self)@.wf(),
            old(self)@.phase != Phase::Flushing,
        ensures
            final(self)@ == old(self)@.on_flush().0,
            r@ == old(self)@.on_flush().1,
            final(self)@.wf(),
    {
        if self.phase == Phase::Stopped || (self.batch.len() == 0 && self.waiting.len() == 0) {
            return FlushStep::Idle;
        }
        match self.error {
            Some(e) => {
                if self.waiting.len() > 0 {
                    let gates = self.take_waiting();
                    self.reset_window();
                    FlushStep::Release(gates, Err(e))
                } else {
                    self.batch = Vec::new();
                    assert(self@ =~= old(self)@.on_flush().0);
                    FlushStep::Idle
                }
            },
            None => {
                if self.batch.len() > 0 {
                    let mut out: Vec<T> = Vec::new();
                    std::mem::swap(&mut out, &mut self.batch);
                    self.phase = Phase::Flushing;
                    assert(self@ =~= old(self)@.on_flush().0);
                    FlushStep::Upload(out)
                } else {
                    let gates = self.take_waiting();
                    self.reset_window();
                    FlushStep::Release(gates, Ok(()))
                }
            },
        }
    }

    /// The flush timer fired.
    pub fn tick(&mut self) -> (r: FlushStep<T, G>)
        requires
            old(self)@.wf(),
            old(self)@.phase != Phase::Flushing,
        ensures
            final(self)@ == old(self)@.on_flush().0,
            r@ == old(self)@.on_flush().1,
            final(self)@.wf(),
    {
        self.flush()
    }

    /// A completion gate was requested for everything received so far.
    pub fn receive_done(&mut self, gate: G) -> (r: FlushStep<T, G>)
        requires
            old(self)@.wf(),
            old(self)@.phase != Phase::Flushing,
        ensures
            final(self)@ == old(self)@.on_done(gate).0,
            r@ == old(self)@.on_done(gate).1,
            final(self)@.wf(),
    {
        if self.phase == Phase::Stopped {
            let mut gates: Vec<G> = Vec::new();
            gates.push(gate);
            assert(gates@ =~= seq![gate]);
            return FlushStep::Release(gates, Err(SyncError::Cancelled));
        }
        self.waiting.push(gate);
        self.flush()
    }

    /// Reports the outcome of the upload that `Upload` asked for.
    pub fn upload_finished(&mut self, succeeded: bool) -> (r: FlushStep<T, G>)
        requires
            old(self)@.wf(),
            old(self)@.phase == Phase::Flushing,
        ensures
            final(self)@ == old(self)@.on_upload_finished(succeeded).0,
            r@ == old(self)@.on_upload_finished(succeeded).1,
            final(self)@.wf(),
    {
        let result = if succeeded {
            Ok(())
        } else {
            Err(SyncError::UploadFailed)
        };
        if self.waiting.len() > 0 {
            let gates = self.take_waiting();
            self.reset_window();
            return FlushStep::Release(gates, result);
        }
        if succeeded {
            self.confirmed = Ghost(self.accepted@.len());
        } else {
            self.error = Some(SyncError::UploadFailed);
        }
        self.phase = Phase::Collecting;
        if succeeded {
            assert(self.accepted@.skip(self.confirmed@ as int) =~= self.batch@);
        }
        assert(self@ =~= old(self)@.on_upload_finished(succeeded).0);
        FlushStep::Release(Vec::new(), result)
    }

    /// Cancellation: stops the worker and returns the gates still waiting,
    /// each to be failed with `SyncError::Cancelled`.
    pub fn stop(&mut self) -> (r: Vec<G>)
        requires
            old(self)@.wf(),
            old(self)@.phase != Phase::Flushing,
        ensures
            final(self)@ == old(self)@.on_stop().0,
            r@ == old(self)@.on_stop().1,
            final(self)@.wf(),
    {
        let gates = self.take_waiting();
        self.batch = Vec::new();
        self.phase = Phase::Stopped;
        assert(self@ =~= old(self)@.on_stop().0);
        gates
    }
}

/// Drives a worker with `items`, one at a time, reporting every batch upload
/// as successful at once; returns the final state and the batches uploaded.
pub open spec fn feed<T, G>(v: WorkerView<T, G>, items: Seq<T>) -> (WorkerView<T, G>, Seq<Seq<T>>)
    decreases items.len(),
{
    if items.len() == 0 {
        (v, Seq::empty())
    } else {
        let (w, flushed) = feed(v, items.drop_last());
        let (w1, out) = w.on_item(items.last());
        match out {
            Some(b) => (w1.on_upload_finished(true).0, flushed.push(b)),
            None => (w1, flushed),
        }
    }
}

proof fn lemma_feed_below_max<T, G>(max: nat, items: Seq<T>)
    requires
        max > 0,
        items.len() < max,
    ensures
        feed(WorkerView::<T, G>::initial(max), items).1 == Seq::<Seq<T>>::empty(),
        feed(WorkerView::<T, G>::initial(max), items).0 == (WorkerView {
            batch: items,
            accepted: items,
            ..WorkerView::<T, G>::initial(max)
        }),
    decreases items.len(),
{
    if items.len() > 0 {
        let d = items.drop_last();
        lemma_feed_below_max::<T, G>(max, d);
        assert(d.push(items.last()) =~= items);
        let w = feed(WorkerView::<T, G>::initial(max), d).0;
        let step = w.on_item(items.last());
        assert(step.1.is_none());
        assert(step.0.batch =~= items);
        assert(step.0.accepted =~= items);
    } else {
        assert(items =~= Seq::<T>::empty());
    }
}

/// Flush by size: feeding a fresh worker one object more than its maximum
/// batch size uploads exactly one batch, of the first `max_batch_size`
/// objects, and leaves the last object pending. (With a maximum of one,
/// every object is a full batch of its own.)
pub proof fn lemma_flush_by_size<T, G>(max_batch_size: nat, items: Seq<T>)
    requires
        max_batch_size > 1,
        items.len() == max_batch_size + 1,
    ensures
        feed(WorkerView::<T, G>::initial(max_batch_size), items).1 == seq![
            items.take(max_batch_size as int),
        ],
        feed(WorkerView::<T, G>::initial(max_batch_size), items).0.batch == seq![
            items[max_batch_size as int],
        ],
        feed(WorkerView::<T, G>::initial(max_batch_size), items).0.phase == Phase::Collecting,
{
    let v0 = WorkerView::<T, G>::initial(max_batch_size);
    let first = items.take(max_batch_size as int);
    let head = items.take(max_batch_size - 1);
    lemma_feed_below_max::<T, G>(max_batch_size, head);
    assert(first.drop_last() =~= head);
    assert(head.push(first.last()) =~= first);
    let h = feed(v0, head).0;
    let step = h.on_item(first.last());
    assert(step.1 == Some(first));
    assert(feed(v0, first).1 =~= seq![first]);
    let w = feed(v0, first).0;
    assert(w.batch.len() == 0);
    assert(w.phase == Phase::Collecting);
    assert(w.error.is_none());
    assert(items.drop_last() =~= first);
    assert(items.last() == items[max_batch_size as int]);
    assert(w.batch =~= Seq::<T>::empty());
    let after_last = w.on_item(items.last());
    assert(after_last.1.is_none());
    assert(after_last.0.batch =~= seq![items[max_batch_size as int]]);
}

/// Flush by time: after feeding a fresh worker fewer objects than its maximum
/// batch size, nothing has been uploaded, and the timer's flush uploads
/// exactly the pending objects.
pub proof fn lemma_flush_by_time<T, G>(max_batch_size: nat, items: Seq<T>)
    requires
        max_batch_size > 0,
        0 < items.len() < max_batch_size,
    ensures
        feed(WorkerView::<T, G>::initial(max_batch_size), items).1 == Seq::<Seq<T>>::empty(),
        feed(WorkerView::<T, G>::initial(max_batch_size), items).0.on_flush().1 == StepView::<
            T,
            G,
        >::Upload(items),
{
    lemma_feed_below_max::<T, G>(max_batch_size, items);
}

/// Cancellation drains safely: stopping hands back every waiting gate and
/// leaves none behind; afterwards no object is accepted, no upstream outcome
/// or timer changes anything, and a newly requested gate is failed at once
/// with `SyncError::Cancelled`.
pub proof fn lemma_cancellation_drains<T, G>(
    v: WorkerView<T, G>,
    item: T,
    gate: G,
    outcome: GateOutcome,
)
    requires
        v.wf(),
    ensures
        v.on_stop().1 == v.waiting,
        v.on_stop().0.waiting.len() == 0,
        v.on_stop().0.on_item(item) == (v.on_stop().0, None::<Seq<T>>),
        v.on_stop().0.on_wait(outcome) == v.on_stop().0,
        v.on_stop().0.on_flush() == (v.on_stop().0, StepView::<T, G>::Idle),
        v.on_stop().0.on_done(gate).0 == v.on_stop().0,
        v.on_stop().0.on_done(gate).1 == StepView::<T, G>::Release(
            seq![gate],
            Err(SyncError::Cancelled),
        ),
{
}

/// A worker uploads only while every upstream gate it has awaited succeeded:
/// a batch goes out, by size or by flush, only then.
pub proof fn lemma_upload_needs_upstream_success<T, G>(v: WorkerView<T, G>, item: T)
    requires
        v.wf(),
    ensures
        v.on_item(item).1.is_some() ==> all_true(v.upstream),
        v.on_flush().1 is Upload ==> all_true(v.upstream),
{
}

/// A gate succeeds only when every upstream gate awaited in its window
/// succeeded and every object accepted in the window before it has been
/// confirmed by the remote endpoint; the one other way is the upload that is
/// out succeeding, which it can only be while every upstream gate succeeded.
pub proof fn lemma_gate_success_needs_confirmation<T, G>(v: WorkerView<T, G>, gate: G)
    requires
        v.wf(),
    ensures
        v.phase != Phase::Flushing && releases_ok(v.on_flush().1) ==> v.confirmed
            == v.accepted.len() && all_true(v.upstream),
        v.phase != Phase::Flushing && releases_ok(v.on_done(gate).1) ==> v.confirmed
            == v.accepted.len() && all_true(v.upstream),
        v.phase == Phase::Flushing ==> all_true(v.upstream) && v.batch.len() == 0,
{
    if v.phase == Phase::Collecting && v.batch.len() == 0 && v.error is None {
        assert(v.accepted.skip(v.confirmed as int).len() == 0);
    }
}

/// An error blocks only its own window: a worker that recorded an error
/// drops objects, fails the next requested gate with that error, and then
/// collects again with no error, as in a new window.
pub proof fn lemma_error_ends_with_its_window<T, G>(v: WorkerView<T, G>, item: T, gate: G)
    requires
        v.wf(),
        v.phase == Phase::Collecting,
        v.error is Some,
    ensures
        v.on_item(item) == (v, None::<Seq<T>>),
        v.on_done(gate).1 == StepView::<T, G>::Release(v.waiting.push(gate), Err(v.error.unwrap())),
        v.on_done(gate).0 == v.reset_window(),
        v.on_done(gate).0.phase == Phase::Collecting,
        v.on_done(gate).0.error is None,
        v.on_done(gate).0.wf(),
{
}

/// Ordering at the changeset stage: once it has awaited an entry's filenode
/// and tree gates (which the entry's plan puts before its changesets), none
/// of the entry's changesets is uploaded, by size or by flush, unless both
/// gates succeeded.
pub proof fn lemma_changesets_wait_for_files_and_trees<T, G>(
    v: WorkerView<T, G>,
    files: GateOutcome,
    trees: GateOutcome,
    changeset: T,
)
    requires
        v.wf(),
        v.phase == Phase::Collecting,
    ensures
        ({
            let w = v.on_wait(files).on_wait(trees);
            let after = w.on_item(changeset);
            (after.1 is Some || (after.0.phase != Phase::Flushing && after.0.on_flush().1 is Upload))
                ==> files == GateOutcome::Succeeded && trees == GateOutcome::Succeeded
        }),
{
    let w = v.on_wait(files).on_wait(trees);
    if files != GateOutcome::Succeeded || trees != GateOutcome::Succeeded {
        assert(w.error is Some);
    }
}

} // verus!
