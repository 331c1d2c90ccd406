//! Handing queued jobs to transfer workers and filing what they report.
use vstd::prelude::*;
use crate::actions::Action;
use crate::model::{TransferDirection, TransferJob, TransferStatus};
use crate::queue::{QueueView, start_next_spec, with_status};
use crate::reducer::{cancelled_marked, pending_cleared, reduce, reduce_spec, status_set, error_shown};
use crate::drain::should_spawn;
use crate::state::{AppState, AppView};
use crate::text::{concat2, concat3, decimal};

verus! {

/// How a transfer direction is shown.
pub open spec fn direction_label(d: TransferDirection) -> Seq<char> {
    match d {
        TransferDirection::Upload => "Upload"@,
        TransferDirection::Download => "Download"@,
    }
}

/// The state after the oldest pending job is taken for a worker (reported
/// as being processed), and that job; nothing changes when none is pending.
pub open spec fn job_taken(s: AppView) -> (AppView, Option<TransferJob>) {
    let (q, r) = start_next_spec(s.queue);
    match r {
        Some(job) => (
            AppView {
                queue: q,
                status: "Processing "@ + direction_label(job.direction) + ": "@ + job.remote_path@,
                ..s
            },
            Some(job),
        ),
        None => (s, None),
    }
}

/// Takes the oldest pending job for a worker.
pub fn take_next_job(app: &mut AppState) -> (r: Option<TransferJob>)
    ensures
        (final(app)@, r) == job_taken(old(app)@),
{
    match app.queue.start_next() {
        Some(job) => {
            let label = match job.direction {
                TransferDirection::Upload => "Upload",
                TransferDirection::Download => "Download",
            };
            let head = concat3("Processing ", label, ": ");
            app.status = concat2(head.as_str(), job.remote_path.as_str());
            Some(job)
        },
        None => None,
    }
}

/// Whether another worker may start with at most `max` at once: connected,
/// no cancel requested, fewer than `max` active, and a job pending.
pub open spec fn may_spawn(s: AppView, max: usize) -> bool {
    s.connected && !s.worker_cancel_requested && s.worker_active_count < max && s.queue.pending.len() > 0
}

/// The state with one more worker counted as running.
pub open spec fn worker_counted(s: AppView) -> AppView {
    AppView { worker_active_count: (s.worker_active_count + 1) as usize, worker_running: true, ..s }
}

/// Jobs handed to workers while another may start, oldest first: each is
/// taken from the queue (see [`job_taken`]) and its worker counted.
pub open spec fn workers_spawned(s: AppView, max: usize) -> (AppView, Seq<TransferJob>)
    decreases s.queue.pending.len(),
{
    if may_spawn(s, max) {
        let (s1, j) = job_taken(s);
        let (s2, js) = workers_spawned(worker_counted(s1), max);
        (s2, seq![j->0] + js)
    } else {
        (s, Seq::empty())
    }
}

fn count_worker(app: &mut AppState)
    requires
        old(app).worker_active_count < usize::MAX,
    ensures
        final(app)@ == worker_counted(old(app)@),
{
    app.worker_active_count = app.worker_active_count + 1;
    app.worker_running = true;
}

/// Takes pending jobs for workers while another may start (see
/// [`workers_spawned`]); the caller runs each returned job.
pub fn spawn_pending_workers(app: &mut AppState, max: usize) -> (r: Vec<TransferJob>)
    ensures
        (final(app)@, r@) == workers_spawned(old(app)@, max),
{
    let ghost s0 = app@;
    let mut out: Vec<TransferJob> = Vec::new();
    while should_spawn(app.connected, app.worker_cancel_requested, app.worker_active_count, max, app.queue.pending.len())
        invariant
            workers_spawned(s0, max) == (workers_spawned(app@, max).0, out@ + workers_spawned(app@, max).1),
        decreases app@.queue.pending.len(),
    {
        let ghost before = app@;
        let taken = take_next_job(app);
        match taken {
            Some(job) => {
                count_worker(app);
                proof {
                    let rest = workers_spawned(app@, max).1;
                    assert(out@.push(job) + rest =~= out@ + (seq![job] + rest));
                }
                out.push(job);
            },
            None => {
                proof {
                    assert(false);
                }
            },
        }
    }
    proof {
        assert(out@ + Seq::<TransferJob>::empty() =~= out@);
    }
    out
}

/// `j` is `job` with its error text set to `e` (cleared when `e` is `None`).
pub open spec fn with_error(j: TransferJob, job: TransferJob, e: Option<Seq<char>>) -> bool {
    &&& TransferJob { last_error: j.last_error, ..job } == j
    &&& match (j.last_error, e) {
        (Some(x), Some(y)) => x@ == y,
        (None, None) => true,
        _ => false,
    }
}

/// How a worker's job ended: cancelled (by the worker or by a cancel
/// request), done, or failed with a message.
pub open spec fn was_cancelled_or(s: AppView, was_cancelled: bool) -> bool {
    s.worker_cancel_requested || was_cancelled
}

/// The error text a finished job is filed with.
pub open spec fn filed_error(s: AppView, outcome: Result<(), Seq<char>>, was_cancelled: bool) -> Option<Seq<char>> {
    if was_cancelled_or(s, was_cancelled) {
        Some("Cancelled by user"@)
    } else {
        match outcome {
            Ok(()) => None,
            Err(e) => Some(e),
        }
    }
}

/// The state after a worker reported on `j` (the job with its error text
/// set): cancelled jobs are filed as cancelled, finished ones as completed
/// with the direction reported, failed ones as failed with the error shown.
pub open spec fn transfer_filed(s: AppView, j: TransferJob, outcome: Result<(), Seq<char>>, was_cancelled: bool) -> AppView {
    if was_cancelled_or(s, was_cancelled) {
        reduce_spec(s, Action::MarkTransferCancelled(j))
    } else {
        match outcome {
            Ok(()) => status_set(
                reduce_spec(s, Action::MarkTransferCompleted(j)),
                match j.direction {
                    TransferDirection::Upload => "upload complete"@,
                    TransferDirection::Download => "download complete"@,
                },
            ),
            Err(e) => error_shown(reduce_spec(s, Action::MarkTransferFailed(j)), "Transfer failed: "@ + e),
        }
    }
}

/// A result with its error text as characters.
pub open spec fn outcome_view(o: Result<(), String>) -> Result<(), Seq<char>> {
    match o {
        Ok(()) => Ok(()),
        Err(e) => Err(e@),
    }
}

/// Files what a worker reported on `finished`. Returns whether the transfer
/// completed, in which case the listings are worth refreshing.
pub fn file_transfer_result(app: &mut AppState, finished: TransferJob, outcome: Result<(), String>, was_cancelled: bool) -> (r: bool)
    ensures
        r == (!was_cancelled_or(old(app)@, was_cancelled) && outcome is Ok),
        exists|j: TransferJob|
            #[trigger] with_error(j, finished, filed_error(old(app)@, outcome_view(outcome), was_cancelled))
                && final(app)@ == transfer_filed(old(app)@, j, outcome_view(outcome), was_cancelled),
{
    let ghost og = outcome;
    let ghost s0 = app@;
    let mut job = finished;
    if app.worker_cancel_requested || was_cancelled {
        job.last_error = Some(String::from_str("Cancelled by user"));
        let ghost j = job;
        reduce(app, Action::MarkTransferCancelled(job));
        assert(with_error(j, finished, filed_error(s0, outcome_view(og), was_cancelled)));
        return false;
    }
    match outcome {
        Ok(()) => {
            job.last_error = None;
            let text = match job.direction {
                TransferDirection::Upload => "upload complete",
                TransferDirection::Download => "download complete",
            };
            let ghost j = job;
            reduce(app, Action::MarkTransferCompleted(job));
            reduce(app, Action::SetStatus(String::from_str(text)));
            assert(with_error(j, finished, filed_error(s0, outcome_view(og), was_cancelled)));
            true
        },
        Err(err) => {
            let msg = concat2("Transfer failed: ", err.as_str());
            job.last_error = Some(err);
            let ghost j = job;
            reduce(app, Action::MarkTransferFailed(job));
            reduce(app, Action::ShowError(msg));
            assert(with_error(j, finished, filed_error(s0, outcome_view(og), was_cancelled)));
            false
        },
    }
}

/// Spawning never runs more workers than the limit: from a state within
/// it, the count of active workers stays within it; and no job is lost or
/// made up: those handed out and those still pending number as many as
/// were pending.
pub proof fn law_spawn_respects_limit(s: AppView, max: usize)
    requires
        s.worker_active_count <= max,
    ensures
        workers_spawned(s, max).0.worker_active_count <= max,
        workers_spawned(s, max).1.len() + workers_spawned(s, max).0.queue.pending.len() == s.queue.pending.len(),
    decreases s.queue.pending.len(),
{
    if may_spawn(s, max) {
        let (s1, j) = job_taken(s);
        law_spawn_respects_limit(worker_counted(s1), max);
    }
}

/// The jobs of `js` marked cancelled, in order.
pub open spec fn all_cancelled(js: Seq<TransferJob>) -> Seq<TransferJob> {
    js.map_values(|j: TransferJob| with_status(j, TransferStatus::Cancelled))
}

/// Every worker dropped: none counted, a cancel requested, the running
/// jobs filed as cancelled (in order), the pending ones cleared and their
/// number reported.
pub open spec fn workers_dropped(s: AppView) -> AppView {
    AppView {
        worker_active_count: 0,
        worker_running: false,
        worker_cancel_requested: true,
        queue: QueueView {
            pending: Seq::empty(),
            active: Seq::empty(),
            cancelled: s.queue.cancelled + all_cancelled(s.queue.active),
            ..s.queue
        },
        status: "Cleared "@ + decimal(s.queue.pending.len()) + " pending transfer(s)"@,
        ..s
    }
}

fn stop_workers(app: &mut AppState) -> (active: Vec<TransferJob>)
    ensures
        active@ == old(app)@.queue.active,
        final(app)@ == (AppView {
            worker_active_count: 0,
            worker_running: false,
            worker_cancel_requested: true,
            queue: QueueView { active: Seq::empty(), ..old(app)@.queue },
            ..old(app)@
        }),
{
    app.worker_active_count = 0;
    app.worker_running = false;
    app.worker_cancel_requested = true;
    let mut active: Vec<TransferJob> = Vec::new();
    std::mem::swap(&mut active, &mut app.queue.active);
    active
}

/// Drops every worker (see [`workers_dropped`]), as a disconnect or a new
/// connection does.
pub fn drop_workers(app: &mut AppState)
    ensures
        final(app)@ == workers_dropped(old(app)@),
{
    let mut active = stop_workers(app);
    let n = active.len();
    let ghost s1 = app@;
    let ghost orig = active@;
    let mut k: usize = 0;
    while active.len() > 0
        invariant
            k + active@.len() == orig.len(),
            orig.len() == n,
            active@ == orig.skip(k as int),
            s1.queue.active == Seq::<TransferJob>::empty(),
            app@ == (AppView {
                queue: QueueView { cancelled: s1.queue.cancelled + all_cancelled(orig.take(k as int)), ..s1.queue },
                status: app@.status,
                ..s1
            }),
        decreases active@.len(),
    {
        let ghost before = app@;
        let job = active.remove(0);
        proof {
            assert(active@ =~= orig.skip(k + 1));
            assert(job == orig[k as int]);
        }
        reduce(app, Action::MarkTransferCancelled(job));
        proof {
            reveal(cancelled_marked);
            let pred = |j: TransferJob| j.id != job.id;
            assert(Seq::<TransferJob>::empty().filter(pred) =~= Seq::<TransferJob>::empty()) by {
                Seq::<TransferJob>::empty().lemma_filter_len(pred);
            }
            assert(orig.take(k + 1) =~= orig.take(k as int).push(orig[k as int]));
            assert(all_cancelled(orig.take(k + 1)) =~= all_cancelled(orig.take(k as int)).push(
                with_status(orig[k as int], TransferStatus::Cancelled),
            ));
            assert(s1.queue.cancelled + all_cancelled(orig.take(k + 1)) =~= (s1.queue.cancelled + all_cancelled(
                orig.take(k as int),
            )).push(with_status(job, TransferStatus::Cancelled)));
        }
        k = k + 1;
    }
    proof {
        assert(orig.take(orig.len() as int) =~= orig);
    }
    reduce(app, Action::ClearPendingTransfers);
    proof {
        reveal(pending_cleared);
    }
}

} // verus!
