//! Transfer queue: pending jobs run first-in first-out; finished jobs are
//! filed by outcome.
use vstd::prelude::*;
use crate::model::{TransferJob, TransferStatus};

verus! {

#[derive(Debug)]
pub struct TransferQueue {
    pub pending: Vec<TransferJob>,
    pub active: Vec<TransferJob>,
    pub completed: Vec<TransferJob>,
    pub failed: Vec<TransferJob>,
    pub cancelled: Vec<TransferJob>,
}

/// `job` with its status replaced.
pub open spec fn with_status(job: TransferJob, status: TransferStatus) -> TransferJob {
    TransferJob { status, ..job }
}

/// The jobs of `s` whose id is not `id`, in order.
pub open spec fn without_id(s: Seq<TransferJob>, id: u128) -> Seq<TransferJob> {
    s.filter(|j: TransferJob| j.id != id)
}

/// Index of the first job of `s` with id `id`, if any.
pub open spec fn first_with_id(s: Seq<TransferJob>, id: u128) -> Option<int> {
    if exists|k: int| 0 <= k < s.len() && s[k].id == id {
        Some(choose|k: int| 0 <= k < s.len() && s[k].id == id && forall|m: int| 0 <= m < k ==> s[m].id != id)
    } else {
        None
    }
}

/// The job a failed job becomes when it is retried.
pub open spec fn retried(job: TransferJob) -> TransferJob {
    TransferJob {
        retries: if job.retries < 255 {
            (job.retries + 1) as u8
        } else {
            255
        },
        status: TransferStatus::Pending,
        last_error: None,
        ..job
    }
}

/// `job` after a progress report.
pub open spec fn progressed(job: TransferJob, transferred: u64, size: Option<u64>) -> TransferJob {
    TransferJob {
        transferred_bytes: transferred,
        size_bytes: if size.is_some() {
            size
        } else {
            job.size_bytes
        },
        ..job
    }
}

/// The five lists of a queue.

pub struct QueueView {
    pub pending: Seq<TransferJob>,
    pub active: Seq<TransferJob>,
    pub completed: Seq<TransferJob>,
    pub failed: Seq<TransferJob>,
    pub cancelled: Seq<TransferJob>,
}

impl View for TransferQueue {
    type V = QueueView;

    open spec fn view(&self) -> QueueView {
        QueueView {
            pending: self.pending@,
            active: self.active@,
            completed: self.completed@,
            failed: self.failed@,
            cancelled: self.cancelled@,
        }
    }
}

impl QueueView {
    /// Number of jobs held in all five lists.
    pub open spec fn total(self) -> int {
        (self.pending.len() + self.active.len() + self.completed.len() + self.failed.len()
            + self.cancelled.len()) as int
    }
}

/// The queue after `enqueue(job)`.
pub open spec fn enqueue_spec(q: QueueView, job: TransferJob) -> QueueView {
    QueueView { pending: q.pending.push(with_status(job, TransferStatus::Pending)), ..q }
}

/// The queue and result after `start_next()`.
pub open spec fn start_next_spec(q: QueueView) -> (QueueView, Option<TransferJob>) {
    if q.pending.len() == 0 {
        (q, None)
    } else {
        let job = with_status(q.pending[0], TransferStatus::Active);
        (QueueView { pending: q.pending.drop_first(), active: q.active.push(job), ..q }, Some(job))
    }
}

/// The queue after `mark_completed(job)`.
pub open spec fn mark_completed_spec(q: QueueView, job: TransferJob) -> QueueView {
    QueueView {
        active: without_id(q.active, job.id),
        completed: q.completed.push(with_status(job, TransferStatus::Completed)),
        ..q
    }
}

/// The queue after `mark_failed(job)`.
pub open spec fn mark_failed_spec(q: QueueView, job: TransferJob) -> QueueView {
    QueueView {
        active: without_id(q.active, job.id),
        failed: q.failed.push(with_status(job, TransferStatus::Failed)),
        ..q
    }
}

/// The queue after `mark_cancelled(job)`.
pub open spec fn mark_cancelled_spec(q: QueueView, job: TransferJob) -> QueueView {
    QueueView {
        active: without_id(q.active, job.id),
        cancelled: q.cancelled.push(with_status(job, TransferStatus::Cancelled)),
        ..q
    }
}

/// The queue and result after `retry_last_failed()`.
pub open spec fn retry_spec(q: QueueView) -> (QueueView, Option<TransferJob>) {
    if q.failed.len() == 0 {
        (q, None)
    } else {
        let job = retried(q.failed.last());
        (QueueView { failed: q.failed.drop_last(), pending: q.pending.push(job), ..q }, Some(job))
    }
}

/// The queue after `update_active_progress(id, transferred, size)`.
pub open spec fn progress_spec(q: QueueView, id: u128, transferred: u64, size: Option<u64>) -> QueueView {
    match first_with_id(q.active, id) {
        Some(k) => QueueView { active: q.active.update(k, progressed(q.active[k], transferred, size)), ..q },
        None => q,
    }
}

/// The queue and result after `clear_pending()`.
pub open spec fn clear_pending_spec(q: QueueView) -> (QueueView, nat) {
    (QueueView { pending: Seq::empty(), ..q }, q.pending.len())
}

/// The queue with all five lists empty.
pub open spec fn empty_queue() -> QueueView {
    QueueView {
        pending: Seq::empty(),
        active: Seq::empty(),
        completed: Seq::empty(),
        failed: Seq::empty(),
        cancelled: Seq::empty(),
    }
}

impl Default for TransferQueue {
    /// An empty queue.
    fn default() -> (r: Self)
        ensures
            r@ == empty_queue(),
    {
        TransferQueue {
            pending: Vec::new(),
            active: Vec::new(),
            completed: Vec::new(),
            failed: Vec::new(),
            cancelled: Vec::new(),
        }
    }
}

impl TransferQueue {

    /// Appends `job` to the pending list, marked pending.
    pub fn enqueue(&mut self, job: TransferJob)
        ensures
            final(self)@ == enqueue_spec(old(self)@, job),
    {
        let mut job = job;
        job.status = TransferStatus::Pending;
        self.pending.push(job);
    }

    /// Moves the oldest pending job to the active list and returns it.
    pub fn start_next(&mut self) -> (r: Option<TransferJob>)
        ensures
            (final(self)@, r) == start_next_spec(old(self)@),
    {
        if self.pending.len() == 0 {
            return None;
        }
        let mut job = self.pending.remove(0);
        job.status = TransferStatus::Active;
        let copy = job.snapshot();
        self.active.push(job);
        proof {
            assert(self.pending@ =~= old(self).pending@.drop_first());
        }
        Some(copy)
    }

    /// Removes every active job with `id` from the active list.
    fn drop_active(&mut self, id: u128)
        ensures
            final(self)@ == (QueueView { active: without_id(old(self)@.active, id), ..old(self)@ }),
    {
        let mut kept: Vec<TransferJob> = Vec::new();
        let mut old_active: Vec<TransferJob> = Vec::new();
        std::mem::swap(&mut old_active, &mut self.active);
        let ghost pred = |j: TransferJob| j.id != id;
        let mut i: usize = 0;
        while i < old_active.len()
            invariant
                i <= old_active@.len(),
                pred == (|j: TransferJob| j.id != id),
                kept@ == old_active@.take(i as int).filter(pred),
            decreases old_active@.len() - i,
        {
            proof {
                assert(old_active@.take(i + 1) =~= old_active@.take(i as int).push(
                    old_active@[i as int],
                ));
                old_active@.take(i as int).lemma_filter_push(old_active@[i as int], pred);
            }
            if old_active[i].id != id {
                let c = old_active[i].snapshot();
                kept.push(c);
                assert(pred(old_active@[i as int]));
            } else {
                assert(!pred(old_active@[i as int]));
            }
            i = i + 1;
        }
        proof {
            assert(old_active@.take(old_active@.len() as int) =~= old_active@);
        }
        self.active = kept;
    }

    /// Files `job` as completed and drops it from the active list.
    pub fn mark_completed(&mut self, job: TransferJob)
        ensures
            final(self)@ == mark_completed_spec(old(self)@, job),
    {
        let mut job = job;
        job.status = TransferStatus::Completed;
        self.drop_active(job.id);
        self.completed.push(job);
    }

    /// Files `job` as failed and drops it from the active list.
    pub fn mark_failed(&mut self, job: TransferJob)
        ensures
            final(self)@ == mark_failed_spec(old(self)@, job),
    {
        let mut job = job;
        job.status = TransferStatus::Failed;
        self.drop_active(job.id);
        self.failed.push(job);
    }

    /// Files `job` as cancelled and drops it from the active list.
    pub fn mark_cancelled(&mut self, job: TransferJob)
        ensures
            final(self)@ == mark_cancelled_spec(old(self)@, job),
    {
        let mut job = job;
        job.status = TransferStatus::Cancelled;
        self.drop_active(job.id);
        self.cancelled.push(job);
    }

    /// Requeues the most recently failed job with one more retry.
    pub fn retry_last_failed(&mut self) -> (r: Option<TransferJob>)
        ensures
            (final(self)@, r) == retry_spec(old(self)@),
    {
        let mut job = match self.failed.pop() {
            Some(j) => j,
            None => return None,
        };
        job.retries = if job.retries < 255 {
            job.retries + 1
        } else {
            255
        };
        job.status = TransferStatus::Pending;
        job.last_error = None;
        let copy = job.snapshot();
        self.pending.push(job);
        Some(copy)
    }

    /// Records progress on the first active job with `job_id`; unknown ids change nothing.
    pub fn update_active_progress(&mut self, job_id: u128, transferred: u64, size: Option<u64>)
        ensures
            final(self)@ == progress_spec(old(self)@, job_id, transferred, size),
    {
        let mut i: usize = 0;
        while i < self.active.len()
            invariant
                i <= self.active@.len(),
                self@ == old(self)@,
                forall|m: int| 0 <= m < i ==> self.active@[m].id != job_id,
            decreases self.active@.len() - i,
        {
            if self.active[i].id == job_id {
                let mut job = self.active[i].snapshot();
                job.transferred_bytes = transferred;
                if size.is_some() {
                    job.size_bytes = size;
                }
                self.active.set(i, job);
                proof {
                    assert(0 <= i < old(self).active@.len() && old(self).active@[i as int].id
                        == job_id);
                    let c = choose|k: int|
                        0 <= k < old(self).active@.len() && old(self).active@[k].id == job_id
                            && forall|m: int| 0 <= m < k ==> old(self).active@[m].id != job_id;
                    assert(c == i) by {
                        if c < i {
                        } else if c > i {
                        }
                    }
                }
                return;
            }
            i = i + 1;
        }
    }

    /// Drops every pending job and returns how many there were.
    pub fn clear_pending(&mut self) -> (r: usize)
        ensures
            (final(self)@, r as nat) == clear_pending_spec(old(self)@),
    {
        let count = self.pending.len();
        self.pending.clear();
        proof {
            assert(self.pending@ =~= Seq::<TransferJob>::empty());
        }
        count
    }
}

/// Pending jobs start in the order they were enqueued: enqueueing `a` then `b`
/// on a queue with nothing pending starts `a` first and then `b`.
pub proof fn law_queue_is_fifo(q: QueueView, a: TransferJob, b: TransferJob)
    requires
        q.pending.len() == 0,
    ensures
        ({
            let q2 = enqueue_spec(enqueue_spec(q, a), b);
            let (q3, r1) = start_next_spec(q2);
            let (q4, r2) = start_next_spec(q3);
            &&& r1 == Some(with_status(a, TransferStatus::Active))
            &&& r2 == Some(with_status(b, TransferStatus::Active))
            &&& q4.pending.len() == 0
        }),
{
    let q2 = enqueue_spec(enqueue_spec(q, a), b);
    assert(q2.pending =~= seq![with_status(a, TransferStatus::Pending), with_status(b, TransferStatus::Pending)]);
    let (q3, r1) = start_next_spec(q2);
    assert(q3.pending =~= seq![with_status(b, TransferStatus::Pending)]);
}

/// Starting, retrying and clearing never create jobs; starting and retrying
/// move exactly one job and keep the total.
pub proof fn law_queue_moves_conserve_jobs(q: QueueView)
    ensures
        start_next_spec(q).0.total() == q.total(),
        retry_spec(q).0.total() == q.total(),
        clear_pending_spec(q).0.total() == q.total() - q.pending.len(),
        clear_pending_spec(q).1 == q.pending.len(),
{
}

/// Finishing a job that is active exactly once removes it from the active
/// list and files it, so the total is unchanged; every other list except the
/// destination is untouched, in particular pending work is never dropped.
pub proof fn law_finishing_conserves_jobs(q: QueueView, job: TransferJob)
    requires
        exists|k: int| 0 <= k < q.active.len() && q.active[k].id == job.id,
        forall|k: int, m: int|
            0 <= k < q.active.len() && 0 <= m < q.active.len() && q.active[k].id == job.id
                && q.active[m].id == job.id ==> k == m,
    ensures
        mark_completed_spec(q, job).total() == q.total(),
        mark_failed_spec(q, job).total() == q.total(),
        mark_cancelled_spec(q, job).total() == q.total(),
        mark_cancelled_spec(q, job).pending == q.pending,
        mark_failed_spec(q, job).pending == q.pending,
        mark_completed_spec(q, job).pending == q.pending,
{
    let k = choose|k: int| 0 <= k < q.active.len() && q.active[k].id == job.id;
    lemma_without_id_drops_one(q.active, job.id, k);
}

/// Filtering out an id that occurs exactly once (at `k`) shortens the list by one.
proof fn lemma_without_id_drops_one(s: Seq<TransferJob>, id: u128, k: int)
    requires
        0 <= k < s.len(),
        s[k].id == id,
        forall|a: int, b: int|
            0 <= a < s.len() && 0 <= b < s.len() && s[a].id == id && s[b].id == id ==> a == b,
    ensures
        without_id(s, id).len() == s.len() - 1,
    decreases s.len(),
{
    let pred = |j: TransferJob| j.id != id;
    let init = s.drop_last();
    assert(s =~= init.push(s.last()));
    init.lemma_filter_push(s.last(), pred);
    if k == s.len() - 1 {
        lemma_without_id_absent(init, id);
    } else {
        lemma_without_id_drops_one(init, id, k);
    }
}

/// Filtering out an id that does not occur keeps every job.
proof fn lemma_without_id_absent(s: Seq<TransferJob>, id: u128)
    requires
        forall|a: int| 0 <= a < s.len() ==> s[a].id != id,
    ensures
        without_id(s, id) == s,
    decreases s.len(),
{
    let pred = |j: TransferJob| j.id != id;
    if s.len() > 0 {
        let init = s.drop_last();
        assert(s =~= init.push(s.last()));
        init.lemma_filter_push(s.last(), pred);
        lemma_without_id_absent(init, id);
    } else {
        assert(s.filter(pred) =~= s);
    }
}

/// Retrying takes back the job that failed last: after `job` fails, a
/// retry returns that same job (pending again, one retry more up to 255,
/// its error cleared) at the end of the pending jobs, and the failed jobs
/// are those from before. In general the most recent failure is the one
/// retried and the others stay, in order.
pub proof fn law_retry_takes_last_failure(q: QueueView, job: TransferJob)
    ensures
        ({
            let (q2, r) = retry_spec(mark_failed_spec(q, job));
            &&& r matches Some(j) && j.id == job.id && j.local_path == job.local_path && j.remote_path
                == job.remote_path && j.direction == job.direction && j.status == TransferStatus::Pending
                && j.last_error is None && j.retries == (if job.retries < 255 {
                job.retries + 1
            } else {
                255
            })
            &&& q2.failed == q.failed
            &&& q2.pending == q.pending.push(r->0)
        }),
        q.failed.len() > 0 ==> (retry_spec(q).1 matches Some(j) && j.id == q.failed[q.failed.len() - 1].id
            && retry_spec(q).0.failed == q.failed.subrange(0, q.failed.len() - 1)),
        q.failed.len() == 0 ==> retry_spec(q) == (q, None::<TransferJob>),
{
    let q1 = mark_failed_spec(q, job);
    assert(q1.failed.drop_last() =~= q.failed);
}

} // verus!
