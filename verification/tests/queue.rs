use dd_ftp::model::{TransferDirection, TransferJob, TransferStatus};
use dd_ftp::queue::TransferQueue;

fn job(name: &str) -> TransferJob {
    let id = name.bytes().fold(7u128, |h, b| h * 131 + b as u128);
    TransferJob::new(id, &format!("/tmp/{name}"), &format!("/pub/{name}"), TransferDirection::Upload)
}

#[test]
fn enqueue_adds_pending() {
    let mut q = TransferQueue::default();
    q.enqueue(job("a"));
    q.enqueue(job("b"));
    assert_eq!(q.pending.len(), 2);
    assert_eq!(q.pending[0].status, TransferStatus::Pending);
    assert_eq!(q.pending[1].remote_path, "/pub/b");
}

#[test]
fn start_next_is_fifo() {
    let mut q = TransferQueue::default();
    q.enqueue(job("first"));
    q.enqueue(job("second"));
    let a = q.start_next().expect("first");
    assert_eq!(a.remote_path, "/pub/first");
    assert_eq!(a.status, TransferStatus::Active);
    assert_eq!(q.pending.len(), 1);
    assert_eq!(q.active.len(), 1);
    let b = q.start_next().expect("second");
    assert_eq!(b.remote_path, "/pub/second");
    assert!(q.pending.is_empty());
    assert_eq!(q.active.len(), 2);
}

#[test]
fn mark_completed_failed_cancelled() {
    let mut q = TransferQueue::default();
    q.enqueue(job("ok"));
    q.enqueue(job("fail"));
    q.enqueue(job("cancel"));
    let ok = q.start_next().unwrap();
    let fail = q.start_next().unwrap();
    let cancel = q.start_next().unwrap();
    q.mark_completed(ok);
    q.mark_failed(fail);
    q.mark_cancelled(cancel);
    assert!(q.active.is_empty());
    assert_eq!(q.completed.len(), 1);
    assert_eq!(q.completed[0].status, TransferStatus::Completed);
    assert_eq!(q.failed.len(), 1);
    assert_eq!(q.failed[0].status, TransferStatus::Failed);
    assert_eq!(q.cancelled.len(), 1);
    assert_eq!(q.cancelled[0].status, TransferStatus::Cancelled);
}

#[test]
fn retry_last_failed_increments_retries() {
    let mut q = TransferQueue::default();
    let mut j = job("a");
    j.retries = 0;
    q.mark_failed(j);
    let retried = q.retry_last_failed().expect("retry");
    assert_eq!(retried.retries, 1);
    assert_eq!(retried.status, TransferStatus::Pending);
    assert_eq!(q.pending.len(), 1);
    assert!(q.failed.is_empty());
}

#[test]
fn clear_pending_returns_count() {
    let mut q = TransferQueue::default();
    q.enqueue(job("a"));
    q.enqueue(job("b"));
    q.enqueue(job("c"));
    assert_eq!(q.clear_pending(), 3);
    assert!(q.pending.is_empty());
    assert_eq!(q.clear_pending(), 0);
}

#[test]
fn update_active_progress_ignores_unknown_ids() {
    let mut q = TransferQueue::default();
    q.enqueue(job("a"));
    let started = q.start_next().unwrap();
    q.update_active_progress(0, 99, Some(100));
    assert_eq!(q.active[0].transferred_bytes, 0);
    q.update_active_progress(started.id, 10, Some(20));
    assert_eq!(q.active[0].transferred_bytes, 10);
    assert_eq!(q.active[0].size_bytes, Some(20));
    q.update_active_progress(started.id, 15, None);
    assert_eq!(q.active[0].transferred_bytes, 15);
    assert_eq!(q.active[0].size_bytes, Some(20));
}

#[test]
fn cancel_does_not_drop_pending() {
    let mut q = TransferQueue::default();
    q.enqueue(job("active"));
    q.enqueue(job("keep"));
    let active = q.start_next().unwrap();
    assert_eq!(active.remote_path, "/pub/active");
    assert_eq!(q.pending.len(), 1);
    q.mark_cancelled(active);
    assert_eq!(q.pending.len(), 1);
    assert_eq!(q.pending[0].remote_path, "/pub/keep");
    assert_eq!(q.cancelled.len(), 1);
}

#[test]
fn retries_saturate_at_255() {
    let mut q = TransferQueue::default();
    let mut j = job("a");
    j.retries = 255;
    q.mark_failed(j);
    assert_eq!(q.retry_last_failed().unwrap().retries, 255);
}

#[test]
fn new_jobs_take_the_given_id_and_the_clock() {
    let a = TransferJob::new(5, "/tmp/x", "/pub/x", TransferDirection::Upload);
    assert_eq!(a.id, 5);
    assert!(a.created_at.secs > 1_600_000_000);
    assert!(a.created_at.nanos < 1_000_000_000);
    assert_eq!(a.status, TransferStatus::Pending);
    assert_eq!(a.transferred_bytes, 0);
    assert_eq!(a.created_at, a.updated_at);
    assert_eq!(a.local_path, "/tmp/x");
}
