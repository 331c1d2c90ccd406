use dd_ftp::model::{TransferDirection, TransferJob, TransferStatus};
use dd_ftp::state::AppState;
use dd_ftp::worker::{drop_workers, file_transfer_result, spawn_pending_workers, take_next_job};

fn app_with_job(direction: TransferDirection) -> AppState {
    let mut app = AppState::default();
    app.queue.enqueue(TransferJob::new(1, "/l/a.txt", "/r/a.txt", direction));
    app
}

#[test]
fn take_next_job_activates_the_oldest_and_reports_it() {
    let mut app = app_with_job(TransferDirection::Upload);
    let job = take_next_job(&mut app).unwrap();
    assert_eq!(job.status, TransferStatus::Active);
    assert_eq!(app.queue.active.len(), 1);
    assert!(app.queue.pending.is_empty());
    assert_eq!(app.status, "Processing Upload: /r/a.txt");
    assert!(take_next_job(&mut app).is_none());
}

#[test]
fn finished_transfer_is_completed_and_reported() {
    let mut app = app_with_job(TransferDirection::Download);
    let job = take_next_job(&mut app).unwrap();
    assert!(file_transfer_result(&mut app, job, Ok(()), false));
    assert_eq!(app.queue.completed.len(), 1);
    assert!(app.queue.active.is_empty());
    assert_eq!(app.queue.completed[0].last_error, None);
    assert_eq!(app.status, "download complete");
}

#[test]
fn failed_transfer_is_filed_with_its_error() {
    let mut app = app_with_job(TransferDirection::Upload);
    let job = take_next_job(&mut app).unwrap();
    assert!(!file_transfer_result(&mut app, job, Err("boom".to_string()), false));
    assert_eq!(app.queue.failed.len(), 1);
    assert_eq!(app.queue.failed[0].last_error.as_deref(), Some("boom"));
    assert_eq!(app.status, "Error: Transfer failed: boom");
}

#[test]
fn cancelled_transfer_is_filed_as_cancelled() {
    let mut app = app_with_job(TransferDirection::Upload);
    let job = take_next_job(&mut app).unwrap();
    app.worker_cancel_requested = true;
    assert!(!file_transfer_result(&mut app, job, Ok(()), false));
    assert_eq!(app.queue.cancelled.len(), 1);
    assert_eq!(app.queue.cancelled[0].last_error.as_deref(), Some("Cancelled by user"));
}

#[test]
fn spawning_takes_oldest_jobs_up_to_the_limit() {
    let mut app = AppState::default();
    app.connected = true;
    app.queue.enqueue(TransferJob::new(2, "/l/a", "/r/a", TransferDirection::Upload));
    app.queue.enqueue(TransferJob::new(3, "/l/b", "/r/b", TransferDirection::Download));
    app.queue.enqueue(TransferJob::new(4, "/l/c", "/r/c", TransferDirection::Upload));
    let jobs = spawn_pending_workers(&mut app, 2);
    assert_eq!(jobs.len(), 2);
    assert_eq!(jobs[0].remote_path, "/r/a");
    assert_eq!(jobs[1].remote_path, "/r/b");
    assert_eq!(jobs[1].status, TransferStatus::Active);
    assert_eq!(app.worker_active_count, 2);
    assert!(app.worker_running);
    assert_eq!(app.queue.pending.len(), 1);
    assert_eq!(app.queue.active.len(), 2);
    assert_eq!(app.status, "Processing Download: /r/b");
    assert!(spawn_pending_workers(&mut app, 2).is_empty());
}

#[test]
fn spawning_waits_for_connection_and_cancel() {
    let mut app = AppState::default();
    app.queue.enqueue(TransferJob::new(5, "/l/a", "/r/a", TransferDirection::Upload));
    assert!(spawn_pending_workers(&mut app, 4).is_empty());
    app.connected = true;
    app.worker_cancel_requested = true;
    assert!(spawn_pending_workers(&mut app, 4).is_empty());
    assert_eq!(app.worker_active_count, 0);
    app.worker_cancel_requested = false;
    assert_eq!(spawn_pending_workers(&mut app, 4).len(), 1);
}

#[test]
fn dropping_workers_files_running_jobs_as_cancelled() {
    let mut app = AppState::default();
    app.connected = true;
    app.queue.enqueue(TransferJob::new(6, "/l/a", "/r/a", TransferDirection::Upload));
    app.queue.enqueue(TransferJob::new(7, "/l/b", "/r/b", TransferDirection::Upload));
    app.queue.enqueue(TransferJob::new(8, "/l/c", "/r/c", TransferDirection::Upload));
    let jobs = spawn_pending_workers(&mut app, 2);
    assert_eq!(jobs.len(), 2);
    drop_workers(&mut app);
    assert_eq!(app.worker_active_count, 0);
    assert!(!app.worker_running);
    assert!(app.worker_cancel_requested);
    assert!(app.queue.active.is_empty());
    assert!(app.queue.pending.is_empty());
    assert_eq!(app.queue.cancelled.len(), 2);
    assert_eq!(app.queue.cancelled[0].remote_path, "/r/a");
    assert_eq!(app.queue.cancelled[1].status, TransferStatus::Cancelled);
    assert_eq!(app.status, "Cleared 1 pending transfer(s)");
}
