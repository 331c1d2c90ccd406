use dd_ftp::actions::Action;
use dd_ftp::batch::IoWork;
use dd_ftp::drain::{
    accept_worker_msg, apply_scan_item, drain_mkdir_outcome, drain_step, enqueue_pending_file,
    is_already_exists_error, pending_from_entry, resolve_conflict, should_spawn, DrainEvent,
    DrainOrder, DrainQueue, DrainStep, OpError, OverwriteChoice,
};
use dd_ftp::model::{EntryKind, FileEntry, TransferDirection, TransferJob};
use dd_ftp::paths::remote_mkdir_chain;
use dd_ftp::reducer::reduce;
use dd_ftp::state::{AppState, OverwritePolicy, PendingFile, PromptKind, TextPromptKind};

fn pending_upload(local: &str, remote: &str) -> PendingFile {
    PendingFile {
        local_path: local.to_string(),
        remote_path: remote.to_string(),
        direction: TransferDirection::Upload,
        size_bytes: Some(1),
    }
}

fn pending_download(local: &str, remote: &str) -> PendingFile {
    PendingFile {
        local_path: local.to_string(),
        remote_path: remote.to_string(),
        direction: TransferDirection::Download,
        size_bytes: Some(1),
    }
}

fn err(msg: &str) -> OpError {
    OpError { already_exists: false, message: msg.to_string() }
}

#[test]
fn scan_item_only_appends_to_pending_scan() {
    let mut pending = Vec::new();
    let app = AppState::default();
    let file = pending_upload("/tmp/a/b/c.txt", "/pub/a/b/c.txt");
    apply_scan_item(&mut pending, file);
    assert_eq!(pending.len(), 1);
    assert_eq!(pending[0].remote_path, "/pub/a/b/c.txt");
    assert!(app.queue.pending.is_empty(), "ScanItem must not enqueue; queue.pending={}", app.queue.pending.len());
}

#[test]
fn nested_upload_drain_waits_for_mkdir_before_enqueue() {
    let file = pending_upload("/tmp/a/b/c.txt", "/pub/a/b/c.txt");
    assert_eq!(
        drain_step(&file, DrainEvent::BeginUpload, OverwritePolicy::Ask),
        DrainStep::ListParent("/pub/a/b".into())
    );
    assert_eq!(
        drain_step(&file, DrainEvent::UploadParentMissing, OverwritePolicy::Ask),
        DrainStep::CreateParents
    );
    let chain = remote_mkdir_chain("/pub", "/pub/a/b").expect("chain");
    assert_eq!(chain, vec!["/pub/a".to_string(), "/pub/a/b".to_string()]);
    assert_eq!(
        drain_step(&file, DrainEvent::UploadParentsCreated, OverwritePolicy::Ask),
        DrainStep::Enqueue
    );
    assert!(matches!(
        drain_step(&file, DrainEvent::UploadList { dest_exists: false }, OverwritePolicy::Ask),
        DrainStep::Enqueue
    ));
}

#[test]
fn overwrite_default_skip_and_overwrite_all_remaining() {
    let file = pending_upload("/tmp/a.txt", "/pub/a.txt");
    assert_eq!(resolve_conflict(true, OverwritePolicy::Ask), DrainStep::Prompt);
    assert_eq!(
        drain_step(&file, DrainEvent::UploadList { dest_exists: true }, OverwritePolicy::Ask),
        DrainStep::Prompt
    );
    assert_eq!(
        drain_step(&file, DrainEvent::UploadList { dest_exists: true }, OverwritePolicy::OverwriteAll),
        DrainStep::Enqueue
    );
    assert_eq!(
        drain_step(&file, DrainEvent::UploadList { dest_exists: true }, OverwritePolicy::SkipAll),
        DrainStep::Skip
    );
    assert_eq!(
        drain_step(&file, DrainEvent::UploadList { dest_exists: false }, OverwritePolicy::SkipAll),
        DrainStep::Enqueue
    );
}

#[test]
fn overwrite_esc_does_not_clear_queued_jobs() {
    let mut app = AppState::default();
    reduce(
        &mut app,
        Action::QueueTransfer(TransferJob::new(1, "/tmp/kept", "/pub/kept", TransferDirection::Upload)),
    );
    let mut drain = DrainQueue::new();
    drain.pending_scan.push(pending_upload("/tmp/conflict", "/pub/conflict"));
    let order = drain.apply_overwrite_choice(OverwriteChoice::Abort);
    assert!(matches!(order, DrainOrder::Wait));
    reduce(&mut app, Action::CancelPrompt);
    assert!(drain.pending_scan.is_empty());
    assert_eq!(app.queue.pending.len(), 1);
    assert_eq!(app.queue.pending[0].remote_path, "/pub/kept");
}

#[test]
fn already_exists_mkdir_is_success_and_does_not_drop_file() {
    assert!(is_already_exists_error(&err("failed to create remote directory: File exists")));
    assert!(is_already_exists_error(&err("550 Directory already exists")));
    assert!(!is_already_exists_error(&err("permission denied")));
    assert!(drain_mkdir_outcome(Err(err("File exists"))).is_ok());
    assert!(drain_mkdir_outcome(Err(err("permission denied"))).is_err());

    let mut app = AppState::default();
    let mut drain = DrainQueue::new();
    drain.pending_scan.push(pending_upload("/tmp/a/b/c.txt", "/pub/a/b/c.txt"));
    drain.mkdir_queue.push("/pub/a/b".into());
    match drain.handle_drain_mkdir_result(Err(err("File exists"))) {
        DrainOrder::Enqueue(file) => enqueue_pending_file(&mut app, file, 11),
        other => panic!("expected the file to be queued, got {other:?}"),
    }
    assert!(drain.pending_scan.is_empty(), "exists is success: file is enqueued, not dropped");
    assert_eq!(app.queue.pending.len(), 1);
    assert_eq!(app.queue.pending[0].remote_path, "/pub/a/b/c.txt");
}

#[test]
fn unsafe_overwrite_rename_keeps_file_and_prompt() {
    let app = AppState {
        connected: true,
        local_cwd: "/tmp".into(),
        remote_cwd: "/pub".into(),
        show_prompt: true,
        prompt_kind: Some(PromptKind::Text(TextPromptKind::OverwriteRename)),
        ..Default::default()
    };
    let mut drain = DrainQueue::new();
    drain.pending_scan.push(pending_upload("/tmp/a.txt", "/pub/a.txt"));
    assert!(!drain.apply_overwrite_rename("..", app.local_cwd.as_str()));
    assert_eq!(drain.pending_scan.len(), 1);
    assert_eq!(drain.pending_scan[0].remote_path, "/pub/a.txt");
    assert!(app.show_prompt);
    assert_eq!(app.prompt_kind, Some(PromptKind::Text(TextPromptKind::OverwriteRename)));
}

#[test]
fn should_spawn_false_when_cancel_requested() {
    assert!(!should_spawn(true, true, 0, 2, 3));
}

#[test]
fn should_spawn_true_when_idle_with_pending() {
    assert!(should_spawn(true, false, 0, 2, 3));
}

#[test]
fn accept_worker_msg_same_generation() {
    assert!(accept_worker_msg(4, 4));
    assert!(!accept_worker_msg(5, 4));
}

#[test]
fn drain_enqueue_does_not_clear_worker_cancel_requested() {
    let mut app = AppState {
        worker_cancel_requested: true,
        ..Default::default()
    };
    enqueue_pending_file(&mut app, pending_upload("/tmp/a.txt", "/pub/a.txt"), 12);
    assert!(app.worker_cancel_requested, "drain enqueue must not resume spawn");
    assert_eq!(app.queue.pending.len(), 1);
    assert_eq!(app.queue.pending[0].remote_path, "/pub/a.txt");
    assert_eq!(app.status, "Queue: 1 pending");
}

#[test]
fn upload_drain_lists_then_creates_parents_in_order() {
    let mut drain = DrainQueue::new();
    drain.pending_scan.push(pending_upload("/tmp/a/b/c.txt", "/pub/a/b/c.txt"));
    match drain.drain_scan_next(false) {
        DrainOrder::ListParent(p) => assert_eq!(p, "/pub/a/b"),
        other => panic!("{other:?}"),
    }
    match drain.handle_drain_list_result(Err("no such folder".into()), "/pub") {
        DrainOrder::CreateFolder(p) => assert_eq!(p, "/pub/a"),
        other => panic!("{other:?}"),
    }
    match drain.handle_drain_mkdir_result(Ok(())) {
        DrainOrder::CreateFolder(p) => assert_eq!(p, "/pub/a/b"),
        other => panic!("{other:?}"),
    }
    assert_eq!(drain.pending_scan.len(), 1);
    match drain.handle_drain_mkdir_result(Ok(())) {
        DrainOrder::Enqueue(f) => assert_eq!(f.remote_path, "/pub/a/b/c.txt"),
        other => panic!("{other:?}"),
    }
    assert!(matches!(drain.drain_scan_next(false), DrainOrder::Finished));
}

#[test]
fn listing_decides_conflicts_and_failures() {
    let mut drain = DrainQueue::new();
    drain.pending_scan.push(pending_upload("/tmp/a.txt", "/pub/a.txt"));
    drain.pending_scan.push(pending_upload("/tmp/b.txt", "/pub/b.txt"));
    assert!(matches!(
        drain.handle_drain_list_result(Ok(vec!["a.txt".into()]), "/pub"),
        DrainOrder::Prompt
    ));
    match drain.apply_overwrite_choice(OverwriteChoice::SkipAll) {
        DrainOrder::Next => {}
        other => panic!("{other:?}"),
    }
    assert_eq!(drain.overwrite_policy, OverwritePolicy::SkipAll);
    assert!(matches!(
        drain.handle_drain_list_result(Ok(vec!["b.txt".into()]), "/pub"),
        DrainOrder::Next
    ));
    assert!(drain.pending_scan.is_empty());
    drain.pending_scan.push(pending_upload("/tmp/c.txt", "/pub/c.txt"));
    match drain.handle_drain_list_result(Err("timeout".into()), "/pub") {
        DrainOrder::Fail(m) => assert_eq!(m, "Remote list failed: timeout"),
        other => panic!("{other:?}"),
    }
    assert!(drain.pending_scan.is_empty());
}

#[test]
fn failed_folder_creation_drops_the_file() {
    let mut drain = DrainQueue::new();
    drain.pending_scan.push(pending_upload("/tmp/a/c.txt", "/pub/a/c.txt"));
    drain.mkdir_queue.push("/pub/a".into());
    match drain.handle_drain_mkdir_result(Err(err("permission denied"))) {
        DrainOrder::Fail(m) => assert_eq!(m, "Create folder failed: permission denied"),
        other => panic!("{other:?}"),
    }
    assert!(drain.pending_scan.is_empty());
    assert!(drain.mkdir_queue.is_empty());
    assert!(is_already_exists_error(&OpError { already_exists: true, message: "x".into() }));
}

#[test]
fn download_drain_checks_local_destination() {
    let mut drain = DrainQueue::new();
    drain.pending_scan.push(pending_download("/tmp/x.bin", "/pub/x.bin"));
    assert!(matches!(drain.drain_scan_next(true), DrainOrder::Prompt));
    assert_eq!(drain.rename_suggestion(), "x.bin");
    assert!(drain.apply_overwrite_rename("y.bin", "/tmp"));
    assert_eq!(drain.pending_scan[0].local_path, "/tmp/y.bin");
    match drain.apply_overwrite_choice(OverwriteChoice::Overwrite) {
        DrainOrder::Enqueue(f) => assert_eq!(f.local_path, "/tmp/y.bin"),
        other => panic!("{other:?}"),
    }
}

#[test]
fn pending_from_entry_joins_both_folders() {
    let app = AppState {
        local_cwd: "/home/u".into(),
        remote_cwd: "/pub".into(),
        ..Default::default()
    };
    let entry = FileEntry {
        name: "file.bin".into(),
        path: "-rw-r--r-- 1 user group 123 Jan 01 file.bin".into(),
        kind: EntryKind::File,
        size: 123,
        modified: None,
        permissions: None,
    };
    let p = pending_from_entry(&app, &entry, TransferDirection::Download).unwrap();
    assert_eq!(p.remote_path, "/pub/file.bin");
    assert_eq!(p.local_path, "/home/u/file.bin");
    assert_eq!(p.size_bytes, Some(123));
    let bad = FileEntry { name: "..".into(), ..entry };
    assert!(pending_from_entry(&app, &bad, TransferDirection::Upload).is_err());
}

#[test]
fn drain_scan_next_returns_while_cancel_requested() {
    let mut app = AppState {
        connected: true,
        worker_cancel_requested: true,
        ..Default::default()
    };
    let mut drain = DrainQueue::new();
    drain.pending_scan.push(pending_upload("/tmp/a.txt", "/pub/a.txt"));
    let order = drain.scan_next_unless_cancelled(&app, IoWork::Idle, false);
    assert!(matches!(order, DrainOrder::Wait));
    assert_eq!(drain.pending_scan.len(), 1);
    assert!(
        app.queue.pending.is_empty(),
        "cancel must not auto-enqueue the rest of a folder drain"
    );
    app.worker_cancel_requested = false;
    assert!(matches!(drain.scan_next_unless_cancelled(&app, IoWork::Idle, false), DrainOrder::ListParent(_)));
}

#[test]
fn park_pending_scan_parks_without_clearing_cancel_or_spawning() {
    let mut app = AppState {
        connected: true,
        worker_cancel_requested: true,
        ..Default::default()
    };
    let mut drain = DrainQueue::new();
    drain.pending_scan.push(pending_upload("/tmp/a.txt", "/pub/a.txt"));
    drain.pending_scan.push(pending_upload("/tmp/b.txt", "/pub/b.txt"));
    drain.mkdir_queue.push("/pub/a".to_string());
    drain.park_pending_scan(&mut app, &vec![21, 22]);
    assert!(drain.pending_scan.is_empty());
    assert!(drain.mkdir_queue.is_empty());
    assert_eq!(app.queue.pending.len(), 2);
    assert_eq!(app.queue.pending[0].remote_path, "/pub/a.txt");
    assert_eq!(app.queue.pending[1].remote_path, "/pub/b.txt");
    assert_eq!(app.queue.pending[0].id, 21);
    assert_eq!(app.queue.pending[1].id, 22);
    assert!(app.worker_cancel_requested);
    assert!(
        !should_spawn(
            app.connected,
            app.worker_cancel_requested,
            app.worker_active_count,
            app.worker_max_concurrency,
            app.queue.pending.len(),
        ),
        "parked drain files must not auto-start"
    );
}

#[test]
fn ctrl_c_cancel_requests_cancel_and_parks_waiting_files() {
    let mut app = AppState { connected: true, ..Default::default() };
    let mut drain = DrainQueue::new();
    drain.pending_scan.push(pending_upload("/tmp/a.txt", "/pub/a.txt"));
    drain.pending_scan.push(pending_upload("/tmp/b.txt", "/pub/b.txt"));
    drain.overwrite_policy = OverwritePolicy::OverwriteAll;
    drain.request_cancel(&mut app, &vec![5, 6]);
    assert!(app.worker_cancel_requested);
    assert!(drain.pending_scan.is_empty());
    assert_eq!(drain.overwrite_policy, OverwritePolicy::Ask);
    assert_eq!(app.queue.pending.len(), 2);
    assert_eq!(app.queue.pending[0].remote_path, "/pub/a.txt");
    assert_eq!(app.queue.pending[1].id, 6);
    assert_eq!(app.status, "Cancel requested for active transfers");

    let mut idle = AppState::default();
    DrainQueue::new().request_cancel(&mut idle, &Vec::new());
    assert!(idle.worker_cancel_requested);
    assert!(idle.queue.pending.is_empty());
}

#[test]
fn drain_waits_while_other_work_or_a_choice_prompt_is_up() {
    let mut app = AppState { connected: true, ..Default::default() };
    let mut drain = DrainQueue::new();
    drain.pending_scan.push(pending_upload("/tmp/a.txt", "/pub/a.txt"));
    assert!(matches!(drain.scan_next_unless_cancelled(&app, IoWork::Fs, false), DrainOrder::Wait));
    reduce(&mut app, Action::ShowChoicePrompt(dd_ftp::state::ChoicePromptKind::ConfirmQuit));
    assert!(matches!(drain.scan_next_unless_cancelled(&app, IoWork::Idle, false), DrainOrder::Wait));
    reduce(&mut app, Action::CancelPrompt);
    app.prompt_kind = Some(PromptKind::Text(TextPromptKind::OverwriteRename));
    assert!(matches!(drain.scan_next_unless_cancelled(&app, IoWork::Idle, false), DrainOrder::Wait));
    assert_eq!(drain.pending_scan.len(), 1);
    app.prompt_kind = Some(PromptKind::Text(TextPromptKind::Rename));
    assert!(matches!(drain.scan_next_unless_cancelled(&app, IoWork::Idle, false), DrainOrder::ListParent(_)));
}
