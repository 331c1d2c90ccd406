use dd_ftp::batch::{io_busy, pane_entries_for_transfer, scan_msg_accepted, BatchStart, IoWork};
use dd_ftp::drain::DrainQueue;
use dd_ftp::model::{ConnectionInfo, EntryKind, FileEntry, TransferDirection};
use dd_ftp::state::{AppState, FocusPane, PendingFile};
use dd_ftp::toast::ToastLevel;

fn entry(name: &str, path: &str, kind: EntryKind, size: u64) -> FileEntry {
    FileEntry {
        name: name.to_string(),
        path: path.to_string(),
        kind,
        size,
        modified: None,
        permissions: None,
    }
}

fn file(name: &str, size: u64) -> FileEntry {
    entry(name, &format!("/home/u/{name}"), EntryKind::File, size)
}

fn folder(name: &str) -> FileEntry {
    entry(name, &format!("/home/u/{name}"), EntryKind::Directory, 0)
}

fn connected_app() -> AppState {
    let mut app = AppState::default();
    app.connected = true;
    app.local_cwd = "/home/u".to_string();
    app.remote_cwd = "/pub".to_string();
    app
}

fn upload(local: &str, remote: &str, size: u64) -> PendingFile {
    PendingFile {
        local_path: local.to_string(),
        remote_path: remote.to_string(),
        direction: TransferDirection::Upload,
        size_bytes: Some(size),
    }
}

#[test]
fn upload_of_selected_file_waits_on_drain_and_lifts_cancel() {
    let mut app = connected_app();
    app.local_entries = vec![file("a.txt", 7)];
    app.worker_cancel_requested = true;
    let mut drain = DrainQueue::new();
    let r = drain.queue_upload_selected(&mut app, IoWork::Idle);
    assert!(matches!(r, BatchStart::Drain));
    assert_eq!(drain.pending_scan, vec![upload("/home/u/a.txt", "/pub/a.txt", 7)]);
    assert!(!app.worker_cancel_requested);
    assert!(!app.worker_running);
    assert!(app.queue.pending.is_empty());
}

#[test]
fn upload_without_connection_only_reports() {
    let mut app = connected_app();
    app.connected = false;
    app.local_entries = vec![file("a.txt", 7)];
    let mut drain = DrainQueue::new();
    let r = drain.queue_upload_selected(&mut app, IoWork::Idle);
    assert!(matches!(r, BatchStart::Nothing));
    assert_eq!(app.status, "Not connected");
    assert!(drain.pending_scan.is_empty());
}

#[test]
fn busy_drain_ignores_a_new_transfer() {
    let mut app = connected_app();
    app.local_entries = vec![file("a.txt", 7)];
    app.worker_cancel_requested = true;
    let mut drain = DrainQueue::new();
    drain.pending_scan.push(upload("/x", "/pub/x", 1));
    let r = drain.queue_upload_selected(&mut app, IoWork::Idle);
    assert!(matches!(r, BatchStart::Nothing));
    assert_eq!(drain.pending_scan.len(), 1);
    assert!(app.worker_cancel_requested);

    let mut drain = DrainQueue::new();
    let r = drain.queue_upload_selected(&mut app, IoWork::List);
    assert!(matches!(r, BatchStart::Nothing));
    assert!(drain.pending_scan.is_empty());
}

#[test]
fn folder_upload_is_announced_and_walked_into_remote_folder() {
    let mut app = connected_app();
    app.local_entries = vec![folder("docs")];
    let mut drain = DrainQueue::new();
    let r = drain.queue_upload_selected(&mut app, IoWork::Idle);
    match r {
        BatchStart::Scan(roots) => {
            assert_eq!(roots, vec![("/home/u/docs".to_string(), "/pub/docs".to_string())])
        }
        other => panic!("expected a walk, got {other:?}"),
    }
    assert_eq!(app.status, "Scanning docs...");
    let toast = app.toast.as_ref().expect("toast");
    assert_eq!(toast.message, "Scanning docs...");
    assert_eq!(toast.level, ToastLevel::Info);
}

#[test]
fn several_folders_are_counted_and_files_wait_first() {
    let mut app = connected_app();
    let mut drain = DrainQueue::new();
    let entries = vec![folder("a"), file("f.txt", 3), folder("b"), entry("..", "/home", EntryKind::Directory, 0)];
    let r = drain.enqueue_entries(&mut app, entries, TransferDirection::Upload, IoWork::Idle);
    match r {
        BatchStart::Scan(roots) => assert_eq!(
            roots,
            vec![
                ("/home/u/a".to_string(), "/pub/a".to_string()),
                ("/home/u/b".to_string(), "/pub/b".to_string()),
            ]
        ),
        other => panic!("expected a walk, got {other:?}"),
    }
    assert_eq!(app.status, "Scanning 2 items...");
    assert_eq!(drain.pending_scan, vec![upload("/home/u/f.txt", "/pub/f.txt", 3)]);
}

#[test]
fn folders_wait_while_other_work_runs() {
    let mut app = connected_app();
    let mut drain = DrainQueue::new();
    let entries = vec![folder("a"), file("f.txt", 3)];
    let r = drain.enqueue_entries(&mut app, entries, TransferDirection::Upload, IoWork::Fs);
    assert!(matches!(r, BatchStart::Nothing));
    assert_eq!(drain.pending_scan.len(), 1);
    assert!(app.toast.is_none());
}

#[test]
fn only_dot_entries_do_nothing() {
    let mut app = connected_app();
    app.worker_cancel_requested = true;
    let mut drain = DrainQueue::new();
    let entries = vec![entry(".", "/home/u", EntryKind::Directory, 0), entry("..", "/home", EntryKind::Directory, 0)];
    let r = drain.enqueue_entries(&mut app, entries, TransferDirection::Upload, IoWork::Idle);
    assert!(matches!(r, BatchStart::Nothing));
    assert!(app.worker_cancel_requested);
    assert!(drain.pending_scan.is_empty());
}

#[test]
fn unsafe_file_name_shows_error_and_others_still_wait() {
    let mut app = connected_app();
    let mut drain = DrainQueue::new();
    let entries = vec![file("a/b", 1), file("ok.txt", 2)];
    let r = drain.enqueue_entries(&mut app, entries, TransferDirection::Upload, IoWork::Idle);
    assert!(matches!(r, BatchStart::Drain));
    assert_eq!(app.status, "Error: path escapes directory");
    assert_eq!(app.toast.as_ref().map(|t| t.level), Some(ToastLevel::Error));
    assert_eq!(drain.pending_scan, vec![upload("/home/u/ok.txt", "/pub/ok.txt", 2)]);
}

#[test]
fn folder_download_needs_an_active_connection() {
    let mut app = connected_app();
    app.remote_entries = vec![entry("docs", "/pub/docs", EntryKind::Directory, 0)];
    let mut drain = DrainQueue::new();
    let r = drain.queue_download_selected(&mut app, IoWork::Idle);
    assert!(matches!(r, BatchStart::Drain));
    assert_eq!(app.status, "Not connected");
    assert_eq!(app.toast.as_ref().map(|t| t.message.clone()), Some("Scanning docs...".to_string()));

    let mut app = connected_app();
    app.active_connection = Some(ConnectionInfo::default());
    app.remote_entries = vec![entry("docs", "/pub/docs", EntryKind::Directory, 0)];
    let r = drain.queue_download_selected(&mut app, IoWork::Idle);
    match r {
        BatchStart::Scan(roots) => {
            assert_eq!(roots, vec![("/pub/docs".to_string(), "/home/u/docs".to_string())])
        }
        other => panic!("expected a walk, got {other:?}"),
    }
}

#[test]
fn file_download_waits_with_local_destination() {
    let mut app = connected_app();
    app.remote_entries = vec![entry("r.bin", "/pub/r.bin", EntryKind::File, 9)];
    let mut drain = DrainQueue::new();
    let r = drain.queue_download_selected(&mut app, IoWork::Idle);
    assert!(matches!(r, BatchStart::Drain));
    assert_eq!(
        drain.pending_scan,
        vec![PendingFile {
            local_path: "/home/u/r.bin".to_string(),
            remote_path: "/pub/r.bin".to_string(),
            direction: TransferDirection::Download,
            size_bytes: Some(9),
        }]
    );
}

#[test]
fn marks_pick_entries_by_path_in_listing_order() {
    let mut app = connected_app();
    app.local_entries = vec![file("b.txt", 1), file("a.txt", 2), entry("..", "/home", EntryKind::Directory, 0)];
    app.marked_local = vec!["/home/u/b.txt".to_string(), "/home".to_string()];
    let picked = pane_entries_for_transfer(&app, FocusPane::Local);
    assert_eq!(picked.len(), 1);
    assert_eq!(picked[0].name, "b.txt");

    app.marked_local = Vec::new();
    let picked = pane_entries_for_transfer(&app, FocusPane::Local);
    assert_eq!(picked.len(), 1);
    assert_eq!(picked[0].name, "..");
    assert!(pane_entries_for_transfer(&app, FocusPane::Queue).is_empty());
}

#[test]
fn walk_reports_belong_to_the_current_walk() {
    assert!(scan_msg_accepted(4, IoWork::Scan(4), 4));
    assert!(!scan_msg_accepted(5, IoWork::Scan(4), 4));
    assert!(!scan_msg_accepted(4, IoWork::List, 4));
    assert!(io_busy(IoWork::Connect));
    assert!(!io_busy(IoWork::Idle));
    let mut drain = DrainQueue::new();
    assert!(drain.drain_busy(IoWork::Scan(1)));
    assert!(!drain.drain_busy(IoWork::Fs));
    drain.pending_scan.push(upload("/x", "/pub/x", 1));
    assert!(drain.drain_busy(IoWork::Idle));
}

#[test]
fn walk_items_wait_unless_cancelled() {
    let mut app = connected_app();
    let mut drain = DrainQueue::new();
    drain.scan_item(&mut app, upload("/a", "/pub/a", 1), 31);
    assert_eq!(drain.pending_scan.len(), 1);
    assert!(app.queue.pending.is_empty());
    assert!(drain.scan_done(&mut app, &vec![32]));
    assert_eq!(drain.pending_scan.len(), 1);

    app.worker_cancel_requested = true;
    drain.scan_item(&mut app, upload("/b", "/pub/b", 1), 33);
    assert_eq!(drain.pending_scan.len(), 1);
    assert_eq!(app.queue.pending.len(), 1);
    assert_eq!(app.queue.pending[0].remote_path, "/pub/b");
    assert!(!drain.scan_done(&mut app, &vec![34]));
    assert!(drain.pending_scan.is_empty());
    assert_eq!(app.queue.pending.len(), 2);
    assert_eq!(app.queue.pending[1].remote_path, "/pub/a");
    assert_eq!(app.queue.pending[0].id, 33);
    assert_eq!(app.queue.pending[1].id, 34);
    assert!(app.worker_cancel_requested);
}

#[test]
fn scan_item_is_generation_stamped_and_types_exist() {
    let file = upload("/tmp/a.txt", "/pub/a.txt", 1);
    let generation = 7;
    let io = IoWork::Scan(generation);
    assert!(scan_msg_accepted(7, io, generation));
    assert!(matches!(io, IoWork::Scan(7)));
    let mut app = connected_app();
    let mut drain = DrainQueue::new();
    drain.scan_item(&mut app, file.clone(), 1);
    assert_eq!(drain.pending_scan[0].remote_path, "/pub/a.txt");
    assert!(!drain.pending_scan.is_empty());
    assert!(drain.drain_busy(IoWork::Idle));
}

#[test]
fn failed_walk_drops_the_batch() {
    let mut app = connected_app();
    let mut drain = DrainQueue::new();
    drain.pending_scan.push(upload("/a", "/pub/a", 1));
    drain.scan_failed(&mut app, "boom");
    assert!(drain.pending_scan.is_empty());
    assert_eq!(app.status, "Error: Scan failed: boom");
}

#[test]
fn replies_must_answer_the_work_in_progress() {
    use_reply_kinds();
}

fn use_reply_kinds() {
    use_kinds(dd_ftp::batch::IoReply::Connect, IoWork::Connect, true);
    use_kinds(dd_ftp::batch::IoReply::Connect, IoWork::HostKey, true);
    use_kinds(dd_ftp::batch::IoReply::Connect, IoWork::Idle, false);
    use_kinds(dd_ftp::batch::IoReply::List, IoWork::List, true);
    use_kinds(dd_ftp::batch::IoReply::List, IoWork::Fs, false);
    use_kinds(dd_ftp::batch::IoReply::Fs, IoWork::Fs, true);
    assert!(!dd_ftp::batch::io_reply_accepted(3, IoWork::Fs, 2, dd_ftp::batch::IoReply::Fs));
}

fn use_kinds(reply: dd_ftp::batch::IoReply, io: IoWork, expected: bool) {
    assert_eq!(dd_ftp::batch::io_reply_accepted(3, io, 3, reply), expected);
}
