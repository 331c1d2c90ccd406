use dd_ftp::batch::IoWork;
use dd_ftp::fs_ops::{plan_chmod, plan_create, plan_delete, plan_rename, FsRequest, FsWork};
use dd_ftp::model::{EntryKind, FileEntry, Protocol};
use dd_ftp::state::{AppState, FocusPane, PromptKind, TextPromptKind};

fn entry(name: &str, kind: EntryKind) -> FileEntry {
    FileEntry {
        name: name.to_string(),
        path: format!("/x/{name}"),
        kind,
        size: 0,
        modified: None,
        permissions: None,
    }
}

fn app_on(focus: FocusPane) -> AppState {
    let mut app = AppState::default();
    app.local_cwd = "/home/u".to_string();
    app.remote_cwd = "/pub".to_string();
    app.connected = true;
    app.focus = focus;
    app
}

#[test]
fn create_file_locally_and_folder_remotely() {
    let mut app = app_on(FocusPane::Local);
    match plan_create(&mut app, IoWork::Idle, "new.txt", false) {
        Some(FsRequest { work: FsWork::CreateFile { remote: false, path }, ok_status }) => {
            assert_eq!(path, "/home/u/new.txt");
            assert_eq!(ok_status, "Created file: new.txt");
        }
        other => panic!("unexpected {other:?}"),
    }
    assert_eq!(app.status, "Creating…");

    let mut app = app_on(FocusPane::Remote);
    match plan_create(&mut app, IoWork::Idle, "dir", true) {
        Some(FsRequest { work: FsWork::CreateFolder { remote: true, path }, ok_status }) => {
            assert_eq!(path, "/pub/dir");
            assert_eq!(ok_status, "Created folder: dir");
        }
        other => panic!("unexpected {other:?}"),
    }
}

#[test]
fn create_refusals() {
    let mut app = app_on(FocusPane::Local);
    assert!(plan_create(&mut app, IoWork::Idle, "../evil", false).is_none());
    assert_eq!(app.status, "Error: path escapes directory");

    let mut app = app_on(FocusPane::Remote);
    app.connected = false;
    assert!(plan_create(&mut app, IoWork::Idle, "a", false).is_none());
    assert_eq!(app.status, "Not connected");

    let mut app = app_on(FocusPane::Local);
    let before = app.status.clone();
    assert!(plan_create(&mut app, IoWork::Fs, "a", false).is_none());
    assert_eq!(app.status, before);
    let mut app = app_on(FocusPane::Queue);
    assert!(plan_create(&mut app, IoWork::Idle, "a", false).is_none());
    assert_eq!(app.status, before);
}

#[test]
fn rename_selected_entry() {
    let mut app = app_on(FocusPane::Remote);
    app.remote_entries = vec![entry("old.txt", EntryKind::File)];
    match plan_rename(&mut app, IoWork::Idle, "new.txt") {
        Some(FsRequest { work: FsWork::Rename { remote: true, from, to }, ok_status }) => {
            assert_eq!(from, "/pub/old.txt");
            assert_eq!(to, "/pub/new.txt");
            assert_eq!(ok_status, "Renamed to: new.txt");
        }
        other => panic!("unexpected {other:?}"),
    }
    assert_eq!(app.status, "Renaming…");

    let mut app = app_on(FocusPane::Local);
    assert!(plan_rename(&mut app, IoWork::Idle, "x").is_none());
    assert_eq!(app.status, "No item selected");

    let mut app = app_on(FocusPane::Local);
    app.local_entries = vec![entry("a", EntryKind::File)];
    assert!(plan_rename(&mut app, IoWork::Idle, "a/b").is_none());
    assert_eq!(app.status, "Error: path escapes directory");
}

#[test]
fn delete_selected_entry_with_its_kind() {
    let mut app = app_on(FocusPane::Remote);
    app.remote_entries = vec![entry("docs", EntryKind::Directory)];
    match plan_delete(&mut app, IoWork::Idle, "/pub/docs") {
        Some(FsRequest { work: FsWork::Delete { remote: true, path, is_dir }, ok_status }) => {
            assert_eq!(path, "/pub/docs");
            assert!(is_dir);
            assert_eq!(ok_status, "Deleted: /pub/docs");
        }
        other => panic!("unexpected {other:?}"),
    }
    assert_eq!(app.status, "Deleting…");

    let mut app = app_on(FocusPane::Local);
    match plan_delete(&mut app, IoWork::Idle, "/elsewhere/old.log") {
        Some(FsRequest { work: FsWork::Delete { remote: false, path, is_dir }, ok_status }) => {
            assert_eq!(path, "/home/u/old.log");
            assert!(!is_dir);
            assert_eq!(ok_status, "Deleted: /home/u/old.log");
        }
        other => panic!("unexpected {other:?}"),
    }

    let mut app = app_on(FocusPane::Local);
    assert!(plan_delete(&mut app, IoWork::Idle, "/").is_none());
    assert_eq!(app.status, "Error: path escapes directory");

    let mut app = app_on(FocusPane::Remote);
    assert!(plan_delete(&mut app, IoWork::Idle, "/pub/x").is_none());
    assert_eq!(app.status, "No item selected");
}

#[test]
fn chmod_reports_octal_mode() {
    let mut app = app_on(FocusPane::Remote);
    match plan_chmod(&mut app, IoWork::Idle, "/pub/run.sh", 0o755) {
        Some(FsRequest { work: FsWork::Chmod { path, mode }, ok_status }) => {
            assert_eq!(path, "/pub/run.sh");
            assert_eq!(mode, 0o755);
            assert_eq!(ok_status, "chmod 755 /pub/run.sh");
        }
        other => panic!("unexpected {other:?}"),
    }
    assert_eq!(app.status, "Setting permissions…");
    app.connected = false;
    assert!(plan_chmod(&mut app, IoWork::Idle, "/pub/run.sh", 0o644).is_none());
    assert_eq!(app.status, "Not connected");
    assert!(plan_chmod(&mut app, IoWork::List, "/pub/run.sh", 0o644).is_none());
}

#[test]
fn chmod_prompt_only_over_sftp_on_a_real_row() {
    let mut app = app_on(FocusPane::Remote);
    let mut e = entry("run.sh", EntryKind::File);
    e.permissions = Some("-rwxr-xr-x".to_string());
    app.remote_entries = vec![e];
    dd_ftp::fs_ops::open_chmod_prompt(&mut app, Some(Protocol::Sftp));
    assert!(app.show_prompt);
    assert_eq!(app.prompt_kind, Some(PromptKind::Text(TextPromptKind::Chmod)));
    assert_eq!(app.prompt_target.as_deref(), Some("/x/run.sh"));
    assert_eq!(app.prompt_value.value, "-rwxr-xr-x");

    let mut app = app_on(FocusPane::Remote);
    dd_ftp::fs_ops::open_chmod_prompt(&mut app, Some(Protocol::Ftp));
    assert_eq!(app.status, "Error: chmod is SFTP-only");
    dd_ftp::fs_ops::open_chmod_prompt(&mut app, None);
    assert_eq!(app.status, "Not connected");
    dd_ftp::fs_ops::open_chmod_prompt(&mut app, Some(Protocol::Sftp));
    assert_eq!(app.status, "Nothing selected");
    let mut app = app_on(FocusPane::Local);
    dd_ftp::fs_ops::open_chmod_prompt(&mut app, None);
    assert!(!app.show_prompt);
}
