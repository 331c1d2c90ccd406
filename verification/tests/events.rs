use dd_ftp::events::{
    apply_fs_result, apply_listing, connect_failed, connect_failed_message, connect_succeeded,
    disconnect_failed, listing_status, protocol_label, session_closed, FsFollowUp,
};
use dd_ftp::model::{ConnectionInfo, EntryKind, FileEntry, Protocol};
use dd_ftp::state::{AppState, SelectPolicy};
use dd_ftp::toast::ToastLevel;

fn entry(name: &str) -> FileEntry {
    FileEntry {
        name: name.to_string(),
        path: format!("/pub/{name}"),
        kind: EntryKind::File,
        size: 0,
        modified: None,
        permissions: None,
    }
}

fn info() -> ConnectionInfo {
    ConnectionInfo {
        name: "site".to_string(),
        host: "example.org".to_string(),
        port: 2222,
        protocol: Protocol::Sftp,
        username: "ann".to_string(),
        password: None,
        private_key: None,
        initial_path: "/pub".to_string(),
    }
}

#[test]
fn protocols_are_named_as_debug_shows_them() {
    assert_eq!(protocol_label(Protocol::Sftp), "Sftp");
    assert_eq!(protocol_label(Protocol::Ftp), "Ftp");
    assert_eq!(protocol_label(Protocol::Ftps), "Ftps");
}

#[test]
fn connect_failure_names_the_target() {
    assert_eq!(
        connect_failed_message(&info(), "refused"),
        "Connect failed for ann@example.org:2222 via Sftp -> refused"
    );
    let mut app = AppState::default();
    app.connected = true;
    connect_failed(&mut app, "Connect failed: x".to_string());
    assert!(!app.connected);
    assert_eq!(app.status, "Error: Connect failed: x");
    assert_eq!(app.toast.as_ref().map(|t| t.level), Some(ToastLevel::Error));
}

#[test]
fn connect_success_shows_listing_from_first_row() {
    let mut app = AppState::default();
    app.remote_cwd = "/pub".to_string();
    app.selected_remote = 3;
    connect_succeeded(&mut app, info(), vec![entry("b"), entry("a")]);
    assert!(app.connected);
    assert_eq!(app.remote_entries.len(), 2);
    assert_eq!(app.selected_remote, 0);
    assert_eq!(app.selected_remote_entry().map(|e| e.name.clone()), Some("a".to_string()));
    assert_eq!(app.active_connection.as_ref().map(|c| c.host.clone()), Some("example.org".to_string()));
    assert_eq!(app.status, "Connected via Sftp to example.org as ann (cwd: /pub)");
}

#[test]
fn listing_replaces_rows_or_reports_error() {
    assert_eq!(listing_status("/pub"), "Listing /pub...");
    let mut app = AppState::default();
    let resume = apply_listing(
        &mut app,
        false,
        Ok(vec![entry("x")]),
        SelectPolicy::Reset,
        Some("Listed".to_string()),
        "Remote list failed",
    );
    assert!(!resume);
    assert_eq!(app.remote_entries.len(), 1);
    assert_eq!(app.status, "Listed");

    let resume = apply_listing(&mut app, false, Err("gone".to_string()), SelectPolicy::Reset, None, "Remote list failed");
    assert!(!resume);
    assert_eq!(app.remote_entries.len(), 1);
    assert_eq!(app.status, "Error: Remote list failed: gone");
}

#[test]
fn listing_while_drain_waits_lets_drain_go_on() {
    let mut app = AppState::default();
    let resume = apply_listing(&mut app, true, Ok(vec![entry("x")]), SelectPolicy::Reset, None, "p");
    assert!(resume);
    assert!(app.remote_entries.is_empty());
    app.worker_cancel_requested = true;
    assert!(!apply_listing(&mut app, true, Ok(vec![entry("x")]), SelectPolicy::Reset, None, "p"));
}

#[test]
fn file_operation_outcomes_pick_what_follows() {
    let mut app = AppState::default();
    app.connected = true;
    assert_eq!(apply_fs_result(&mut app, false, true, "Deleted: /a".to_string(), Ok(())), FsFollowUp::RelistRemote);
    assert_eq!(app.status, "Deleted: /a");
    assert_eq!(apply_fs_result(&mut app, false, false, "Created".to_string(), Ok(())), FsFollowUp::RefreshLocal);
    assert_eq!(apply_fs_result(&mut app, true, true, "Made".to_string(), Ok(())), FsFollowUp::ResumeDrain);
    assert_eq!(apply_fs_result(&mut app, false, true, "x".to_string(), Err("denied".to_string())), FsFollowUp::Nothing);
    assert_eq!(app.status, "Error: denied");
    app.connected = false;
    assert_eq!(apply_fs_result(&mut app, false, true, "y".to_string(), Ok(())), FsFollowUp::Nothing);
    app.worker_cancel_requested = true;
    assert_eq!(apply_fs_result(&mut app, true, true, "z".to_string(), Err("e".to_string())), FsFollowUp::Nothing);
}

#[test]
fn closing_the_session_empties_the_remote_pane() {
    let mut app = AppState::default();
    connect_succeeded(&mut app, info(), vec![entry("a")]);
    session_closed(&mut app);
    assert!(!app.connected);
    assert!(app.remote_entries.is_empty());
    assert!(app.active_connection.is_none());
    assert_eq!(app.status, "Disconnected");
    disconnect_failed(&mut app, "broken pipe");
    assert_eq!(app.status, "Disconnect failed: broken pipe");
}

#[test]
fn toasts_expire_after_their_time_to_live() {
    assert!(!dd_ftp::toast::Toast::expired_after(4));
    assert!(dd_ftp::toast::Toast::expired_after(5));
    assert!(dd_ftp::toast::Toast::expired_after(60));
    let t = dd_ftp::toast::Toast::info("hi".to_string());
    assert!(!t.is_expired());
}
