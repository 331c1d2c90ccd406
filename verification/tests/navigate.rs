use dd_ftp::model::{EntryKind, FileEntry};
use dd_ftp::navigate::{enter_plan, parent_plan, NavPlan};
use dd_ftp::state::{AppState, FocusPane};

fn entry(name: &str, path: &str, kind: EntryKind) -> FileEntry {
    FileEntry { name: name.to_string(), path: path.to_string(), kind, size: 0, modified: None, permissions: None }
}

#[test]
fn entering_a_local_folder_uses_its_path() {
    let mut app = AppState::default();
    app.local_cwd = "/home".to_string();
    app.local_entries = vec![entry("me", "/home/me", EntryKind::Directory)];
    app.focus = FocusPane::Local;
    assert_eq!(enter_plan(&app), NavPlan::LocalCwd("/home/me".to_string()));
    assert_eq!(parent_plan(&app), NavPlan::LocalCwd("/".to_string()));
}

#[test]
fn remote_navigation_needs_a_connection_and_a_folder() {
    let mut app = AppState::default();
    app.remote_cwd = "/srv".to_string();
    app.remote_entries = vec![entry("a.txt", "/srv/a.txt", EntryKind::File)];
    app.focus = FocusPane::Remote;
    assert_eq!(enter_plan(&app), NavPlan::NotConnected);
    app.connected = true;
    assert_eq!(enter_plan(&app), NavPlan::NotDirectory("a.txt".to_string()));
    app.remote_entries = vec![entry("pub", "/srv/pub", EntryKind::Directory)];
    assert_eq!(enter_plan(&app), NavPlan::RemoteCwd("/srv/pub".to_string()));
    assert_eq!(parent_plan(&app), NavPlan::RemoteCwd("/".to_string()));
}
