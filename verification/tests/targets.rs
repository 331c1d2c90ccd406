use dd_ftp::state::{AppState, FocusPane};
use dd_ftp::targets::{pane_target, Target};

#[test]
fn local_names_join_the_local_folder() {
    let mut app = AppState::default();
    app.local_cwd = "/home/me".to_string();
    app.focus = FocusPane::Local;
    assert_eq!(pane_target(&app, "notes.txt"), Target::Local("/home/me/notes.txt".to_string()));
    assert_eq!(pane_target(&app, "../etc"), Target::Escapes);
    assert_eq!(pane_target(&app, ".."), Target::Escapes);
    assert_eq!(pane_target(&app, ""), Target::Escapes);
}

#[test]
fn remote_names_need_a_connection() {
    let mut app = AppState::default();
    app.remote_cwd = "/srv/".to_string();
    app.focus = FocusPane::Remote;
    assert_eq!(pane_target(&app, "a"), Target::NotConnected);
    app.connected = true;
    assert_eq!(pane_target(&app, "a"), Target::Remote("/srv/a".to_string()));
    assert_eq!(pane_target(&app, "a/b"), Target::Escapes);
    app.focus = FocusPane::Queue;
    assert_eq!(pane_target(&app, "a"), Target::NoPane);
}
