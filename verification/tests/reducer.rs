use dd_ftp::actions::Action;
use dd_ftp::model::{EntryKind, FileEntry, TransferDirection, TransferJob, ConnectionInfo, Protocol};
use dd_ftp::reducer::reduce;
use dd_ftp::state::{AppState, ChoicePromptKind, FocusPane, HostKeyView, PromptKind, QuickConnectField, SelectPolicy};
use dd_ftp::drain::should_spawn;
use dd_ftp::text_field::TextField;

fn fe(name: &str) -> FileEntry {
    FileEntry {
        name: name.to_string(),
        path: name.to_string(),
        kind: EntryKind::File,
        size: 0,
        modified: None,
        permissions: None,
    }
}

#[test]
fn qc_field_change_hydrates_text_field() {
    let mut s = AppState::default();
    s.quick_connect.host = "example.com".into();
    s.quick_connect_field = QuickConnectField::Host;
    reduce(&mut s, Action::QuickConnectSyncField);
    assert_eq!(s.qc_field.value, "example.com");
    assert_eq!(s.qc_field.cursor, 11);
}

#[test]
fn qc_backspace_with_selection_clears_field() {
    let mut s = AppState::default();
    s.quick_connect.host = "abc".into();
    s.quick_connect_field = QuickConnectField::Host;
    reduce(&mut s, Action::QuickConnectSyncField);
    s.qc_field.anchor = Some(0);
    s.qc_field.cursor = 3;
    reduce(&mut s, Action::QuickConnectBackspace);
    assert_eq!(s.quick_connect.host, "");
}

#[test]
fn prompt_input_inserts_at_cursor() {
    let mut s = AppState::default();
    reduce(&mut s, Action::ShowCreatePrompt);
    reduce(&mut s, Action::PromptInput('a'));
    reduce(&mut s, Action::PromptInput('b'));
    assert_eq!(s.prompt_value.value, "ab");
    assert_eq!(s.prompt_value.cursor, 2);
}

#[test]
fn confirm_quit_is_choice_and_does_not_touch_prompt_value() {
    let mut s = AppState {
        prompt_value: TextField::from_str("keep-me"),
        ..Default::default()
    };
    reduce(&mut s, Action::ShowChoicePrompt(ChoicePromptKind::ConfirmQuit));
    assert!(s.show_prompt);
    assert_eq!(s.prompt_kind, Some(PromptKind::Choice(ChoicePromptKind::ConfirmQuit)));
    assert_eq!(s.prompt_value.value, "keep-me");
    reduce(&mut s, Action::CancelPrompt);
    assert!(!s.show_prompt);
    assert_eq!(s.prompt_kind, None);
}

#[test]
fn confirm_delete_is_choice_and_does_not_touch_prompt_value() {
    let mut s = AppState {
        prompt_value: TextField::from_str("keep-me"),
        ..Default::default()
    };
    reduce(&mut s, Action::ShowDeletePrompt);
    assert!(s.show_prompt);
    assert_eq!(s.prompt_kind, Some(PromptKind::Choice(ChoicePromptKind::ConfirmDelete)));
    assert_eq!(s.prompt_value.value, "keep-me");
    reduce(&mut s, Action::CancelPrompt);
    assert!(!s.show_prompt);
    assert_eq!(s.prompt_kind, None);
}

#[test]
fn confirm_bookmark_delete_is_choice_and_does_not_touch_prompt_value() {
    let mut s = AppState {
        prompt_value: TextField::from_str("keep-me"),
        ..Default::default()
    };
    reduce(&mut s, Action::ShowChoicePrompt(ChoicePromptKind::ConfirmBookmarkDelete));
    assert!(s.show_prompt);
    assert_eq!(
        s.prompt_kind,
        Some(PromptKind::Choice(ChoicePromptKind::ConfirmBookmarkDelete))
    );
    assert_eq!(s.prompt_value.value, "keep-me");
    reduce(&mut s, Action::CancelPrompt);
    assert!(!s.show_prompt);
    assert_eq!(s.prompt_kind, None);
}

#[test]
fn host_key_is_choice_and_does_not_touch_prompt_value() {
    let mut s = AppState {
        prompt_value: TextField::from_str("keep-me"),
        host_key: Some(HostKeyView {
            host: "example.com".into(),
            port: 22,
            fingerprint: "abcd".into(),
            changed: false,
        }),
        ..Default::default()
    };
    reduce(&mut s, Action::ShowChoicePrompt(ChoicePromptKind::HostKey));
    assert!(s.show_prompt);
    assert_eq!(s.prompt_kind, Some(PromptKind::Choice(ChoicePromptKind::HostKey)));
    assert_eq!(s.prompt_value.value, "keep-me");
    reduce(&mut s, Action::CancelPrompt);
    assert!(!s.show_prompt);
    assert_eq!(s.prompt_kind, None);
    assert!(s.host_key.is_none());
}

#[test]
fn toggle_help_twice_closes() {
    let mut s = AppState::default();
    reduce(&mut s, Action::ToggleHelp);
    assert!(s.show_help);
    reduce(&mut s, Action::ToggleHelp);
    assert!(!s.show_help);
}

#[test]
fn toggle_theme_debug_twice_closes() {
    let mut s = AppState::default();
    reduce(&mut s, Action::ToggleThemeDebug);
    assert!(s.show_theme_debug);
    reduce(&mut s, Action::ToggleThemeDebug);
    assert!(!s.show_theme_debug);
}

#[test]
fn toggle_help_clears_theme_debug() {
    let mut s = AppState::default();
    reduce(&mut s, Action::ToggleThemeDebug);
    assert!(s.show_theme_debug);
    reduce(&mut s, Action::ToggleHelp);
    assert!(s.show_help);
    assert!(!s.show_theme_debug);
}

#[test]
fn toggle_compare_closes_compare() {
    let mut s = AppState {
        show_compare: true,
        ..Default::default()
    };
    reduce(&mut s, Action::ToggleCompare);
    assert!(!s.show_compare);
}

#[test]
fn toggle_theme_debug_clears_help() {
    let mut s = AppState::default();
    reduce(&mut s, Action::ToggleHelp);
    reduce(&mut s, Action::ToggleThemeDebug);
    assert!(s.show_theme_debug);
    assert!(!s.show_help);
}

#[test]
fn select_down_does_not_walk_into_filtered_out_rows() {
    let mut s = AppState {
        local_entries: vec![fe("foo"), fe("skip"), fe("food")],
        filter_pattern: "foo".into(),
        selected_local: 0,
        focus: FocusPane::Local,
        ..Default::default()
    };
    reduce(&mut s, Action::SelectDown);
    assert_eq!(s.selected_local, 1);
    assert_eq!(s.selected_local_entry().unwrap().name, "food");
    reduce(&mut s, Action::SelectDown);
    assert_eq!(s.selected_local, 1);
    assert_eq!(s.selected_local_entry().unwrap().name, "food");
}

#[test]
fn set_remote_entries_reset_selects_index_zero() {
    let mut s = AppState {
        remote_entries: vec![fe("old")],
        selected_remote: 0,
        ..Default::default()
    };
    reduce(
        &mut s,
        Action::SetRemoteEntries {
            entries: vec![fe("a"), fe("b"), fe("c")],
            select: SelectPolicy::Reset,
        },
    );
    assert_eq!(s.selected_remote, 0);
    assert_eq!(s.selected_remote_entry().unwrap().name, "a");
}

// The same scenario as the original's: a refresh adds "new" to a listing
// whose row "keep" is selected. The listing is sorted by name, so "keep"
// stays the first row: the name is kept and its row is 0, not 1.
#[test]
fn set_remote_entries_preserve_name_keeps_row_when_refresh_prepends() {
    let mut s = AppState {
        remote_entries: vec![fe("keep"), fe("z")],
        selected_remote: 0,
        ..Default::default()
    };
    reduce(
        &mut s,
        Action::SetRemoteEntries {
            entries: vec![fe("new"), fe("keep"), fe("z")],
            select: SelectPolicy::PreserveName,
        },
    );
    assert_eq!(s.selected_remote, 0);
    assert_eq!(s.selected_remote_entry().unwrap().name, "keep");
}

#[test]
fn focus_next_pane_remembers_last_file_pane_across_queue() {
    let mut s = AppState::default();
    reduce(&mut s, Action::FocusNextPane);
    assert_eq!(s.focus, FocusPane::Remote);
    assert_eq!(s.last_file_pane, FocusPane::Remote);
    reduce(&mut s, Action::FocusNextPane);
    assert_eq!(s.focus, FocusPane::Queue);
    assert_eq!(s.last_file_pane, FocusPane::Remote);
    assert_eq!(s.filter_count_pane(), FocusPane::Remote);
    reduce(&mut s, Action::FocusNextPane);
    assert_eq!(s.focus, FocusPane::Local);
    assert_eq!(s.last_file_pane, FocusPane::Local);
}

#[test]
fn set_local_entries_preserve_name_clamps_when_row_vanishes() {
    let mut s = AppState {
        local_entries: vec![fe("keep"), fe("gone")],
        selected_local: 1,
        ..Default::default()
    };
    reduce(
        &mut s,
        Action::SetLocalEntries {
            entries: vec![fe("keep")],
            select: SelectPolicy::PreserveName,
        },
    );
    assert_eq!(s.selected_local, 0);
    assert_eq!(s.selected_local_entry().unwrap().name, "keep");
}

#[test]
fn queue_transfer_still_clears_cancel_for_spawn_gate() {
    let mut app = AppState {
        connected: true,
        worker_cancel_requested: true,
        ..Default::default()
    };
    reduce(
        &mut app,
        Action::QueueTransfer(TransferJob::new(1, "/tmp/a", "/pub/a", TransferDirection::Upload)),
    );
    assert!(!app.worker_cancel_requested);
    assert!(should_spawn(
        app.connected,
        app.worker_cancel_requested,
        app.worker_active_count,
        app.worker_max_concurrency,
        app.queue.pending.len(),
    ));
}

#[test]
fn queue_actions_report_counts() {
    let mut s = AppState::default();
    reduce(&mut s, Action::QueueTransfer(TransferJob::new(2, "/tmp/a", "/pub/a", TransferDirection::Upload)));
    assert_eq!(s.status, "Queue: 1 pending");
    reduce(&mut s, Action::StartNextTransfer);
    let id = s.queue.active[0].id;
    assert_eq!(s.status, format!("Transfer active: {}", uuid::Uuid::from_u128(id)));
    let job = s.queue.active[0].clone();
    reduce(&mut s, Action::MarkTransferFailed(job));
    assert_eq!(s.status, "Transfer failed. Pending: 0 Active: 0");
    reduce(&mut s, Action::RetryLastFailed);
    assert_eq!(s.status, "Requeued last failed transfer. Pending: 1");
    assert_eq!(s.queue.pending[0].retries, 1);
    reduce(&mut s, Action::RetryLastFailed);
    assert_eq!(s.status, "No failed transfer to retry");
    reduce(&mut s, Action::ClearPendingTransfers);
    assert_eq!(s.status, "Cleared 1 pending transfer(s)");
    reduce(&mut s, Action::StartNextTransfer);
    assert_eq!(s.status, "Queue is empty");
}

#[test]
fn connection_and_error_status() {
    let mut s = AppState::default();
    let info = ConnectionInfo { host: "ftp.example.org".into(), ..Default::default() };
    reduce(&mut s, Action::Connect(info));
    assert_eq!(s.status, "Connecting to ftp.example.org...");
    reduce(&mut s, Action::SetConnected(true));
    assert!(s.connected);
    assert_eq!(s.status, "Connected");
    reduce(&mut s, Action::ShowError("boom".into()));
    assert_eq!(s.status, "Error: boom");
    assert_eq!(s.toast.as_ref().unwrap().message, "boom");
    reduce(&mut s, Action::ClearError);
    assert!(s.toast.is_none());
    reduce(&mut s, Action::Disconnect);
    assert!(!s.connected);
    assert_eq!(s.status, "Disconnected");
}

#[test]
fn bookmarks_step_and_wrap() {
    let mut s = AppState::default();
    reduce(&mut s, Action::SelectNextBookmark);
    assert_eq!(s.status, "No bookmarks saved");
    let a = ConnectionInfo { name: "a".into(), host: "ha".into(), ..Default::default() };
    let b = ConnectionInfo { name: "b".into(), host: "hb".into(), ..Default::default() };
    reduce(&mut s, Action::SetBookmarks(vec![a, b]));
    reduce(&mut s, Action::SelectNextBookmark);
    assert_eq!(s.selected_bookmark, 1);
    assert_eq!(s.status, "Bookmark: b (hb)");
    reduce(&mut s, Action::SelectNextBookmark);
    assert_eq!(s.selected_bookmark, 0);
    reduce(&mut s, Action::SelectPrevBookmark);
    assert_eq!(s.selected_bookmark, 1);
    assert_eq!(s.status, "Bookmark: b (hb)");
}

#[test]
fn quick_connect_port_takes_digits_only_and_protocol_cycles() {
    let mut s = AppState::default();
    reduce(&mut s, Action::ToggleQuickConnect);
    assert!(s.show_quick_connect);
    assert_eq!(s.qc_field.value, "New Site");
    reduce(&mut s, Action::QuickConnectNextField);
    reduce(&mut s, Action::QuickConnectNextField);
    assert_eq!(s.quick_connect_field, QuickConnectField::Port);
    assert_eq!(s.qc_field.value, "22");
    reduce(&mut s, Action::QuickConnectInput('x'));
    assert_eq!(s.quick_connect.port, 22);
    reduce(&mut s, Action::QuickConnectInput('1'));
    assert_eq!(s.quick_connect.port, 221);
    reduce(&mut s, Action::QuickConnectSetProtocolNext);
    assert_eq!(s.quick_connect.protocol, Protocol::Ftp);
    reduce(&mut s, Action::QuickConnectSetProtocolPrev);
    reduce(&mut s, Action::QuickConnectSetProtocolPrev);
    assert_eq!(s.quick_connect.protocol, Protocol::Ftps);
    reduce(&mut s, Action::ToggleBookmarks);
    assert!(s.show_bookmarks);
    assert!(!s.show_quick_connect);
}

#[test]
fn filter_keeps_selected_row_and_clear_restores() {
    let mut s = AppState {
        local_entries: vec![fe("alpha"), fe("beta"), fe("gamma")],
        selected_local: 1,
        ..Default::default()
    };
    reduce(&mut s, Action::ToggleFilter);
    reduce(&mut s, Action::FilterInput('t'));
    assert_eq!(s.selected_local_entry().unwrap().name, "beta");
    reduce(&mut s, Action::FilterBackspace);
    assert_eq!(s.filter_pattern, "");
    assert_eq!(s.selected_local_entry().unwrap().name, "beta");
    reduce(&mut s, Action::FilterInput('m'));
    assert_eq!(s.selected_local_entry().unwrap().name, "gamma");
    reduce(&mut s, Action::ClearFilter);
    assert_eq!(s.selected_local_entry().unwrap().name, "gamma");
    reduce(&mut s, Action::ToggleFilter);
    assert!(!s.show_filter);
}

#[test]
fn select_up_stops_at_top_and_queue_ignores_moves() {
    let mut s = AppState {
        local_entries: vec![fe("a"), fe("b")],
        selected_local: 1,
        ..Default::default()
    };
    reduce(&mut s, Action::SelectUp);
    assert_eq!(s.selected_local, 0);
    reduce(&mut s, Action::SelectUp);
    assert_eq!(s.selected_local, 0);
    s.focus = FocusPane::Queue;
    reduce(&mut s, Action::SelectDown);
    assert_eq!(s.selected_local, 0);
}

#[test]
fn closing_the_filter_clears_its_pattern() {
    let mut app = AppState::default();
    reduce(&mut app, Action::ToggleFilter);
    reduce(&mut app, Action::FilterInput('x'));
    assert_eq!(app.filter_pattern, "x");
    reduce(&mut app, Action::ToggleFilter);
    assert!(!app.show_filter);
    assert_eq!(app.filter_pattern, "");
}

#[test]
fn down_then_up_returns_to_the_row() {
    let mut app = AppState::default();
    app.local_entries = vec![fe("a"), fe("b"), fe("c")];
    app.focus = FocusPane::Local;
    app.selected_local = 1;
    reduce(&mut app, Action::SelectDown);
    assert_eq!(app.selected_local, 2);
    reduce(&mut app, Action::SelectUp);
    assert_eq!(app.selected_local, 1);
}
