use dd_ftp::actions::Action;
use dd_ftp::model::{EntryKind, FileEntry};
use dd_ftp::panes::SortKey;
use dd_ftp::reducer::reduce;
use dd_ftp::state::{parse_octal_mode, is_dot_or_dotdot, AppState, FocusPane, QuickConnectField};

fn fe(name: &str) -> FileEntry {
    FileEntry {
        name: name.to_string(),
        path: name.to_string(),
        kind: EntryKind::File,
        size: 0,
        modified: None,
        permissions: None,
    }
}

fn fe_size(name: &str, size: u64) -> FileEntry {
    FileEntry {
        name: name.to_string(),
        path: name.to_string(),
        kind: EntryKind::File,
        size,
        modified: None,
        permissions: None,
    }
}

fn dir(name: &str) -> FileEntry {
    FileEntry {
        name: name.to_string(),
        path: name.to_string(),
        kind: EntryKind::Directory,
        size: 0,
        modified: None,
        permissions: None,
    }
}

#[test]
fn visible_local_table() {
    struct Case {
        pattern: &'static str,
        want: &'static [&'static str],
    }
    let entries = vec![fe("a"), fe("Foo"), fe("afoo"), fe("bar")];
    let cases = [
        Case {
            pattern: "",
            want: &["a", "afoo", "bar", "Foo"],
        },
        Case {
            pattern: "foo",
            want: &["afoo", "Foo"],
        },
    ];
    for case in cases {
        let s = AppState {
            local_entries: entries.clone(),
            filter_pattern: case.pattern.to_string(),
            ..Default::default()
        };
        let names: Vec<&str> = s.visible_local().iter().map(|e| e.name.as_str()).collect();
        assert_eq!(names, case.want, "pattern {:?}", case.pattern);
    }
}

#[test]
fn hide_dotfiles_drops_gitignore_but_keeps_dotdot() {
    let s = AppState {
        local_entries: vec![dir("."), dir(".."), fe(".gitignore"), fe("readme")],
        hide_dotfiles: true,
        ..Default::default()
    };
    let names: Vec<&str> = s.visible_local().iter().map(|e| e.name.as_str()).collect();
    assert_eq!(names, vec![".", "..", "readme"]);
    assert!(!names.contains(&".gitignore"));
    assert!(names.contains(&".."));
}

#[test]
fn sort_by_size_descending() {
    let s = AppState {
        local_entries: vec![fe_size("a", 10), fe_size("b", 30), fe_size("c", 20)],
        sort_key: SortKey::Size,
        sort_asc: false,
        ..Default::default()
    };
    let names: Vec<&str> = s.visible_local().iter().map(|e| e.name.as_str()).collect();
    assert_eq!(names, vec!["b", "c", "a"]);
}

#[test]
fn parse_octal_mode_table() {
    struct Case {
        input: &'static str,
        want: Result<u32, ()>,
    }
    let cases = [
        Case {
            input: "755",
            want: Ok(0o755),
        },
        Case {
            input: "0755",
            want: Ok(0o755),
        },
        Case {
            input: "0o755",
            want: Ok(0o755),
        },
        Case {
            input: "zzz",
            want: Err(()),
        },
        Case {
            input: "17777",
            want: Ok(0o7777),
        },
    ];
    for case in cases {
        let got = parse_octal_mode(case.input);
        match case.want {
            Ok(mode) => assert_eq!(got, Ok(mode), "input {:?}", case.input),
            Err(()) => assert!(got.is_err(), "input {:?} should err", case.input),
        }
    }
    assert_eq!(parse_octal_mode("77777").unwrap(), 0o7777);
    assert_eq!(0o77777 & 0o7777, 0o7777);
}

#[test]
fn visible_local_selection_clamps_when_pattern_shrinks_list_to_one() {
    let mut s = AppState {
        local_entries: vec![fe("a"), fe("b"), fe("c")],
        selected_local: 2,
        focus: FocusPane::Local,
        ..Default::default()
    };
    reduce(&mut s, Action::FilterInput('a'));
    assert_eq!(s.visible_local().len(), 1);
    assert_eq!(s.selected_local, 0);
    assert_eq!(s.selected_local_entry().map(|e| e.name.as_str()), Some("a"));
}

#[test]
fn filter_count_pane_uses_last_file_pane_when_queue_focused() {
    let mut s = AppState::default();
    assert_eq!(s.filter_count_pane(), FocusPane::Local);
    s.set_focus(FocusPane::Remote);
    assert_eq!(s.last_file_pane, FocusPane::Remote);
    s.set_focus(FocusPane::Queue);
    assert_eq!(s.focus, FocusPane::Queue);
    assert_eq!(s.last_file_pane, FocusPane::Remote);
    assert_eq!(s.filter_count_pane(), FocusPane::Remote);
    s.set_focus(FocusPane::Local);
    assert_eq!(s.filter_count_pane(), FocusPane::Local);
}

#[test]
fn parse_octal_mode_edges() {
    assert_eq!(parse_octal_mode("  644  "), Ok(0o644));
    assert_eq!(parse_octal_mode("0O700"), Ok(0o700));
    assert_eq!(parse_octal_mode("+7"), Ok(0o7));
    assert_eq!(parse_octal_mode("").unwrap_err(), "invalid chmod mode");
    assert!(parse_octal_mode("   ").is_err());
    assert!(parse_octal_mode("0o").is_err());
    assert!(parse_octal_mode("8").is_err());
    assert!(parse_octal_mode("-7").is_err());
    assert!(parse_octal_mode("77777777777777").is_err());
}

#[test]
fn dot_names() {
    assert!(is_dot_or_dotdot("."));
    assert!(is_dot_or_dotdot(".."));
    assert!(!is_dot_or_dotdot("..."));
    assert!(!is_dot_or_dotdot(".git"));
}

#[test]
fn name_sort_puts_dirs_first_and_dots_on_top() {
    let s = AppState {
        local_entries: vec![fe("b.txt"), dir("zeta"), dir(".."), fe("A.txt"), dir("alpha"), dir(".")],
        ..Default::default()
    };
    let names: Vec<&str> = s.visible_local().iter().map(|e| e.name.as_str()).collect();
    assert_eq!(names, vec![".", "..", "alpha", "zeta", "A.txt", "b.txt"]);
    let d = AppState {
        local_entries: vec![fe("b.txt"), dir("zeta"), dir(".."), fe("A.txt"), dir("alpha"), dir(".")],
        sort_asc: false,
        ..Default::default()
    };
    let names: Vec<&str> = d.visible_local().iter().map(|e| e.name.as_str()).collect();
    assert_eq!(names, vec![".", "..", "zeta", "alpha", "b.txt", "A.txt"]);
}

#[test]
fn equal_sizes_keep_listing_order_by_name() {
    let s = AppState {
        local_entries: vec![fe_size("b", 5), fe_size("a", 5), fe_size("c", 1)],
        sort_key: SortKey::Size,
        ..Default::default()
    };
    let names: Vec<&str> = s.visible_local().iter().map(|e| e.name.as_str()).collect();
    assert_eq!(names, vec!["c", "a", "b"]);
}

#[test]
fn sort_title_suffix_shows_key_direction_and_dotfiles() {
    let s = AppState {
        sort_key: SortKey::Date,
        sort_asc: false,
        hide_dotfiles: true,
        ..Default::default()
    };
    assert_eq!(s.sort_title_suffix(), "sort: date↓  hidden-dotfiles");
    let t = AppState::default();
    assert_eq!(t.sort_title_suffix(), "sort: name↑");
    assert_eq!(SortKey::Name.next(), SortKey::Size);
    assert_eq!(SortKey::Date.next(), SortKey::Name);
}

#[test]
fn quick_connect_fields_cycle() {
    let mut f = QuickConnectField::Name;
    for _ in 0..8 {
        f = f.next();
    }
    assert_eq!(f, QuickConnectField::Name);
    assert_eq!(QuickConnectField::Name.prev(), QuickConnectField::Path);
    assert_eq!(QuickConnectField::Protocol.next(), QuickConnectField::Path);
}

#[test]
fn qc_value_and_flush_for_port() {
    let mut s = AppState::default();
    s.quick_connect_field = QuickConnectField::Port;
    assert_eq!(s.qc_active_value(), "22");
    s.qc_hydrate();
    s.qc_field.value = "2222".to_string();
    s.qc_flush();
    assert_eq!(s.quick_connect.port, 2222);
    s.qc_field.value = "99999".to_string();
    s.qc_flush();
    assert_eq!(s.quick_connect.port, 0);
    s.quick_connect_field = QuickConnectField::Password;
    assert_eq!(s.qc_active_value(), "");
}

#[test]
fn default_state_starts_ready_with_a_builtin_tagline() {
    let s = AppState::default();
    assert_eq!(s.status, "Ready");
    assert_eq!(s.local_cwd, ".");
    assert_eq!(s.remote_cwd, "/");
    assert_eq!(s.worker_max_concurrency, 2);
    let quotes = [
        "Moving bytes so you don't have to.",
        "Remote files, local comfort.",
        "Drag, drop, transfer, repeat.",
        "Your packets are in good hands.",
        "Now serving: the whole filesystem.",
    ];
    assert!(quotes.contains(&s.header_copy.as_str()));
}

#[test]
fn header_copy_from_picks_a_non_blank_quote() {
    let quotes = vec!["  ".to_string(), "one".to_string(), "two".to_string()];
    assert_eq!(dd_ftp::state::header_copy_from_at(&quotes, 0), "one");
    assert_eq!(dd_ftp::state::header_copy_from_at(&quotes, 3), "two");
    let blank = vec![" ".to_string()];
    assert_eq!(dd_ftp::state::header_copy_from_at(&blank, 6), "Remote files, local comfort.");
    let r = dd_ftp::state::random_header_copy_from(&quotes);
    assert!(r == "one" || r == "two");
}

#[test]
fn flush_right_after_hydrate_keeps_every_setting() {
    let mut s = AppState::default();
    s.quick_connect.name = "site".to_string();
    s.quick_connect.host = "example.org".to_string();
    s.quick_connect.port = 2222;
    s.quick_connect.password = Some("pw".to_string());
    for field in [
        QuickConnectField::Name,
        QuickConnectField::Host,
        QuickConnectField::Port,
        QuickConnectField::Username,
        QuickConnectField::Password,
        QuickConnectField::Path,
        QuickConnectField::Protocol,
    ] {
        s.quick_connect_field = field;
        let before = s.quick_connect.clone();
        s.qc_hydrate();
        s.qc_flush();
        assert_eq!(s.quick_connect, before);
    }
    s.quick_connect_field = QuickConnectField::Port;
    s.qc_hydrate();
    assert_eq!(s.qc_field.value, "2222");
}

#[test]
fn view_toggles_and_scrolls_change_only_their_field() {
    use_view_toggles();
}

fn use_view_toggles() {
    let mut s = AppState::default();
    s.scroll_help(false);
    assert_eq!(s.help_scroll, 0);
    s.scroll_help(true);
    s.scroll_help(true);
    assert_eq!(s.help_scroll, 2);
    s.scroll_queue(true);
    assert_eq!(s.queue_scroll, 1);
    assert_eq!(s.sort_key, SortKey::Name);
    s.cycle_sort();
    assert_eq!(s.sort_key, SortKey::Size);
    s.cycle_sort();
    s.cycle_sort();
    assert_eq!(s.sort_key, SortKey::Name);
    let asc = s.sort_asc;
    s.flip_sort_order();
    assert_eq!(s.sort_asc, !asc);
    let dots = s.hide_dotfiles;
    s.toggle_dotfiles();
    assert_eq!(s.hide_dotfiles, !dots);
    s.prompt_kind = Some(dd_ftp::state::PromptKind::Text(dd_ftp::state::TextPromptKind::CreateFile));
    s.swap_create_kind();
    assert_eq!(s.prompt_kind, Some(dd_ftp::state::PromptKind::Text(dd_ftp::state::TextPromptKind::CreateFolder)));
    s.swap_create_kind();
    assert_eq!(s.prompt_kind, Some(dd_ftp::state::PromptKind::Text(dd_ftp::state::TextPromptKind::CreateFile)));
}
