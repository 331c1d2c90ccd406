use dd_ftp::model::{EntryKind, FileEntry, Timestamp};
use dd_ftp::state::QuickConnectField;
use dd_ftp::ui::{
    char_index_at, classify_compare, entry_meta, hit_test, meta_columns, qc_field_for,
    shorten_middle, CompareBadge, ControlId, ControlRegion, FieldId, FieldRegion, KeyGroup,
    LayoutMap, MetaColumns, Pane, Rect, Region, ScrollRegion, ThemeSource,
};

fn fe(name: &str, size: u64, mtime: Option<i64>) -> FileEntry {
    FileEntry {
        name: name.to_string(),
        path: name.to_string(),
        kind: EntryKind::File,
        size,
        modified: mtime.map(|s| Timestamp { secs: s, nanos: 0 }),
        permissions: None,
    }
}

#[test]
fn same_name_size_mtime_is_equal() {
    let local = vec![fe("a.txt", 10, Some(100))];
    let remote = vec![fe("a.txt", 10, Some(100))];
    assert_eq!(classify_compare("a.txt", &local, &remote), Some(CompareBadge::Equal));
}

#[test]
fn mtime_compared_at_second_resolution() {
    let mut local = fe("a.txt", 10, Some(100));
    local.modified = Some(Timestamp { secs: 100, nanos: 250_000_000 });
    let mut remote = fe("a.txt", 10, Some(100));
    remote.modified = Some(Timestamp { secs: 100, nanos: 0 });
    assert_eq!(classify_compare("a.txt", &[local.clone()], &[remote]), Some(CompareBadge::Equal));
    let later = fe("a.txt", 10, Some(101));
    assert_eq!(classify_compare("a.txt", &[local], &[later]), Some(CompareBadge::Differ));
}

#[test]
fn missing_mtime_both_equal_size_is_equal() {
    let local = vec![fe("a.txt", 10, None)];
    let remote = vec![fe("a.txt", 10, None)];
    assert_eq!(classify_compare("a.txt", &local, &remote), Some(CompareBadge::Equal));
}

#[test]
fn same_name_different_size_is_differ() {
    let local = vec![fe("a.txt", 10, Some(100))];
    let remote = vec![fe("a.txt", 20, Some(100))];
    assert_eq!(classify_compare("a.txt", &local, &remote), Some(CompareBadge::Differ));
}

#[test]
fn local_only_and_remote_only() {
    let local = vec![fe("only-l", 1, None)];
    let remote = vec![fe("only-r", 1, None)];
    assert_eq!(classify_compare("only-l", &local, &remote), Some(CompareBadge::LocalOnly));
    assert_eq!(classify_compare("only-r", &local, &remote), Some(CompareBadge::RemoteOnly));
}

#[test]
fn name_match_is_case_insensitive() {
    let local = vec![fe("Foo.TXT", 4, Some(1))];
    let remote = vec![fe("foo.txt", 4, Some(1))];
    assert_eq!(classify_compare("Foo.TXT", &local, &remote), Some(CompareBadge::Equal));
    assert_eq!(classify_compare("foo.txt", &local, &remote), Some(CompareBadge::Equal));
}

#[test]
fn skips_dot_and_dotdot() {
    let local = vec![fe(".", 0, None), fe("..", 0, None)];
    let remote = vec![fe(".", 0, None)];
    assert_eq!(classify_compare(".", &local, &remote), None);
    assert_eq!(classify_compare("..", &local, &remote), None);
}

#[test]
fn compare_one_side_missing_time_differs_and_labels() {
    let local = vec![fe("a", 1, Some(5))];
    let remote = vec![fe("a", 1, None)];
    assert_eq!(classify_compare("a", &local, &remote), Some(CompareBadge::Differ));
    assert_eq!(classify_compare("zzz", &local, &remote), None);
    assert_eq!(CompareBadge::Differ.label(), "[≠]");
    assert_eq!(CompareBadge::LocalOnly.label(), "[L]");
}

fn r(x: u16, y: u16, w: u16, h: u16) -> Rect {
    Rect::new(x, y, w, h)
}

#[test]
fn hit_test_prefers_modal_field_over_list() {
    let mut m = LayoutMap { local_list: r(0, 3, 40, 20), ..Default::default() };
    m.fields.push(FieldRegion { id: FieldId::Prompt, area: r(10, 10, 20, 1), text_x: 18 });
    assert_eq!(hit_test(&m, 12, 10), Some(Region::Field(FieldId::Prompt)));
    assert_eq!(hit_test(&m, 2, 5), Some(Region::List(Pane::Local)));
    assert_eq!(hit_test(&m, 200, 200), None);
}

#[test]
fn char_index_clamps_to_bounds() {
    let f = FieldRegion { id: FieldId::Prompt, area: r(10, 10, 20, 1), text_x: 12 };
    assert_eq!(char_index_at(&f, 12, 5), 0);
    assert_eq!(char_index_at(&f, 15, 5), 3);
    assert_eq!(char_index_at(&f, 99, 5), 5);
    assert_eq!(char_index_at(&f, 0, 5), 0);
}

#[test]
fn hit_test_order_controls_help_scrollbars() {
    let mut m = LayoutMap {
        local_list: r(0, 0, 50, 50),
        local_scrollbar: r(49, 0, 1, 50),
        queue: r(0, 40, 50, 10),
        help: Some(r(20, 20, 10, 10)),
        ..Default::default()
    };
    m.controls.push(ControlRegion { id: ControlId::BookmarkRow(3), area: r(22, 22, 2, 1) });
    assert_eq!(hit_test(&m, 22, 22), Some(Region::Control(ControlId::BookmarkRow(3))));
    assert_eq!(hit_test(&m, 21, 21), Some(Region::Scrollbar(ScrollRegion::Help)));
    assert_eq!(hit_test(&m, 49, 45), Some(Region::Scrollbar(ScrollRegion::ListLocal)));
    assert_eq!(hit_test(&m, 5, 45), Some(Region::Scrollbar(ScrollRegion::Queue)));
    assert_eq!(hit_test(&m, 5, 5), Some(Region::List(Pane::Local)));
    let empty = LayoutMap { local_list: r(0, 0, 0, 10), ..Default::default() };
    assert_eq!(hit_test(&empty, 0, 0), None);
}

#[test]
fn meta_columns_drop_suffix_from_pane_width() {
    assert!(meta_columns(31).perms);
    assert!(meta_columns(25).date && !meta_columns(25).perms);
    assert!(meta_columns(7).size && !meta_columns(7).date);
    assert!(!meta_columns(6).size);
}

#[test]
fn size_and_date_columns_align_with_and_without_perms() {
    let cols = MetaColumns { size: true, date: true, perms: true };
    let mut a = fe("a.bin", 1234, None);
    a.permissions = Some("644".to_string());
    let dot = fe(".", 0, None);
    // "1.2K" and "0" are how the pane formats 1234 and 0 bytes.
    let with = entry_meta(&a, cols, "1.2K");
    let without = entry_meta(&dot, cols, "0");
    assert_eq!(with.chars().count(), without.chars().count());
    assert_eq!(&with[..7], "   1.2K");
    assert_eq!(&without[..7], "      0");
    assert_eq!(&with[7..25], &without[7..25]);
}

#[test]
fn entry_meta_formats_the_minute() {
    let cols = MetaColumns { size: false, date: true, perms: false };
    let e = fe("x", 1, Some(1_709_251_200));
    assert_eq!(entry_meta(&e, cols, "1"), "  2024-03-01 00:00");
}

#[test]
fn shorten_middle_keeps_both_ends() {
    assert_eq!(shorten_middle("short", 10), "short");
    assert_eq!(shorten_middle("abcdefghijkl", 7), "...");
    assert_eq!(shorten_middle("abcdefghijkl", 9), "abc...jkl");
    assert_eq!(shorten_middle("abcdefghijkl", 10), "abc...jkl");
}

#[test]
fn labels_and_fields() {
    assert_eq!(KeyGroup::Connection.title(), "Connection / bookmarks");
    assert_eq!(ThemeSource::Default.label(), "default");
    assert_eq!(qc_field_for(FieldId::QcPort), Some(QuickConnectField::Port));
    assert_eq!(qc_field_for(FieldId::Prompt), None);
}

#[test]
fn queue_rows_shorten_paths_and_show_retries() {
    let mut job = dd_ftp::model::TransferJob::new(
        1,
        "/home/user/projects/website/assets/logo.png",
        "/pub/a.txt",
        dd_ftp::model::TransferDirection::Upload,
    );
    job.retries = 2;
    assert_eq!(
        dd_ftp::ui::format_job_summary(&job, "####---- 50%"),
        "up /home/use.../logo.png -> /pub/a.txt [####---- 50%] r2"
    );
}
