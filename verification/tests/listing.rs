use chrono::{Datelike, Timelike};
use dd_ftp::listing::{
    extract_filename_from_list_line, is_total_header, is_unix_perm, join_ftp_path,
    parse_list_entries, parse_list_entries_at, parse_ls_date, unix_mode_octal,
};
use dd_ftp::model::{EntryKind, Timestamp};

fn utc(t: Timestamp) -> chrono::DateTime<chrono::Utc> {
    chrono::DateTime::<chrono::Utc>::from_timestamp(t.secs, t.nanos).expect("in range")
}

#[test]
fn parse_list_entries_unix_file() {
    let entries = parse_list_entries(
        "/pub",
        vec!["-rw-r--r-- 1 user group 1234 Jan  2 12:00 file.bin".into()],
    );
    assert_eq!(entries.len(), 1);
    let e = &entries[0];
    assert_eq!(e.name, "file.bin");
    assert_eq!(e.path, "/pub/file.bin");
    assert!(!e.path.contains("-rw-"), "path must be join(base, name), not the LIST line");
    assert_eq!(e.size, 1234);
    assert_eq!(e.kind, EntryKind::File);
    let dt = utc(e.modified.expect("unix LIST mtime"));
    assert_eq!(dt.month(), 1);
    assert_eq!(dt.day(), 2);
    assert_eq!(dt.hour(), 12);
    assert_eq!(dt.minute(), 0);
    assert_eq!(e.permissions.as_deref(), Some("644"));
}

#[test]
fn parse_list_entries_unix_dir() {
    let entries = parse_list_entries(
        "/pub",
        vec!["drwxr-xr-x 2 user group 4096 Jan  2  2025 dirname".into()],
    );
    assert_eq!(entries.len(), 1);
    let e = &entries[0];
    assert_eq!(e.name, "dirname");
    assert_eq!(e.path, "/pub/dirname");
    assert_eq!(e.kind, EntryKind::Directory);
    assert_eq!(e.size, 4096);
    let dt = utc(e.modified.expect("unix LIST mtime"));
    assert_eq!(dt.year(), 2025);
    assert_eq!(dt.month(), 1);
    assert_eq!(dt.day(), 2);
    assert_eq!(e.permissions.as_deref(), Some("755"));
}

#[test]
fn parse_list_entries_symlink_uses_name_before_arrow() {
    let entries = parse_list_entries(
        "/pub",
        vec!["lrwxrwxrwx 1 user group 8 Jan  2 12:00 linkname -> target".into()],
    );
    assert_eq!(entries.len(), 1);
    let e = &entries[0];
    assert_eq!(e.name, "linkname");
    assert_eq!(e.path, "/pub/linkname");
    assert!(!e.name.contains("->"));
    assert_eq!(e.kind, EntryKind::Symlink);
}

#[test]
fn parse_list_entries_garbage_line() {
    let line = "this is not a listing";
    let entries = parse_list_entries("/pub", vec![line.into()]);
    assert_eq!(entries.len(), 1);
    let e = &entries[0];
    assert_eq!(e.name, extract_filename_from_list_line(line));
    assert_eq!(e.path, join_ftp_path("/pub", &e.name));
    assert_ne!(e.path, line);
    assert_eq!(e.size, 0);
    assert!(e.modified.is_none());
    assert!(e.permissions.is_none());
}

#[test]
fn parse_list_entries_skips_total_header() {
    let entries = parse_list_entries(
        "/pub",
        vec![
            "total 64".into(),
            "Total 128".into(),
            "-rw-r--r-- 1 user group 1 Jan  2 12:00 a.txt".into(),
        ],
    );
    assert_eq!(entries.len(), 1);
    assert_eq!(entries[0].name, "a.txt");
    assert!(entries.iter().all(|e| !e.name.to_lowercase().starts_with("total")));
}

#[test]
fn parse_list_entries_skips_dot_and_dotdot() {
    let entries = parse_list_entries(
        "/pub",
        vec![
            "drwxr-xr-x 2 user group 4096 Jan  2 12:00 .".into(),
            "drwxr-xr-x 2 user group 4096 Jan  2 12:00 ..".into(),
            "-rw-r--r-- 1 user group 1 Jan  2 12:00 a.txt".into(),
        ],
    );
    assert_eq!(entries.len(), 1);
    assert_eq!(entries[0].name, "a.txt");
    assert_eq!(entries[0].path, "/pub/a.txt");
}

#[test]
fn parse_list_entries_dos_stays_name_only() {
    let entries = parse_list_entries("/pub", vec!["01-02-26  12:00PM               1234 file.bin".into()]);
    assert_eq!(entries.len(), 1);
    let e = &entries[0];
    assert_eq!(e.size, 0);
    assert!(e.modified.is_none());
    assert!(e.permissions.is_none());
    assert_eq!(e.path, join_ftp_path("/pub", &e.name));
    assert!(!e.path.contains("12:00PM") || e.name.contains("12:00PM"));
}

#[test]
fn time_of_day_after_now_is_last_year() {
    // 2024-03-01T00:00:00Z
    let now = Timestamp { secs: 1_709_251_200, nanos: 0 };
    let past = utc(parse_ls_date("Feb", "29", "10:30", now).unwrap());
    assert_eq!((past.year(), past.month(), past.day(), past.hour(), past.minute()), (2024, 2, 29, 10, 30));
    let later = utc(parse_ls_date("dec", "25", "08:00", now).unwrap());
    assert_eq!((later.year(), later.month(), later.day()), (2023, 12, 25));
    assert!(parse_ls_date("Foo", "1", "2020", now).is_none());
    assert!(parse_ls_date("Jan", "32", "2020", now).is_none());
    assert!(parse_ls_date("Jan", "1", "25:00", now).is_none());
    let fixed = parse_ls_date("Jan", "1", "1970", now).unwrap();
    assert_eq!(fixed, Timestamp { secs: 0, nanos: 0 });
}

#[test]
fn listing_at_a_fixed_time_is_deterministic() {
    let now = Timestamp { secs: 1_709_251_200, nanos: 0 };
    let lines = vec![
        "".to_string(),
        "   ".to_string(),
        "-rw-r--r-- 1 u g 7 Mar  1 00:00 a b.txt".to_string(),
        "-rw-r--r-- 1 u g notanumber Mar  1 00:00 bad".to_string(),
    ];
    let a = parse_list_entries_at("/", &lines, now);
    assert_eq!(a.len(), 2);
    assert_eq!(a[0].name, "a b.txt");
    assert_eq!(a[0].path, "/a b.txt");
    assert_eq!(a[0].modified, Some(now));
    assert_eq!(a[1].name, "bad");
    assert_eq!(a[1].size, 0);
    assert_eq!(a, parse_list_entries_at("/", &lines, now));
}

#[test]
fn list_line_helpers() {
    assert!(is_total_header("TOTAL 12"));
    assert!(!is_total_header("total x"));
    assert!(!is_total_header("total"));
    assert!(is_unix_perm("drwxr-xr-x"));
    assert!(!is_unix_perm("xrwxr-xr-x"));
    assert!(!is_unix_perm("drwx"));
    assert_eq!(unix_mode_octal("-rwsr-sr-t").as_deref(), Some("7755"));
    assert_eq!(unix_mode_octal("-rwSr-Sr-T").as_deref(), Some("7644"));
    assert_eq!(unix_mode_octal("-rw"), None);
    assert_eq!(join_ftp_path("", "x"), "/x");
    assert_eq!(join_ftp_path("/pub/", "x"), "/pub/x");
    assert_eq!(extract_filename_from_list_line("a b c d e f g h name with spaces"), "name with spaces");
    assert_eq!(extract_filename_from_list_line("a b c d e f g name"), "name");
    assert_eq!(extract_filename_from_list_line("short line"), "short line");
}
