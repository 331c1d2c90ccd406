use dd_ftp::config::resolve_editor_with;
use dd_ftp::paths::{
    edit_cache_path, join_remote_path, parent_remote_path, remote_basename, remote_mkdir_chain,
    safe_local_child, safe_remote_child, sanitize_component,
};
use std::path::Path;

#[test]
fn cache_path_drops_dotdot_and_separators() {
    let s = edit_cache_path("/home/u/.cache/dd_ftp/edit", "ex.com", 22, "/etc/../passwd");
    assert!(s.contains("ex.com_22"));
    assert!(s.ends_with("passwd") || s.contains("passwd"));
    assert!(!s.contains(".."));
}

#[test]
fn cache_path_is_under_root_with_sanitized_parts() {
    assert_eq!(
        edit_cache_path("/c", "my host", 2222, "/a b/c.txt"),
        "/c/my_host_2222/a_b/c.txt"
    );
    assert_eq!(edit_cache_path("/c", "h", 21, "/"), "/c/h_21/file");
    assert_eq!(edit_cache_path("/c", "h", 21, "a\\b"), "/c/h_21/a/b");
}

#[test]
fn sanitize_component_replaces_unsafe() {
    assert_eq!(sanitize_component("a b/c"), "a_b_c");
    assert_eq!(sanitize_component(".."), "_");
    assert_eq!(sanitize_component(""), "_");
}

#[test]
fn resolve_editor_precedence() {
    assert_eq!(resolve_editor_with(Some("code -w"), Some("nano"), "hx"), "code -w");
    assert_eq!(resolve_editor_with(None, Some("nano"), "hx"), "nano");
    assert_eq!(resolve_editor_with(None, None, "hx"), "hx");
    assert_eq!(resolve_editor_with(None, Some("  "), "  hx  "), "hx");
    assert_eq!(resolve_editor_with(None, None, ""), "vi");
}

#[test]
fn join_remote_path_joins_base_and_name() {
    assert_eq!(join_remote_path("/pub", "file.bin"), "/pub/file.bin");
    assert_eq!(join_remote_path("/", "file.bin"), "/file.bin");
}

#[test]
fn safe_local_child_table() {
    let cwd = "/tmp/pane";
    struct Case {
        name: &'static str,
        ok: bool,
    }
    let cases = [
        Case { name: "foo", ok: true },
        Case { name: ".", ok: false },
        Case { name: "..", ok: false },
        Case { name: "/etc/passwd", ok: false },
        Case { name: "foo/bar", ok: false },
        Case { name: "foo/../../etc", ok: false },
    ];
    for case in cases {
        let got = safe_local_child(cwd, case.name);
        assert_eq!(got.is_ok(), case.ok, "local name {:?}", case.name);
        if case.ok {
            assert_eq!(Path::new(&got.unwrap()), Path::new(cwd).join("foo"));
        }
    }
}

#[test]
fn safe_remote_child_table() {
    struct Case {
        name: &'static str,
        ok: bool,
    }
    let cases = [
        Case { name: "foo", ok: true },
        Case { name: ".", ok: false },
        Case { name: "..", ok: false },
        Case { name: "/etc/passwd", ok: false },
        Case { name: "foo/bar", ok: false },
        Case { name: "foo/../../etc", ok: false },
        Case { name: "/leading", ok: false },
    ];
    for case in cases {
        let got = safe_remote_child("/pub", case.name);
        assert_eq!(got.is_ok(), case.ok, "remote name {:?}", case.name);
        if case.ok {
            assert_eq!(got.unwrap(), "/pub/foo");
        }
    }
}

#[test]
fn parent_and_basename_of_remote_paths() {
    assert_eq!(parent_remote_path("/pub/a/b.txt"), "/pub/a");
    assert_eq!(parent_remote_path("/b.txt"), "/");
    assert_eq!(remote_basename("/pub/a/b.txt"), "b.txt");
    assert_eq!(remote_basename("b.txt"), "b.txt");
}

#[test]
fn mkdir_chain_lists_each_missing_parent() {
    assert_eq!(
        remote_mkdir_chain("/pub", "/pub/a/b").unwrap(),
        vec!["/pub/a".to_string(), "/pub/a/b".to_string()]
    );
    assert!(remote_mkdir_chain("/pub", "/pub").unwrap().is_empty());
    assert!(remote_mkdir_chain("/pub", "").unwrap().is_empty());
    assert_eq!(remote_mkdir_chain("/", "/x").unwrap(), vec!["/x".to_string()]);
}
