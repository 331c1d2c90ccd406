use dd_ftp::theme::{colours_safe, hex_slices_safe, map_theme, parse_hex, parse_theme_text, Rgb, Theme};

fn rgb(r: u8, g: u8, b: u8) -> Rgb {
    Rgb { r, g, b }
}

#[test]
fn parse_hex_reads_rrggbb_with_or_without_hash() {
    assert_eq!(parse_hex("#6ec8ff"), Some(rgb(0x6e, 0xc8, 0xff)));
    assert_eq!(parse_hex("6EC8FF"), Some(rgb(0x6e, 0xc8, 0xff)));
    assert_eq!(parse_hex("  #0f1114 "), Some(rgb(0x0f, 0x11, 0x14)));
    assert_eq!(parse_hex("##0f1114"), Some(rgb(0x0f, 0x11, 0x14)));
}

#[test]
fn parse_hex_rejects_bad_colours() {
    assert_eq!(parse_hex("#6ec8f"), None);
    assert_eq!(parse_hex("#6ec8fff"), None);
    assert_eq!(parse_hex("#gggggg"), None);
    assert_eq!(parse_hex(""), None);
    assert_eq!(parse_hex("#-1-1-1"), None);
}

#[test]
fn parse_hex_takes_a_plus_sign_per_byte() {
    assert_eq!(parse_hex("+f+f+f"), Some(rgb(15, 15, 15)));
}

#[test]
fn hex_slices_safe_flags_cut_characters() {
    assert!(hex_slices_safe("#6ec8ff"));
    assert!(hex_slices_safe("é"));
    assert!(hex_slices_safe("éé12"));
    assert_eq!(parse_hex("éé12"), None);
    assert!(!hex_slices_safe("aé123"));
}

fn sample_text() -> String {
    let keys = [
        ("base_background", "#000001"),
        ("body_background", "#000002"),
        ("modal_background", "#000003"),
        ("text_primary", "#000004"),
        ("text_secondary", "#000005"),
        ("text_labels", "#000006"),
        ("modal_labels", "#000007"),
        ("modal_text", "#000008"),
        ("selected_background", "#000009"),
        ("border_default", "#00000a"),
        ("border_active", "#00000b"),
        ("input_border_default", "#00000c"),
        ("input_border_focus", "#00000d"),
        ("input_text_default", "#00000e"),
        ("input_text_focus", "#00000f"),
        ("success", "#000010"),
        ("warning", "#000011"),
        ("error", "#000012"),
        ("info", "\"#000013\""),
    ];
    let mut text = String::from("# my theme\ncolors:\n\n");
    for (k, v) in keys {
        text.push_str(&format!("  {k}: {v}\r\n"));
    }
    text
}

#[test]
fn plain_theme_text_reads_every_required_key() {
    let c = parse_theme_text(&sample_text()).unwrap();
    assert_eq!(c.base_background, "#000001");
    assert_eq!(c.info, "#000013");
    assert_eq!(c.cursor, None);
    assert_eq!(c.folders, None);
}

#[test]
fn plain_theme_text_last_line_wins_and_optional_keys_are_read() {
    let text = format!("{}base_background: #abcdef\nfolders: #123456\n", sample_text());
    let c = parse_theme_text(&text).unwrap();
    assert_eq!(c.base_background, "#abcdef");
    assert_eq!(c.folders.as_deref(), Some("#123456"));
}

#[test]
fn plain_theme_text_names_the_first_missing_key() {
    let text = sample_text().replace("  modal_text: #000008\r\n", "");
    assert_eq!(
        parse_theme_text(&text).unwrap_err(),
        "missing theme key: modal_text"
    );
    assert_eq!(
        parse_theme_text("").unwrap_err(),
        "missing theme key: base_background"
    );
}

#[test]
fn map_theme_keeps_builtin_colours_for_unreadable_ones() {
    let mut c = parse_theme_text(&sample_text()).unwrap();
    c.text_primary = "not a colour".to_string();
    c.text_active_focus = Some("#010203".to_string());
    assert!(colours_safe(&c));
    let t = map_theme(&c);
    let d = Theme::default();
    assert_eq!(t.base_background, rgb(0, 0, 1));
    assert_eq!(t.text_primary, d.text_primary);
    assert_eq!(t.text_labels_active, rgb(1, 2, 3));
    assert_eq!(t.text_active_focus, rgb(1, 2, 3));
    assert_eq!(t.cursor, d.cursor);
    assert_eq!(t.info, rgb(0, 0, 0x13));
}

#[test]
fn default_theme_matches_the_builtin_palette() {
    let d = Theme::default();
    assert_eq!(d.base_background, rgb(0x0f, 0x11, 0x14));
    assert_eq!(d.border_active, rgb(0x6e, 0xc8, 0xff));
    assert_eq!(d.link, rgb(0xf5, 0xc4, 0x69));
}
