use dd_ftp::text_field::TextField;

fn tf(s: &str, cursor: usize) -> TextField {
    TextField {
        value: s.to_string(),
        cursor,
        anchor: None,
    }
}

#[test]
fn insert_at_cursor() {
    let mut f = tf("ac", 1);
    f.insert_char('b');
    assert_eq!(f.value, "abc");
    assert_eq!(f.cursor, 2);
}

#[test]
fn backspace_removes_left_of_cursor() {
    let mut f = tf("abc", 2);
    f.backspace();
    assert_eq!(f.value, "ac");
    assert_eq!(f.cursor, 1);
}

#[test]
fn typing_replaces_active_selection() {
    let mut f = TextField {
        value: "hello".into(),
        cursor: 4,
        anchor: Some(1),
    };
    f.insert_char('X');
    assert_eq!(f.value, "hXo");
    assert_eq!(f.cursor, 2);
    assert_eq!(f.anchor, None);
}

#[test]
fn backspace_deletes_active_selection() {
    let mut f = TextField {
        value: "hello".into(),
        cursor: 1,
        anchor: Some(4),
    };
    f.backspace();
    assert_eq!(f.value, "ho");
    assert_eq!(f.cursor, 1);
    assert_eq!(f.anchor, None);
}

#[test]
fn move_right_with_shift_extends_selection() {
    let mut f = tf("abc", 0);
    f.move_cursor(1, true);
    assert_eq!(f.anchor, Some(0));
    assert_eq!(f.cursor, 1);
    f.move_cursor(1, false);
    assert_eq!(f.anchor, None);
}

#[test]
fn set_and_drag_cursor_clamp() {
    let mut f = tf("abc", 0);
    f.set_cursor(99);
    assert_eq!(f.cursor, 3);
    f.begin_drag(1);
    assert_eq!(f.anchor, Some(1));
    f.extend_drag(99);
    assert_eq!(f.cursor, 3);
    assert_eq!(f.anchor, Some(1));
}

#[test]
fn delete_word_left() {
    let mut f = tf("foo bar", 7);
    f.delete_word_left();
    assert_eq!(f.value, "foo ");
    assert_eq!(f.cursor, 4);
}

#[test]
fn home_end() {
    let mut f = tf("abc", 1);
    f.move_home(false);
    assert_eq!(f.cursor, 0);
    f.move_end(false);
    assert_eq!(f.cursor, 3);
}

#[test]
fn multibyte_text_is_edited_by_character() {
    let mut f = tf("añb", 2);
    f.backspace();
    assert_eq!(f.value, "ab");
    assert_eq!(f.cursor, 1);
    f.insert_char('é');
    assert_eq!(f.value, "aéb");
    assert_eq!(f.len(), 3);
}

#[test]
fn delete_removes_right_of_cursor_and_selection() {
    let mut f = tf("abc", 0);
    f.delete();
    assert_eq!(f.value, "bc");
    assert_eq!(f.cursor, 0);
    let mut g = TextField {
        value: "hello".into(),
        cursor: 0,
        anchor: Some(5),
    };
    g.delete();
    assert_eq!(g.value, "");
    assert_eq!(g.cursor, 0);
    assert_eq!(g.anchor, None);
}

#[test]
fn selected_range_orders_and_ignores_empty() {
    let f = TextField {
        value: "hello".into(),
        cursor: 1,
        anchor: Some(4),
    };
    assert_eq!(f.selected_range(), Some((1, 4)));
    let g = TextField {
        value: "hello".into(),
        cursor: 2,
        anchor: Some(2),
    };
    assert_eq!(g.selected_range(), None);
}

#[test]
fn from_str_puts_cursor_at_end() {
    let f = TextField::from_str("héllo");
    assert_eq!(f.cursor, 5);
    assert_eq!(f.anchor, None);
    assert!(!f.is_empty());
    assert!(TextField::default().is_empty());
}

#[test]
fn delete_word_left_skips_trailing_spaces() {
    let mut f = tf("foo bar  ", 9);
    f.delete_word_left();
    assert_eq!(f.value, "foo ");
    assert_eq!(f.cursor, 4);
}

#[test]
fn backspace_after_typing_restores_field() {
    let mut f = TextField::from_str("hllo");
    f.set_cursor(1);
    f.insert_char('e');
    assert_eq!(f.value, "hello");
    f.backspace();
    assert_eq!(f.value, "hllo");
    assert_eq!(f.cursor, 1);
    assert_eq!(f.anchor, None);
}

#[test]
fn edits_keep_cursor_within_value() {
    let mut f = TextField::from_str("abc");
    f.move_cursor(1, false);
    assert!(f.cursor <= f.value.chars().count());
    f.begin_drag(99);
    assert_eq!(f.cursor, 3);
    f.extend_drag(0);
    f.backspace();
    assert_eq!(f.value, "");
    assert!(f.cursor <= f.value.chars().count());
}

#[test]
fn typing_replaces_selected_text() {
    let mut f = TextField::from_str("hello world");
    f.begin_drag(0);
    f.extend_drag(5);
    f.insert_char('J');
    assert_eq!(f.value, "J world");
    assert_eq!(f.cursor, 1);
    assert_eq!(f.anchor, None);
}

#[test]
fn delete_word_left_is_allowed_within_the_text_or_with_a_selection() {
    let f = TextField::from_str("ab cd");
    assert!(f.delete_word_left_allowed());
    let mut g = TextField::from_str("ab");
    g.cursor = 9;
    assert!(!g.delete_word_left_allowed());
    g.anchor = Some(0);
    assert!(g.delete_word_left_allowed());
}
