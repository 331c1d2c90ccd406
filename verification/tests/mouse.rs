use dd_ftp::model::{EntryKind, FileEntry};
use dd_ftp::mouse::{click_command, wheel_command, MouseCommand};
use dd_ftp::state::{AppState, FocusPane, QuickConnectField};
use dd_ftp::ui::{ControlId, FieldId, LayoutMap, Pane, Rect, Region, ScrollRegion};

fn entry(name: &str) -> FileEntry {
    FileEntry {
        name: name.to_string(),
        path: format!("/tmp/{name}"),
        kind: EntryKind::File,
        size: 1,
        modified: None,
        permissions: None,
    }
}

fn layout() -> LayoutMap {
    let mut l = LayoutMap::default();
    l.local_list = Rect::new(0, 2, 40, 10);
    l.remote_list = Rect::new(40, 2, 40, 10);
    l
}

#[test]
fn click_selects_the_row_under_the_pointer() {
    let mut app = AppState::default();
    app.local_entries = vec![entry("a"), entry("b"), entry("c")];
    let l = layout();
    let r = Some(Region::List(Pane::Local));
    assert_eq!(
        click_command(&app, &l, r, 4, false, 0, 0),
        MouseCommand::SelectRow { pane: FocusPane::Local, index: 1, open: false }
    );
    assert_eq!(
        click_command(&app, &l, r, 3, true, 1, 0),
        MouseCommand::SelectRow { pane: FocusPane::Local, index: 1, open: true }
    );
    assert_eq!(click_command(&app, &l, r, 2, false, 0, 0), MouseCommand::Focus(FocusPane::Local));
    assert_eq!(click_command(&app, &l, r, 9, false, 0, 0), MouseCommand::Focus(FocusPane::Local));
}

#[test]
fn dialogs_keep_clicks_and_wheel_off_the_panes() {
    let mut app = AppState::default();
    app.local_entries = vec![entry("a")];
    app.show_help = true;
    let l = layout();
    let r = Some(Region::List(Pane::Local));
    assert_eq!(click_command(&app, &l, r, 3, false, 0, 0), MouseCommand::Nothing);
    assert_eq!(wheel_command(&app, r, true), MouseCommand::Nothing);
    assert_eq!(
        wheel_command(&app, Some(Region::Scrollbar(ScrollRegion::Help)), false),
        MouseCommand::ScrollHelp { up: false }
    );
}

#[test]
fn wheel_over_a_pane_scrolls_it() {
    let app = AppState::default();
    assert_eq!(
        wheel_command(&app, Some(Region::Scrollbar(ScrollRegion::ListRemote)), true),
        MouseCommand::ScrollPane { pane: FocusPane::Remote, up: true }
    );
    assert_eq!(
        wheel_command(&app, Some(Region::Scrollbar(ScrollRegion::Queue)), true),
        MouseCommand::ScrollQueue { up: true }
    );
    assert_eq!(wheel_command(&app, None, true), MouseCommand::Nothing);
}

#[test]
fn controls_and_fields() {
    let mut app = AppState::default();
    let l = layout();
    assert_eq!(
        click_command(&app, &l, Some(Region::Control(ControlId::QcProtocol)), 0, false, 0, 0),
        MouseCommand::CycleProtocol
    );
    assert_eq!(
        click_command(&app, &l, Some(Region::Control(ControlId::BookmarkRow(5))), 0, true, 0, 0),
        MouseCommand::SelectBookmark { index: 0, load: true }
    );
    assert_eq!(
        click_command(&app, &l, Some(Region::Field(FieldId::QcHost)), 0, false, 0, 0),
        MouseCommand::SelectInField(QuickConnectField::Host)
    );
    assert_eq!(
        click_command(&app, &l, Some(Region::Field(FieldId::Prompt)), 0, false, 0, 0),
        MouseCommand::Nothing
    );
    app.show_prompt = true;
    assert_eq!(
        click_command(&app, &l, Some(Region::Control(ControlId::QcProtocol)), 0, false, 0, 0),
        MouseCommand::Nothing
    );
}
