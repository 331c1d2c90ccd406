//! What a mouse event asks for, given the region it lands on.
use vstd::prelude::*;
use crate::panes::listing;
use crate::state::{AppState, AppView, FocusPane, PromptKind, QuickConnectField, modal_open};
use crate::ui::{qc_field_for, qc_field_of, ControlId, FieldId, LayoutMap, Pane, Region, ScrollRegion};

verus! {

/// Rows one wheel notch moves.
pub const SCROLL_STEP: usize = 3;

/// What the event loop is to do about a mouse event.
#[derive(Debug, Clone, Copy, PartialEq, Eq, Structural)]
pub enum MouseCommand {
    Nothing,
    /// Focus a pane and move its selection `SCROLL_STEP` rows.
    ScrollPane { pane: FocusPane, up: bool },
    /// Scroll the queue `SCROLL_STEP` lines.
    ScrollQueue { up: bool },
    /// Scroll help `SCROLL_STEP` lines.
    ScrollHelp { up: bool },
    /// Focus a pane and select one of its rows; a double click opens it.
    SelectRow { pane: FocusPane, index: usize, open: bool },
    /// Focus a pane without selecting (a click on its border or below its rows).
    Focus(FocusPane),
    CycleProtocol,
    /// Select a bookmark; a double click loads it into quick connect.
    SelectBookmark { index: usize, load: bool },
    /// Start dragging a scrollbar.
    DragScrollbar(ScrollRegion),
    /// Start a selection in the prompt's text at the pointer.
    SelectInPrompt,
    /// Switch quick connect to a field and start a selection at the pointer.
    SelectInField(QuickConnectField),
}

/// The pane a list region shows.
pub open spec fn pane_focus(p: Pane) -> FocusPane {
    match p {
        Pane::Local => FocusPane::Local,
        Pane::Remote => FocusPane::Remote,
    }
}

/// How many rows the pane `p` lists.
pub open spec fn row_count(s: AppView, p: Pane) -> nat {
    match p {
        Pane::Local => listing(s.local_entries, s.filter_pattern, s.hide_dotfiles, s.sort_key, s.sort_asc).len(),
        Pane::Remote => listing(s.remote_entries, s.filter_pattern, s.hide_dotfiles, s.sort_key, s.sort_asc).len(),
    }
}

/// The wheel over `region`: the panes (and their scrollbars) move their
/// selection while no dialog is open; the queue and help scroll.
pub open spec fn wheel_decision(s: AppView, region: Option<Region>, up: bool) -> MouseCommand {
    match region {
        Some(Region::List(p)) => if !modal_open(s) {
            MouseCommand::ScrollPane { pane: pane_focus(p), up }
        } else {
            MouseCommand::Nothing
        },
        Some(Region::Scrollbar(ScrollRegion::ListLocal)) => if !modal_open(s) {
            MouseCommand::ScrollPane { pane: FocusPane::Local, up }
        } else {
            MouseCommand::Nothing
        },
        Some(Region::Scrollbar(ScrollRegion::ListRemote)) => if !modal_open(s) {
            MouseCommand::ScrollPane { pane: FocusPane::Remote, up }
        } else {
            MouseCommand::Nothing
        },
        Some(Region::Scrollbar(ScrollRegion::Queue)) => MouseCommand::ScrollQueue { up },
        Some(Region::Scrollbar(ScrollRegion::Help)) => MouseCommand::ScrollHelp { up },
        _ => MouseCommand::Nothing,
    }
}

/// A click at row `y` of a list whose box starts at row `top` and whose
/// first shown row is `offset`: the row under the pointer, below the top
/// border, when there is one.
pub open spec fn row_pick(p: Pane, top: u16, y: u16, offset: usize, count: nat, double: bool) -> MouseCommand {
    let row = y - (top + 1);
    if row >= 0 && offset + row < count {
        MouseCommand::SelectRow { pane: pane_focus(p), index: (offset + row) as usize, open: double }
    } else {
        MouseCommand::Focus(pane_focus(p))
    }
}

/// A left click on `region` at row `y`; `double` when it repeats the last
/// click in place, `offsets` the first shown rows of the two panes.
pub open spec fn click_decision(
    s: AppView,
    layout: LayoutMap,
    region: Option<Region>,
    y: u16,
    double: bool,
    local_offset: usize,
    remote_offset: usize,
) -> MouseCommand {
    match region {
        Some(Region::List(p)) => if !modal_open(s) {
            match p {
                Pane::Local => row_pick(p, layout.local_list.y, y, local_offset, row_count(s, p), double),
                Pane::Remote => row_pick(p, layout.remote_list.y, y, remote_offset, row_count(s, p), double),
            }
        } else {
            MouseCommand::Nothing
        },
        Some(Region::Control(c)) => if s.show_prompt {
            MouseCommand::Nothing
        } else {
            match c {
                ControlId::QcProtocol => MouseCommand::CycleProtocol,
                ControlId::BookmarkRow(i) => MouseCommand::SelectBookmark {
                    index: if s.bookmarks.len() == 0 {
                        0
                    } else if i < s.bookmarks.len() {
                        i
                    } else {
                        (s.bookmarks.len() - 1) as usize
                    },
                    load: double,
                },
            }
        },
        Some(Region::Scrollbar(sr)) => if sr == ScrollRegion::Help || !modal_open(s) {
            MouseCommand::DragScrollbar(sr)
        } else {
            MouseCommand::Nothing
        },
        Some(Region::Field(fid)) => if fid == FieldId::Prompt {
            if s.prompt_kind matches Some(PromptKind::Text(_)) {
                MouseCommand::SelectInPrompt
            } else {
                MouseCommand::Nothing
            }
        } else {
            match qc_field_of(fid) {
                Some(f) => MouseCommand::SelectInField(f),
                None => MouseCommand::Nothing,
            }
        },
        None => MouseCommand::Nothing,
    }
}

/// What the wheel over `region` asks for.
pub fn wheel_command(app: &AppState, region: Option<Region>, up: bool) -> (r: MouseCommand)
    ensures
        r == wheel_decision(app@, region, up),
{
    let modal = app.any_modal_open();
    match region {
        Some(Region::List(p)) => if !modal {
            let pane = match p {
                Pane::Local => FocusPane::Local,
                Pane::Remote => FocusPane::Remote,
            };
            MouseCommand::ScrollPane { pane, up }
        } else {
            MouseCommand::Nothing
        },
        Some(Region::Scrollbar(ScrollRegion::ListLocal)) => if !modal {
            MouseCommand::ScrollPane { pane: FocusPane::Local, up }
        } else {
            MouseCommand::Nothing
        },
        Some(Region::Scrollbar(ScrollRegion::ListRemote)) => if !modal {
            MouseCommand::ScrollPane { pane: FocusPane::Remote, up }
        } else {
            MouseCommand::Nothing
        },
        Some(Region::Scrollbar(ScrollRegion::Queue)) => MouseCommand::ScrollQueue { up },
        Some(Region::Scrollbar(ScrollRegion::Help)) => MouseCommand::ScrollHelp { up },
        _ => MouseCommand::Nothing,
    }
}

fn row_pick_exec(p: Pane, top: u16, y: u16, offset: usize, count: usize, double: bool) -> (r: MouseCommand)
    ensures
        r == row_pick(p, top, y, offset, count as nat, double),
{
    let pane = match p {
        Pane::Local => FocusPane::Local,
        Pane::Remote => FocusPane::Remote,
    };
    let content_top = top as u32 + 1;
    if (y as u32) < content_top {
        return MouseCommand::Focus(pane);
    }
    let row = (y as u32 - content_top) as usize;
    if row < count && offset < count - row {
        MouseCommand::SelectRow { pane, index: offset + row, open: double }
    } else {
        MouseCommand::Focus(pane)
    }
}

/// What a left click on `region` at row `y` asks for.
pub fn click_command(
    app: &AppState,
    layout: &LayoutMap,
    region: Option<Region>,
    y: u16,
    double: bool,
    local_offset: usize,
    remote_offset: usize,
) -> (r: MouseCommand)
    ensures
        r == click_decision(app@, *layout, region, y, double, local_offset, remote_offset),
{
    let modal = app.any_modal_open();
    match region {
        Some(Region::List(p)) => if !modal {
            match p {
                Pane::Local => {
                    let n = app.visible_local_indices().len();
                    row_pick_exec(p, layout.local_list.y, y, local_offset, n, double)
                },
                Pane::Remote => {
                    let n = app.visible_remote_indices().len();
                    row_pick_exec(p, layout.remote_list.y, y, remote_offset, n, double)
                },
            }
        } else {
            MouseCommand::Nothing
        },
        Some(Region::Control(c)) => if app.show_prompt {
            MouseCommand::Nothing
        } else {
            match c {
                ControlId::QcProtocol => MouseCommand::CycleProtocol,
                ControlId::BookmarkRow(i) => {
                    let n = app.bookmarks.len();
                    let index = if n == 0 {
                        0
                    } else if i < n {
                        i
                    } else {
                        n - 1
                    };
                    MouseCommand::SelectBookmark { index, load: double }
                },
            }
        },
        Some(Region::Scrollbar(sr)) => if sr == ScrollRegion::Help || !modal {
            MouseCommand::DragScrollbar(sr)
        } else {
            MouseCommand::Nothing
        },
        Some(Region::Field(fid)) => if fid == FieldId::Prompt {
            if app.is_text_prompt() {
                MouseCommand::SelectInPrompt
            } else {
                MouseCommand::Nothing
            }
        } else {
            match qc_field_for(fid) {
                Some(f) => MouseCommand::SelectInField(f),
                None => MouseCommand::Nothing,
            }
        },
        None => MouseCommand::Nothing,
    }
}

/// With a dialog open, a click or the wheel never changes the panes'
/// selection.
pub proof fn law_dialogs_shield_panes_from_mouse(
    s: AppView,
    layout: LayoutMap,
    region: Option<Region>,
    y: u16,
    double: bool,
    lo: usize,
    ro: usize,
    up: bool,
)
    requires
        modal_open(s),
    ensures
        !(click_decision(s, layout, region, y, double, lo, ro) is SelectRow),
        !(click_decision(s, layout, region, y, double, lo, ro) is Focus),
        !(wheel_decision(s, region, up) is ScrollPane),
{
}

/// A selected row is always one the pane lists.
pub proof fn law_clicks_select_listed_rows(
    s: AppView,
    layout: LayoutMap,
    region: Option<Region>,
    y: u16,
    double: bool,
    lo: usize,
    ro: usize,
)
    ensures
        click_decision(s, layout, region, y, double, lo, ro) matches MouseCommand::SelectRow { pane, index, open }
            ==> index < row_count(s, if pane == FocusPane::Local { Pane::Local } else { Pane::Remote }),
{
}

} // verus!
