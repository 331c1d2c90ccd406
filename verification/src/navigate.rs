//! Moving the panes into a folder or up to the parent folder.
use vstd::prelude::*;
use crate::drain::{local_parent, path_parent};
use crate::model::EntryKind;
use crate::paths::{join_remote, join_remote_path, parent_remote, parent_remote_path};
use crate::state::{AppState, AppView, FocusPane, row_at, visible_local_of, visible_remote_of};

verus! {

/// Where a navigation key takes the focused pane.
#[derive(Debug, Clone, PartialEq, Eq)]
pub enum NavPlan {
    Nothing,
    /// The remote pane is focused but there is no connection.
    NotConnected,
    /// The selected remote row, named here, is not a folder.
    NotDirectory(String),
    /// The local pane shows this folder next.
    LocalCwd(String),
    /// The remote pane lists this folder next.
    RemoteCwd(String),
}

/// A plan with its texts as characters.
pub enum NavView {
    Nothing,
    NotConnected,
    NotDirectory(Seq<char>),
    LocalCwd(Seq<char>),
    RemoteCwd(Seq<char>),
}

impl View for NavPlan {
    type V = NavView;

    open spec fn view(&self) -> NavView {
        match self {
            NavPlan::Nothing => NavView::Nothing,
            NavPlan::NotConnected => NavView::NotConnected,
            NavPlan::NotDirectory(n) => NavView::NotDirectory(n@),
            NavPlan::LocalCwd(p) => NavView::LocalCwd(p@),
            NavPlan::RemoteCwd(p) => NavView::RemoteCwd(p@),
        }
    }
}

/// Entering the selected row: a local folder is shown by its path; a remote
/// folder is listed under the remote folder (when connected); a remote row
/// that is not a folder is reported.
pub open spec fn enter_plan_of(s: AppView) -> NavView {
    match s.focus {
        FocusPane::Local => match row_at(visible_local_of(s), s.selected_local) {
            Some(e) => if e.kind == EntryKind::Directory {
                NavView::LocalCwd(e.path@)
            } else {
                NavView::Nothing
            },
            None => NavView::Nothing,
        },
        FocusPane::Remote => if !s.connected {
            NavView::NotConnected
        } else {
            match row_at(visible_remote_of(s), s.selected_remote) {
                Some(e) => if e.kind == EntryKind::Directory {
                    NavView::RemoteCwd(join_remote(s.remote_cwd, e.name@))
                } else {
                    NavView::NotDirectory(e.name@)
                },
                None => NavView::Nothing,
            }
        },
        FocusPane::Queue => NavView::Nothing,
    }
}

/// Going up: the local folder's parent (the folder itself when it has no
/// parent, or an empty one); the remote folder's parent (when connected).
pub open spec fn parent_plan_of(s: AppView) -> NavView {
    match s.focus {
        FocusPane::Local => NavView::LocalCwd(
            match path_parent(s.local_cwd) {
                Some(p) => if p.len() > 0 {
                    p
                } else {
                    s.local_cwd
                },
                None => s.local_cwd,
            },
        ),
        FocusPane::Remote => if !s.connected {
            NavView::NotConnected
        } else {
            NavView::RemoteCwd(parent_remote(s.remote_cwd))
        },
        FocusPane::Queue => NavView::Nothing,
    }
}

/// Where entering the selected row takes the focused pane.
pub fn enter_plan(app: &AppState) -> (r: NavPlan)
    ensures
        r@ == enter_plan_of(app@),
{
    match app.focus {
        FocusPane::Local => match app.selected_local_entry() {
            Some(e) => if e.kind == EntryKind::Directory {
                NavPlan::LocalCwd(e.path.clone())
            } else {
                NavPlan::Nothing
            },
            None => NavPlan::Nothing,
        },
        FocusPane::Remote => {
            if !app.connected {
                return NavPlan::NotConnected;
            }
            match app.selected_remote_entry() {
                Some(e) => if e.kind == EntryKind::Directory {
                    NavPlan::RemoteCwd(join_remote_path(app.remote_cwd.as_str(), e.name.as_str()))
                } else {
                    NavPlan::NotDirectory(e.name.clone())
                },
                None => NavPlan::Nothing,
            }
        },
        FocusPane::Queue => NavPlan::Nothing,
    }
}

/// Where going up takes the focused pane.
pub fn parent_plan(app: &AppState) -> (r: NavPlan)
    ensures
        r@ == parent_plan_of(app@),
{
    match app.focus {
        FocusPane::Local => {
            let p = match local_parent(app.local_cwd.as_str()) {
                Some(q) => if crate::text::chars_of(q.as_str()).len() > 0 {
                    q
                } else {
                    app.local_cwd.clone()
                },
                None => app.local_cwd.clone(),
            };
            NavPlan::LocalCwd(p)
        },
        FocusPane::Remote => {
            if !app.connected {
                return NavPlan::NotConnected;
            }
            NavPlan::RemoteCwd(parent_remote_path(app.remote_cwd.as_str()))
        },
        FocusPane::Queue => NavPlan::Nothing,
    }
}

} // verus!
