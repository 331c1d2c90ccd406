//! Where a file operation on the focused pane acts: the path a typed name
//! stands for in the pane's folder, or why there is none.
use vstd::prelude::*;
use crate::paths::{local_child, remote_child, safe_local_child, safe_remote_child, safe_component};
use crate::text::{trim_end_char, trim_start_char};
use crate::state::{AppState, AppView, FocusPane};

verus! {

/// The place a name on the focused pane stands for.
#[derive(Debug, Clone, PartialEq, Eq)]
pub enum Target {
    /// A path in the local folder.
    Local(String),
    /// A path in the remote folder.
    Remote(String),
    /// The remote pane is focused but there is no connection.
    NotConnected,
    /// The name would leave the folder.
    Escapes,
    /// The queue is focused: file operations do not apply.
    NoPane,
}

/// A target with its path as characters.
pub enum TargetView {
    Local(Seq<char>),
    Remote(Seq<char>),
    NotConnected,
    Escapes,
    NoPane,
}

impl View for Target {
    type V = TargetView;

    open spec fn view(&self) -> TargetView {
        match self {
            Target::Local(p) => TargetView::Local(p@),
            Target::Remote(p) => TargetView::Remote(p@),
            Target::NotConnected => TargetView::NotConnected,
            Target::Escapes => TargetView::Escapes,
            Target::NoPane => TargetView::NoPane,
        }
    }
}

/// Where `name` lands on the focused pane: in the local folder, or (when
/// connected) in the remote folder, as long as it is one safe component.
pub open spec fn target_of(s: AppView, name: Seq<char>) -> TargetView {
    match s.focus {
        FocusPane::Local => match local_child(s.local_cwd, name) {
            Some(p) => TargetView::Local(p),
            None => TargetView::Escapes,
        },
        FocusPane::Remote => if !s.connected {
            TargetView::NotConnected
        } else {
            match remote_child(s.remote_cwd, name) {
                Some(p) => TargetView::Remote(p),
                None => TargetView::Escapes,
            }
        },
        FocusPane::Queue => TargetView::NoPane,
    }
}

/// Where `name` lands on the focused pane.
pub fn pane_target(app: &AppState, name: &str) -> (r: Target)
    ensures
        r@ == target_of(app@, name@),
{
    match app.focus {
        FocusPane::Local => match safe_local_child(app.local_cwd.as_str(), name) {
            Ok(p) => Target::Local(p),
            Err(_) => Target::Escapes,
        },
        FocusPane::Remote => {
            if !app.connected {
                return Target::NotConnected;
            }
            match safe_remote_child(app.remote_cwd.as_str(), name) {
                Ok(p) => Target::Remote(p),
                Err(_) => Target::Escapes,
            }
        },
        FocusPane::Queue => Target::NoPane,
    }
}

/// A file operation never reaches outside the focused pane's folder: the
/// path it acts on is the folder followed by the name, a single component
/// with no separator.
pub proof fn law_targets_stay_in_folder(s: AppView, name: Seq<char>)
    ensures
        target_of(s, name) matches TargetView::Local(p) ==> safe_component(name) && (p == s.local_cwd + seq!['/'] + name
            || (s.local_cwd.len() > 0 && s.local_cwd.last() == '/' && p == s.local_cwd + name) || (s.local_cwd.len() == 0
            && p == name)),
        target_of(s, name) matches TargetView::Remote(p) ==> s.connected && safe_component(name) && (p == seq!['/'] + name
            || p == trim_end_char(s.remote_cwd, '/') + seq!['/'] + name),
{
    if safe_component(name) {
        assert(name[0] != '/') by {
            assert(!name.contains('/'));
        }
        assert(trim_start_char(name, '/') == name);
    }
}

} // verus!
