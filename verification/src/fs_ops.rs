//! File operations on the focused pane: creating a file or a folder,
//! renaming or deleting the selected entry, and changing permissions on the
//! server. Each works out the exact path it acts on (never outside the
//! pane's folder) and the status to show, or refuses; the event loop does
//! the work.
use vstd::prelude::*;
use crate::actions::Action;
use crate::batch::{IoWork, escapes_msg};
use crate::drain::{local_file_name, path_file_name};
use crate::model::{EntryKind, FileEntry, Protocol};
use crate::paths::{local_child, remote_child, safe_component, safe_local_child, safe_remote_child};
use crate::reducer::{error_shown, reduce, status_set};
use crate::state::{
    AppState, AppView, FocusPane, PromptKind, TextPromptKind, row_at, visible_local_of, visible_remote_of,
};
use crate::text::{chars_of, is_dot_name, is_dot_or_dotdot_chars};
use crate::text_field::{TextField, field_of};
use crate::listing::{octal, u32_to_octal};
use crate::text::{concat2, concat3};

verus! {

/// A file operation to carry out, locally or on the server.
#[derive(Debug)]
pub enum FsWork {
    CreateFile { remote: bool, path: String },
    CreateFolder { remote: bool, path: String },
    Rename { remote: bool, from: String, to: String },
    Delete { remote: bool, path: String, is_dir: bool },
    /// Permissions are only ever changed on the server.
    Chmod { path: String, mode: u32 },
}

/// A file operation with its paths as characters.
pub enum FsWorkView {
    CreateFile { remote: bool, path: Seq<char> },
    CreateFolder { remote: bool, path: Seq<char> },
    Rename { remote: bool, from: Seq<char>, to: Seq<char> },
    Delete { remote: bool, path: Seq<char>, is_dir: bool },
    Chmod { path: Seq<char>, mode: u32 },
}

impl View for FsWork {
    type V = FsWorkView;

    open spec fn view(&self) -> FsWorkView {
        match self {
            FsWork::CreateFile { remote, path } => FsWorkView::CreateFile { remote: *remote, path: path@ },
            FsWork::CreateFolder { remote, path } => FsWorkView::CreateFolder { remote: *remote, path: path@ },
            FsWork::Rename { remote, from, to } => FsWorkView::Rename { remote: *remote, from: from@, to: to@ },
            FsWork::Delete { remote, path, is_dir } => FsWorkView::Delete { remote: *remote, path: path@, is_dir: *is_dir },
            FsWork::Chmod { path, mode } => FsWorkView::Chmod { path: path@, mode: *mode },
        }
    }
}

/// A file operation and the status to show when it succeeds.
#[derive(Debug)]
pub struct FsRequest {
    pub work: FsWork,
    pub ok_status: String,
}

/// The operation and success status of an optional request.
pub open spec fn request_view(r: Option<FsRequest>) -> Option<(FsWorkView, Seq<char>)> {
    match r {
        Some(q) => Some((q.work@, q.ok_status@)),
        None => None,
    }
}

/// The status shown while an operation runs.
pub open spec fn busy_label(w: FsWorkView) -> Seq<char> {
    match w {
        FsWorkView::CreateFile { .. } => "Creating…"@,
        FsWorkView::CreateFolder { .. } => "Creating…"@,
        FsWorkView::Rename { .. } => "Renaming…"@,
        FsWorkView::Delete { .. } => "Deleting…"@,
        FsWorkView::Chmod { .. } => "Setting permissions…"@,
    }
}

/// An operation started: its busy status shown, and it is handed out.
pub open spec fn fs_started(s: AppView, w: FsWorkView, ok: Seq<char>) -> (AppView, Option<(FsWorkView, Seq<char>)>) {
    (status_set(s, busy_label(w)), Some((w, ok)))
}

/// Refused with a status message.
pub open spec fn refused(s: AppView, msg: Seq<char>) -> (AppView, Option<(FsWorkView, Seq<char>)>) {
    (status_set(s, msg), None)
}

/// Refused because a name would leave its folder.
pub open spec fn escaped(s: AppView) -> (AppView, Option<(FsWorkView, Seq<char>)>) {
    (error_shown(s, escapes_msg()), None)
}

/// Nothing happens.
pub open spec fn untouched(s: AppView) -> (AppView, Option<(FsWorkView, Seq<char>)>) {
    (s, None)
}

/// Shows the busy status of `work` and hands it out with `ok_status`.
fn begin_fs(app: &mut AppState, work: FsWork, ok_status: String) -> (r: Option<FsRequest>)
    ensures
        (final(app)@, request_view(r)) == fs_started(old(app)@, work@, ok_status@),
{
    let label = match &work {
        FsWork::CreateFile { .. } => "Creating…",
        FsWork::CreateFolder { .. } => "Creating…",
        FsWork::Rename { .. } => "Renaming…",
        FsWork::Delete { .. } => "Deleting…",
        FsWork::Chmod { .. } => "Setting permissions…",
    };
    reduce(app, Action::SetStatus(String::from_str(label)));
    Some(FsRequest { work, ok_status })
}

fn refuse(app: &mut AppState, msg: &str)
    ensures
        final(app)@ == status_set(old(app)@, msg@),
{
    reduce(app, Action::SetStatus(String::from_str(msg)));
}

fn refuse_escape(app: &mut AppState)
    ensures
        final(app)@ == error_shown(old(app)@, escapes_msg()),
{
    reduce(app, Action::ShowError(String::from_str("path escapes directory")));
}

/// The new entry's kind of operation at `path`.
pub open spec fn create_work(folder: bool, remote: bool, path: Seq<char>) -> FsWorkView {
    if folder {
        FsWorkView::CreateFolder { remote, path }
    } else {
        FsWorkView::CreateFile { remote, path }
    }
}

/// Creating a file or a folder named `name` on the focused pane. Nothing
/// happens while other work runs or on the queue; the remote pane needs a
/// connection; the name must stay in the pane's folder.
pub open spec fn create_planned(s: AppView, io: IoWork, name: Seq<char>, folder: bool) -> (AppView, Option<(FsWorkView, Seq<char>)>) {
    let ok = if folder {
        "Created folder: "@ + name
    } else {
        "Created file: "@ + name
    };
    if !(io is Idle) {
        untouched(s)
    } else {
        match s.focus {
            FocusPane::Local => match local_child(s.local_cwd, name) {
                Some(p) => fs_started(s, create_work(folder, false, p), ok),
                None => escaped(s),
            },
            FocusPane::Remote => if !s.connected {
                refused(s, "Not connected"@)
            } else {
                match remote_child(s.remote_cwd, name) {
                    Some(p) => fs_started(s, create_work(folder, true, p), ok),
                    None => escaped(s),
                }
            },
            FocusPane::Queue => untouched(s),
        }
    }
}

fn create_request(folder: bool, remote: bool, path: String) -> (r: FsWork)
    ensures
        r@ == create_work(folder, remote, path@),
{
    if folder {
        FsWork::CreateFolder { remote, path }
    } else {
        FsWork::CreateFile { remote, path }
    }
}

/// Plans creating a file (or, with `folder`, a folder) named `name` (see
/// [`create_planned`]).
pub fn plan_create(app: &mut AppState, io: IoWork, name: &str, folder: bool) -> (r: Option<FsRequest>)
    ensures
        (final(app)@, request_view(r)) == create_planned(old(app)@, io, name@, folder),
{
    if !matches!(io, IoWork::Idle) {
        return None;
    }
    let ok = if folder {
        concat2("Created folder: ", name)
    } else {
        concat2("Created file: ", name)
    };
    match app.focus {
        FocusPane::Local => match safe_local_child(app.local_cwd.as_str(), name) {
            Ok(p) => begin_fs(app, create_request(folder, false, p), ok),
            Err(_) => {
                refuse_escape(app);
                None
            },
        },
        FocusPane::Remote => {
            if !app.connected {
                refuse(app, "Not connected");
                return None;
            }
            match safe_remote_child(app.remote_cwd.as_str(), name) {
                Ok(p) => begin_fs(app, create_request(folder, true, p), ok),
                Err(_) => {
                    refuse_escape(app);
                    None
                },
            }
        },
        FocusPane::Queue => None,
    }
}

/// Renaming the selected entry of the focused pane to `new_name`, both
/// names staying in the pane's folder.
pub open spec fn rename_planned(s: AppView, io: IoWork, new_name: Seq<char>) -> (AppView, Option<(FsWorkView, Seq<char>)>) {
    let ok = "Renamed to: "@ + new_name;
    if !(io is Idle) {
        untouched(s)
    } else {
        match s.focus {
            FocusPane::Local => match row_at(visible_local_of(s), s.selected_local) {
                None => refused(s, "No item selected"@),
                Some(e) => match (local_child(s.local_cwd, e.name@), local_child(s.local_cwd, new_name)) {
                    (Some(f), Some(t)) => fs_started(s, FsWorkView::Rename { remote: false, from: f, to: t }, ok),
                    _ => escaped(s),
                },
            },
            FocusPane::Remote => if !s.connected {
                refused(s, "Not connected"@)
            } else {
                match row_at(visible_remote_of(s), s.selected_remote) {
                    None => refused(s, "No item selected"@),
                    Some(e) => match (remote_child(s.remote_cwd, e.name@), remote_child(s.remote_cwd, new_name)) {
                        (Some(f), Some(t)) => fs_started(s, FsWorkView::Rename { remote: true, from: f, to: t }, ok),
                        _ => escaped(s),
                    },
                }
            },
            FocusPane::Queue => untouched(s),
        }
    }
}

/// Plans renaming the selected entry (see [`rename_planned`]).
pub fn plan_rename(app: &mut AppState, io: IoWork, new_name: &str) -> (r: Option<FsRequest>)
    ensures
        (final(app)@, request_view(r)) == rename_planned(old(app)@, io, new_name@),
{
    if !matches!(io, IoWork::Idle) {
        return None;
    }
    let ok = concat2("Renamed to: ", new_name);
    match app.focus {
        FocusPane::Local => {
            let old_name = match app.selected_local_entry() {
                Some(e) => e.name.clone(),
                None => {
                    refuse(app, "No item selected");
                    return None;
                },
            };
            let from = match safe_local_child(app.local_cwd.as_str(), old_name.as_str()) {
                Ok(p) => p,
                Err(_) => {
                    refuse_escape(app);
                    return None;
                },
            };
            match safe_local_child(app.local_cwd.as_str(), new_name) {
                Ok(to) => begin_fs(app, FsWork::Rename { remote: false, from, to }, ok),
                Err(_) => {
                    refuse_escape(app);
                    None
                },
            }
        },
        FocusPane::Remote => {
            if !app.connected {
                refuse(app, "Not connected");
                return None;
            }
            let old_name = match app.selected_remote_entry() {
                Some(e) => e.name.clone(),
                None => {
                    refuse(app, "No item selected");
                    return None;
                },
            };
            let from = match safe_remote_child(app.remote_cwd.as_str(), old_name.as_str()) {
                Ok(p) => p,
                Err(_) => {
                    refuse_escape(app);
                    return None;
                },
            };
            match safe_remote_child(app.remote_cwd.as_str(), new_name) {
                Ok(to) => begin_fs(app, FsWork::Rename { remote: true, from, to }, ok),
                Err(_) => {
                    refuse_escape(app);
                    None
                },
            }
        },
        FocusPane::Queue => None,
    }
}

/// Whether an optional row is a folder.
pub open spec fn row_is_dir(o: Option<FileEntry>) -> bool {
    match o {
        Some(e) => e.kind == EntryKind::Directory,
        None => false,
    }
}

/// The name a local delete acts on: the selected row's, or else the last
/// component of `target` (empty when it has none).
pub open spec fn local_delete_name(s: AppView, target: Seq<char>) -> Seq<char> {
    match row_at(visible_local_of(s), s.selected_local) {
        Some(e) => e.name@,
        None => match path_file_name(target) {
            Some(n) => n,
            None => Seq::empty(),
        },
    }
}

/// Deleting the selected entry of the focused pane (a folder only when
/// empty, as the operation itself refuses others). Locally the name falls
/// back on `target`'s last component when no row is selected.
pub open spec fn delete_planned(s: AppView, io: IoWork, target: Seq<char>) -> (AppView, Option<(FsWorkView, Seq<char>)>) {
    if !(io is Idle) {
        untouched(s)
    } else {
        match s.focus {
            FocusPane::Local => {
                let is_dir = row_is_dir(row_at(visible_local_of(s), s.selected_local));
                match local_child(s.local_cwd, local_delete_name(s, target)) {
                    Some(p) => fs_started(s, FsWorkView::Delete { remote: false, path: p, is_dir }, "Deleted: "@ + p),
                    None => escaped(s),
                }
            },
            FocusPane::Remote => if !s.connected {
                refused(s, "Not connected"@)
            } else {
                match row_at(visible_remote_of(s), s.selected_remote) {
                    None => refused(s, "No item selected"@),
                    Some(e) => match remote_child(s.remote_cwd, e.name@) {
                        Some(p) => fs_started(
                            s,
                            FsWorkView::Delete { remote: true, path: p, is_dir: e.kind == EntryKind::Directory },
                            "Deleted: "@ + p,
                        ),
                        None => escaped(s),
                    },
                }
            },
            FocusPane::Queue => untouched(s),
        }
    }
}

/// Plans deleting the selected entry (see [`delete_planned`]).
pub fn plan_delete(app: &mut AppState, io: IoWork, target: &str) -> (r: Option<FsRequest>)
    ensures
        (final(app)@, request_view(r)) == delete_planned(old(app)@, io, target@),
{
    if !matches!(io, IoWork::Idle) {
        return None;
    }
    match app.focus {
        FocusPane::Local => {
            let (is_dir, name) = match app.selected_local_entry() {
                Some(e) => (e.is_dir(), e.name.clone()),
                None => match local_file_name(target) {
                    Some(n) => (false, n),
                    None => (false, String::new()),
                },
            };
            proof {
                assert(name@ == local_delete_name(app@, target@));
            }
            match safe_local_child(app.local_cwd.as_str(), name.as_str()) {
                Ok(p) => {
                    let ok = concat2("Deleted: ", p.as_str());
                    begin_fs(app, FsWork::Delete { remote: false, path: p, is_dir }, ok)
                },
                Err(_) => {
                    refuse_escape(app);
                    None
                },
            }
        },
        FocusPane::Remote => {
            if !app.connected {
                refuse(app, "Not connected");
                return None;
            }
            let (is_dir, name) = match app.selected_remote_entry() {
                Some(e) => (e.is_dir(), e.name.clone()),
                None => {
                    refuse(app, "No item selected");
                    return None;
                },
            };
            match safe_remote_child(app.remote_cwd.as_str(), name.as_str()) {
                Ok(p) => {
                    let ok = concat2("Deleted: ", p.as_str());
                    begin_fs(app, FsWork::Delete { remote: true, path: p, is_dir }, ok)
                },
                Err(_) => {
                    refuse_escape(app);
                    None
                },
            }
        },
        FocusPane::Queue => None,
    }
}

/// Changing the permissions of `path` on the server to `mode`, reported as
/// `chmod <octal mode> <path>`.
pub open spec fn chmod_planned(s: AppView, io: IoWork, path: Seq<char>, mode: u32) -> (AppView, Option<(FsWorkView, Seq<char>)>) {
    if !(io is Idle) {
        untouched(s)
    } else if !s.connected {
        refused(s, "Not connected"@)
    } else {
        fs_started(s, FsWorkView::Chmod { path, mode }, "chmod "@ + octal(mode as nat) + " "@ + path)
    }
}

/// Plans a permission change (see [`chmod_planned`]).
pub fn plan_chmod(app: &mut AppState, io: IoWork, path: &str, mode: u32) -> (r: Option<FsRequest>)
    ensures
        (final(app)@, request_view(r)) == chmod_planned(old(app)@, io, path@, mode),
{
    if !matches!(io, IoWork::Idle) {
        return None;
    }
    if !app.connected {
        refuse(app, "Not connected");
        return None;
    }
    let m = u32_to_octal(mode);
    let ok = concat3("chmod ", m.as_str(), " ");
    let ok = concat2(ok.as_str(), path);
    begin_fs(app, FsWork::Chmod { path: String::from_str(path), mode }, ok)
}

/// A planned creation or rename acts only on single safe names in the
/// focused pane's folder: the paths it touches are that folder's children,
/// and a remote one needs a connection.
pub proof fn law_fs_ops_stay_in_folder(s: AppView, io: IoWork, name: Seq<char>, folder: bool)
    ensures
        create_planned(s, io, name, folder).1 matches Some((w, _)) ==> safe_component(name) && match w {
            FsWorkView::CreateFile { remote, path } | FsWorkView::CreateFolder { remote, path } => if remote {
                s.connected && path == remote_child(s.remote_cwd, name)->0
            } else {
                path == local_child(s.local_cwd, name)->0
            },
            _ => false,
        },
        rename_planned(s, io, name).1 matches Some((w, _)) ==> safe_component(name) && match w {
            FsWorkView::Rename { remote, to, .. } => if remote {
                s.connected && to == remote_child(s.remote_cwd, name)->0
            } else {
                to == local_child(s.local_cwd, name)->0
            },
            _ => false,
        },
{
}

/// The permissions text a row shows, or the empty text.
pub open spec fn perms_text(e: FileEntry) -> Seq<char> {
    match e.permissions {
        Some(p) => p@,
        None => Seq::empty(),
    }
}

/// Opening the permissions prompt on the remote pane, given the protocol of
/// the open session: only over SFTP and on a selected row other than `.`
/// and `..`; the prompt starts from the row's permissions text and acts on
/// its path.
pub open spec fn chmod_prompt_opened(s: AppView, session: Option<Protocol>) -> AppView {
    if s.focus != FocusPane::Remote {
        s
    } else {
        match session {
            None => status_set(s, "Not connected"@),
            Some(Protocol::Sftp) => match row_at(visible_remote_of(s), s.selected_remote) {
                None => status_set(s, "Nothing selected"@),
                Some(e) => if is_dot_name(e.name@) {
                    s
                } else {
                    AppView {
                        show_prompt: true,
                        prompt_kind: Some(PromptKind::Text(TextPromptKind::Chmod)),
                        prompt_target: Some(e.path@),
                        prompt_value: field_of(perms_text(e)),
                        ..s
                    }
                },
            },
            Some(_) => error_shown(s, "chmod is SFTP-only"@),
        }
    }
}

fn show_chmod_prompt(app: &mut AppState, path: String, mode: &str)
    ensures
        final(app)@ == (AppView {
            show_prompt: true,
            prompt_kind: Some(PromptKind::Text(TextPromptKind::Chmod)),
            prompt_target: Some(path@),
            prompt_value: field_of(mode@),
            ..old(app)@
        }),
{
    app.show_prompt = true;
    app.prompt_kind = Some(PromptKind::Text(TextPromptKind::Chmod));
    app.prompt_target = Some(path);
    app.prompt_value = TextField::from_str(mode);
}

/// Opens the permissions prompt (see [`chmod_prompt_opened`]); `session` is
/// the protocol of the open session, if any.
pub fn open_chmod_prompt(app: &mut AppState, session: Option<Protocol>)
    ensures
        final(app)@ == chmod_prompt_opened(old(app)@, session),
{
    if app.focus != FocusPane::Remote {
        return;
    }
    match session {
        None => refuse(app, "Not connected"),
        Some(Protocol::Sftp) => {
            let (path, mode) = match app.selected_remote_entry() {
                None => {
                    refuse(app, "Nothing selected");
                    return;
                },
                Some(e) => {
                    let name = chars_of(e.name.as_str());
                    if is_dot_or_dotdot_chars(&name) {
                        return;
                    }
                    let mode = match &e.permissions {
                        Some(p) => p.clone(),
                        None => String::new(),
                    };
                    (e.path.clone(), mode)
                },
            };
            show_chmod_prompt(app, path, mode.as_str());
        },
        Some(_) => reduce(app, Action::ShowError(String::from_str("chmod is SFTP-only"))),
    }
}

} // verus!
