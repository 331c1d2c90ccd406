//! What the event loop makes of the worker's reports on connecting,
//! listing a folder and file operations, and the status it shows while
//! such work runs.
use vstd::prelude::*;
use crate::actions::Action;
use crate::model::{ConnectionInfo, FileEntry, Protocol};
use crate::reducer::{connection_set, disconnected, entries_set, error_shown, reduce, status_set};
use crate::state::{AppState, AppView, SelectPolicy};
use crate::text::{concat2, concat3, decimal, u64_to_decimal};

verus! {

/// The name a protocol is shown by.
pub open spec fn protocol_name(p: Protocol) -> Seq<char> {
    match p {
        Protocol::Sftp => "Sftp"@,
        Protocol::Ftp => "Ftp"@,
        Protocol::Ftps => "Ftps"@,
    }
}

/// The name a protocol is shown by (see [`protocol_name`]).
pub fn protocol_label(p: Protocol) -> (r: &'static str)
    ensures
        r@ == protocol_name(p),
{
    match p {
        Protocol::Sftp => "Sftp",
        Protocol::Ftp => "Ftp",
        Protocol::Ftps => "Ftps",
    }
}

/// `user@host:port via Protocol`
pub open spec fn connect_target(info: ConnectionInfo) -> Seq<char> {
    info.username@ + "@"@ + info.host@ + ":"@ + decimal(info.port as nat) + " via "@ + protocol_name(info.protocol)
}

/// The error shown when connecting (or the first listing) fails:
/// `Connect failed for user@host:port via Protocol -> error`.
pub fn connect_failed_message(info: &ConnectionInfo, error: &str) -> (r: String)
    ensures
        r@ == "Connect failed for "@ + connect_target(*info) + " -> "@ + error@,
{
    let port = u64_to_decimal(info.port as u64);
    let a = concat3(info.username.as_str(), "@", info.host.as_str());
    let b = concat3(a.as_str(), ":", port.as_str());
    let c = concat3(b.as_str(), " via ", protocol_label(info.protocol));
    let d = concat3("Connect failed for ", c.as_str(), " -> ");
    concat2(d.as_str(), error)
}

/// `Connected via Protocol to host as user (cwd: cwd)`
pub open spec fn connected_status(info: ConnectionInfo, cwd: Seq<char>) -> Seq<char> {
    "Connected via "@ + protocol_name(info.protocol) + " to "@ + info.host@ + " as "@ + info.username@ + " (cwd: "@
        + cwd + ")"@
}

/// A connection made: connected, the first listing shown from its first
/// row, the connection kept, and reported.
pub open spec fn connect_done(s: AppView, info: ConnectionInfo, entries: Seq<FileEntry>) -> AppView {
    let s1 = entries_set(connection_set(s, true), entries, SelectPolicy::Reset, false);
    let s2 = AppView { active_connection: Some(info), ..s1 };
    status_set(s2, connected_status(info, s2.remote_cwd))
}

fn keep_connection(app: &mut AppState, info: ConnectionInfo)
    ensures
        final(app)@ == (AppView { active_connection: Some(info), ..old(app)@ }),
{
    app.active_connection = Some(info);
}

/// A connection made with `info`, whose folder lists as `entries`.
pub fn connect_succeeded(app: &mut AppState, info: ConnectionInfo, entries: Vec<FileEntry>)
    ensures
        final(app)@ == connect_done(old(app)@, info, entries@),
{
    let msg_info = info.snapshot();
    reduce(app, Action::SetConnected(true));
    reduce(app, Action::SetRemoteEntries { entries, select: SelectPolicy::Reset });
    keep_connection(app, info);
    let head = concat3("Connected via ", protocol_label(msg_info.protocol), " to ");
    let a = concat3(head.as_str(), msg_info.host.as_str(), " as ");
    let b = concat3(a.as_str(), msg_info.username.as_str(), " (cwd: ");
    let msg = concat3(b.as_str(), app.remote_cwd.as_str(), ")");
    reduce(app, Action::SetStatus(msg));
}

/// A failed connection: not connected, and the error shown.
pub open spec fn connect_refused(s: AppView, msg: Seq<char>) -> AppView {
    error_shown(connection_set(s, false), msg)
}

/// A connection that failed with `msg` (see [`connect_failed_message`]).
pub fn connect_failed(app: &mut AppState, msg: String)
    ensures
        final(app)@ == connect_refused(old(app)@, msg@),
{
    reduce(app, Action::SetConnected(false));
    reduce(app, Action::ShowError(msg));
}

/// `Listing <path>...`, the status while a folder is listed for a pane.
pub fn listing_status(path: &str) -> (r: String)
    ensures
        r@ == "Listing "@ + path@ + "..."@,
{
    concat3("Listing ", path, "...")
}

/// A pane listing's outcome. While files wait on the drain the listing is
/// dropped and the drain goes on (unless a cancel was requested); otherwise
/// the rows are replaced and the optional status shown, or the error shown
/// after its prefix.
pub open spec fn list_done(
    s: AppView,
    drain_waiting: bool,
    result: Result<Seq<FileEntry>, Seq<char>>,
    select: SelectPolicy,
    ok_status: Option<Seq<char>>,
    err_prefix: Seq<char>,
) -> (AppView, bool) {
    if drain_waiting {
        (s, !s.worker_cancel_requested)
    } else {
        match result {
            Ok(es) => {
                let s1 = entries_set(s, es, select, false);
                match ok_status {
                    Some(m) => (status_set(s1, m), false),
                    None => (s1, false),
                }
            },
            Err(e) => (error_shown(s, err_prefix + ": "@ + e), false),
        }
    }
}

/// The views of a listing's outcome.
pub open spec fn listed_view(r: Result<Vec<FileEntry>, String>) -> Result<Seq<FileEntry>, Seq<char>> {
    match r {
        Ok(v) => Ok(v@),
        Err(e) => Err(e@),
    }
}

/// The characters of an optional status.
pub open spec fn opt_text(o: Option<String>) -> Option<Seq<char>> {
    match o {
        Some(s) => Some(s@),
        None => None,
    }
}

/// Applies a pane listing's outcome (see [`list_done`]); `true` when the
/// drain should decide next.
pub fn apply_listing(
    app: &mut AppState,
    drain_waiting: bool,
    result: Result<Vec<FileEntry>, String>,
    select: SelectPolicy,
    ok_status: Option<String>,
    err_prefix: &str,
) -> (resume: bool)
    ensures
        (final(app)@, resume) == list_done(old(app)@, drain_waiting, listed_view(result), select, opt_text(ok_status), err_prefix@),
{
    if drain_waiting {
        return !app.worker_cancel_requested;
    }
    match result {
        Ok(entries) => {
            reduce(app, Action::SetRemoteEntries { entries, select });
            match ok_status {
                Some(m) => reduce(app, Action::SetStatus(m)),
                None => {},
            }
        },
        Err(e) => {
            let msg = concat3(err_prefix, ": ", e.as_str());
            reduce(app, Action::ShowError(msg));
        },
    }
    false
}

/// What follows a finished file operation.
#[derive(Debug, Clone, Copy, PartialEq, Eq, Structural)]
pub enum FsFollowUp {
    /// Nothing more.
    Nothing,
    /// Let the drain decide on the waiting files.
    ResumeDrain,
    /// List the remote folder again.
    RelistRemote,
    /// List the local folder again.
    RefreshLocal,
}

/// A file operation's outcome. On success its status is shown; then the
/// drain goes on when files wait on it (unless a cancel was requested),
/// else the pane it acted on is listed again (the remote one only while
/// connected). On failure the error is shown and the drain goes on when
/// files wait (unless a cancel was requested).
pub open spec fn fs_done(
    s: AppView,
    drain_waiting: bool,
    remote: bool,
    ok_status: Seq<char>,
    result: Result<(), Seq<char>>,
) -> (AppView, FsFollowUp) {
    let resume = if drain_waiting && !s.worker_cancel_requested {
        FsFollowUp::ResumeDrain
    } else {
        FsFollowUp::Nothing
    };
    match result {
        Ok(()) => {
            let s1 = status_set(s, ok_status);
            if drain_waiting {
                (s1, resume)
            } else if remote {
                (s1, if s.connected { FsFollowUp::RelistRemote } else { FsFollowUp::Nothing })
            } else {
                (s1, FsFollowUp::RefreshLocal)
            }
        },
        Err(e) => (error_shown(s, e), resume),
    }
}

/// The views of an operation's outcome.
pub open spec fn done_view(r: Result<(), String>) -> Result<(), Seq<char>> {
    match r {
        Ok(()) => Ok(()),
        Err(e) => Err(e@),
    }
}

/// Applies a file operation's outcome (see [`fs_done`]).
pub fn apply_fs_result(
    app: &mut AppState,
    drain_waiting: bool,
    remote: bool,
    ok_status: String,
    result: Result<(), String>,
) -> (r: FsFollowUp)
    ensures
        (final(app)@, r) == fs_done(old(app)@, drain_waiting, remote, ok_status@, done_view(result)),
{
    let resume = if drain_waiting && !app.worker_cancel_requested {
        FsFollowUp::ResumeDrain
    } else {
        FsFollowUp::Nothing
    };
    let connected = app.connected;
    match result {
        Ok(()) => {
            reduce(app, Action::SetStatus(ok_status));
            if drain_waiting {
                resume
            } else if remote {
                if connected {
                    FsFollowUp::RelistRemote
                } else {
                    FsFollowUp::Nothing
                }
            } else {
                FsFollowUp::RefreshLocal
            }
        },
        Err(e) => {
            reduce(app, Action::ShowError(e));
            resume
        },
    }
}

/// A session closed: not connected, the remote pane emptied, no
/// connection kept, and reported.
pub open spec fn session_closed_spec(s: AppView) -> AppView {
    let s1 = entries_set(disconnected(s), Seq::empty(), SelectPolicy::Reset, false);
    status_set(AppView { active_connection: None, ..s1 }, "Disconnected"@)
}

fn forget_connection(app: &mut AppState)
    ensures
        final(app)@ == (AppView { active_connection: None, ..old(app)@ }),
{
    app.active_connection = None;
}

/// The session was closed (see [`session_closed_spec`]).
pub fn session_closed(app: &mut AppState)
    ensures
        final(app)@ == session_closed_spec(old(app)@),
{
    reduce(app, Action::Disconnect);
    reduce(app, Action::SetRemoteEntries { entries: Vec::new(), select: SelectPolicy::Reset });
    forget_connection(app);
    reduce(app, Action::SetStatus(String::from_str("Disconnected")));
}

/// Closing the session failed: `Disconnect failed: <error>` is shown and
/// nothing else changes.
pub fn disconnect_failed(app: &mut AppState, error: &str)
    ensures
        final(app)@ == status_set(old(app)@, "Disconnect failed: "@ + error@),
{
    reduce(app, Action::SetStatus(concat2("Disconnect failed: ", error)));
}

} // verus!
