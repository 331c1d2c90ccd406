//! Starting transfers from the panes: which entries an upload or download
//! command takes, how they split into files that wait on the drain and
//! folders that must be walked first, and what the drain does with what a
//! folder walk reports. The event loop performs the walks.
use vstd::prelude::*;
use crate::drain::{
    DrainQueue, DrainView, PendingView, apply_scan_item, cleared, enqueue_pending_file,
    file_enqueued, files_parked, job_for, pending_for, pending_from_entry, pending_views,
};
use crate::model::{EntryKind, FileEntry, TransferDirection, TransferJob};
use crate::paths::{local_child, remote_child, safe_local_child, safe_remote_child};
use crate::reducer::{error_shown, reduce, status_set};
use crate::actions::Action;
use crate::state::{
    AppState, AppView, FocusPane, PendingFile, opt_toast, row_at, visible_local_of,
    visible_remote_of,
};
use crate::text::{
    chars_of, concat2, concat3, decimal, is_dot_name, is_dot_or_dotdot_chars, str_eq,
    u64_to_decimal,
};
use crate::toast::{Toast, ToastLevel, ToastView};

verus! {

/// Input/output work in progress besides transfers.
#[derive(Debug, Clone, Copy, PartialEq, Eq, Structural)]
pub enum IoWork {
    Idle,
    /// Connecting to a server.
    Connect,
    /// Listing a folder.
    List,
    /// Walking folders for a transfer, started in the given generation.
    Scan(u64),
    /// Waiting for the user's answer on a host key.
    HostKey,
    /// A file operation (create, rename, delete, permissions).
    Fs,
}

/// The drain is busy while files wait on it, or while a listing or a folder
/// walk runs: a new transfer command is then ignored.
pub open spec fn drain_busy_spec(d: DrainView, io: IoWork) -> bool {
    d.pending.len() > 0 || io is List || io is Scan
}

/// Whether any input/output work is in progress.
pub fn io_busy(io: IoWork) -> (r: bool)
    ensures
        r == !(io is Idle),
{
    !matches!(io, IoWork::Idle)
}

/// Whether a folder walk's report belongs to the walk in progress: it
/// carries the current generation and that walk is the work in progress.
pub fn scan_msg_accepted(current: u64, io: IoWork, msg_generation: u64) -> (r: bool)
    ensures
        r == (msg_generation == current && io == IoWork::Scan(msg_generation)),
{
    match io {
        IoWork::Scan(g) => g == msg_generation && msg_generation == current,
        _ => false,
    }
}

/// A reply to input/output work other than a folder walk.
#[derive(Debug, Clone, Copy, PartialEq, Eq, Structural)]
pub enum IoReply {
    /// A connection attempt finished.
    Connect,
    /// A folder listing finished.
    List,
    /// A file operation finished.
    Fs,
}

/// Whether a reply belongs to the work in progress: it carries the current
/// generation, and that work is the kind it answers (a connection may be
/// waiting on a host-key answer). Other replies are stale and dropped.
pub open spec fn io_reply_ok(current: u64, io: IoWork, msg_generation: u64, reply: IoReply) -> bool {
    msg_generation == current && match reply {
        IoReply::Connect => io is Connect || io is HostKey,
        IoReply::List => io is List,
        IoReply::Fs => io is Fs,
    }
}

/// Whether a reply belongs to the work in progress (see [`io_reply_ok`]).
pub fn io_reply_accepted(current: u64, io: IoWork, msg_generation: u64, reply: IoReply) -> (r: bool)
    ensures
        r == io_reply_ok(current, io, msg_generation, reply),
{
    msg_generation == current && match reply {
        IoReply::Connect => matches!(io, IoWork::Connect) || matches!(io, IoWork::HostKey),
        IoReply::List => matches!(io, IoWork::List),
        IoReply::Fs => matches!(io, IoWork::Fs),
    }
}

impl DrainQueue {
    /// Whether the drain is busy (see [`drain_busy_spec`]).
    pub fn drain_busy(&self, io: IoWork) -> (r: bool)
        ensures
            r == drain_busy_spec(self@, io),
    {
        self.pending_scan.len() > 0 || matches!(io, IoWork::List) || matches!(io, IoWork::Scan(_))
    }

    /// A file found by the walk joins the waiting files; after a cancel it
    /// goes straight to the queue as a pending job with the id `id` instead.
    pub fn scan_item(&mut self, app: &mut AppState, file: PendingFile, id: u128)
        ensures
            old(app).worker_cancel_requested ==> final(self)@ == old(self)@ && exists|j: TransferJob|
                j.id == id && job_for(j, file@) && final(app)@ == #[trigger] file_enqueued(old(app)@, j),
            !old(app).worker_cancel_requested ==> final(app)@ == old(app)@ && final(self)@ == (DrainView {
                pending: old(self)@.pending.push(file@),
                ..old(self)@
            }),
    {
        if app.worker_cancel_requested {
            enqueue_pending_file(app, file, id);
        } else {
            let ghost before = self.pending_scan@;
            apply_scan_item(&mut self.pending_scan, file);
            proof {
                assert(crate::drain::pending_views(self.pending_scan@) =~= crate::drain::pending_views(before).push(file@));
            }
        }
    }

    /// The walk is over. After a cancel the waiting files are parked on the
    /// queue (the `k`-th with the id `ids[k]`) and `false` comes back;
    /// otherwise nothing changes and `true` says that the drain decides next.
    pub fn scan_done(&mut self, app: &mut AppState, ids: &Vec<u128>) -> (go_on: bool)
        requires
            ids@.len() >= old(self).pending_scan@.len(),
        ensures
            go_on == !old(app).worker_cancel_requested,
            go_on ==> final(self)@ == old(self)@ && final(app)@ == old(app)@,
            !go_on ==> final(self)@ == cleared(old(self)@) && exists|js: Seq<TransferJob>|
                js.len() == old(self)@.pending.len() && (forall|i: int|
                    0 <= i < js.len() ==> job_for(#[trigger] js[i], old(self)@.pending[i]) && js[i].id == ids@[i])
                    && final(app)@ == files_parked(old(app)@, js),
    {
        if app.worker_cancel_requested {
            self.park_pending_scan(app, ids);
            false
        } else {
            true
        }
    }

    /// The walk failed: the batch is dropped and the error shown.
    pub fn scan_failed(&mut self, app: &mut AppState, error: &str)
        ensures
            final(self)@ == cleared(old(self)@),
            final(app)@ == error_shown(old(app)@, "Scan failed: "@ + error@),
    {
        self.clear_scan_state();
        let msg = concat2("Scan failed: ", error);
        reduce(app, Action::ShowError(msg));
    }
}

/// Whether the marks hold the path `p`.
pub open spec fn marked(marks: Seq<String>, p: Seq<char>) -> bool {
    exists|i: int| 0 <= i < marks.len() && marks[i]@ == p
}

/// The rows a set of marks picks: marked by path, never `.` or `..`.
pub open spec fn marked_pick(marks: Seq<String>) -> spec_fn(FileEntry) -> bool {
    |e: FileEntry| marked(marks, e.path@) && !is_dot_name(e.name@)
}

/// The selected row alone, or nothing.
pub open spec fn selected_only(o: Option<FileEntry>) -> Seq<FileEntry> {
    match o {
        Some(e) => seq![e],
        None => Seq::empty(),
    }
}

/// The entries a transfer command on `pane` takes: with no marks, the
/// selected row; with marks, every marked entry of the pane in listing
/// order; none on the queue.
pub open spec fn transfer_entries(s: AppView, pane: FocusPane) -> Seq<FileEntry> {
    match pane {
        FocusPane::Local => if s.marked_local.len() == 0 {
            selected_only(row_at(visible_local_of(s), s.selected_local))
        } else {
            s.local_entries.filter(marked_pick(s.marked_local))
        },
        FocusPane::Remote => if s.marked_remote.len() == 0 {
            selected_only(row_at(visible_remote_of(s), s.selected_remote))
        } else {
            s.remote_entries.filter(marked_pick(s.marked_remote))
        },
        FocusPane::Queue => Seq::empty(),
    }
}

/// Whether the marks hold `path`.
fn marks_hold(marks: &Vec<String>, path: &str) -> (r: bool)
    ensures
        r == marked(marks@, path@),
{
    let mut i: usize = 0;
    while i < marks.len()
        invariant
            i <= marks@.len(),
            forall|k: int| 0 <= k < i ==> marks@[k]@ != path@,
        decreases marks@.len() - i,
    {
        if str_eq(marks[i].as_str(), path) {
            return true;
        }
        i = i + 1;
    }
    false
}

/// The entries that the marks pick, in order.
fn marked_entries(entries: &Vec<FileEntry>, marks: &Vec<String>) -> (r: Vec<FileEntry>)
    ensures
        r@ == entries@.filter(marked_pick(marks@)),
{
    let ghost pred = marked_pick(marks@);
    let mut out: Vec<FileEntry> = Vec::new();
    let mut i: usize = 0;
    while i < entries.len()
        invariant
            i <= entries@.len(),
            pred == marked_pick(marks@),
            out@ == entries@.take(i as int).filter(pred),
        decreases entries@.len() - i,
    {
        proof {
            assert(entries@.take(i + 1) =~= entries@.take(i as int).push(entries@[i as int]));
            entries@.take(i as int).lemma_filter_push(entries@[i as int], pred);
        }
        let e = &entries[i];
        let name = chars_of(e.name.as_str());
        if marks_hold(marks, e.path.as_str()) && !is_dot_or_dotdot_chars(&name) {
            out.push(e.snapshot());
        }
        i = i + 1;
    }
    proof {
        assert(entries@.take(entries@.len() as int) =~= entries@);
    }
    out
}

/// The entries a transfer command on `pane` takes (see [`transfer_entries`]).
pub fn pane_entries_for_transfer(app: &AppState, pane: FocusPane) -> (r: Vec<FileEntry>)
    ensures
        r@ == transfer_entries(app@, pane),
{
    match pane {
        FocusPane::Local => {
            if app.marked_local.len() == 0 {
                match app.selected_local_entry() {
                    Some(e) => {
                        let v = vec![e.snapshot()];
                        proof {
                            assert(v@ =~= seq![*e]);
                        }
                        v
                    },
                    None => Vec::new(),
                }
            } else {
                marked_entries(&app.local_entries, &app.marked_local)
            }
        },
        FocusPane::Remote => {
            if app.marked_remote.len() == 0 {
                match app.selected_remote_entry() {
                    Some(e) => {
                        let v = vec![e.snapshot()];
                        proof {
                            assert(v@ =~= seq![*e]);
                        }
                        v
                    },
                    None => Vec::new(),
                }
            } else {
                marked_entries(&app.remote_entries, &app.marked_remote)
            }
        },
        FocusPane::Queue => Vec::new(),
    }
}

/// An entry that travels as a file: not `.` or `..`, not a folder.
pub open spec fn file_pick() -> spec_fn(FileEntry) -> bool {
    |e: FileEntry| !is_dot_name(e.name@) && e.kind != EntryKind::Directory
}

/// An entry that is walked as a folder: not `.` or `..`, a folder.
pub open spec fn dir_pick() -> spec_fn(FileEntry) -> bool {
    |e: FileEntry| !is_dot_name(e.name@) && e.kind == EntryKind::Directory
}

/// The waiting files made from `files`, in order; an entry whose name would
/// leave its folder makes none.
pub open spec fn waiting_of(
    local_cwd: Seq<char>,
    remote_cwd: Seq<char>,
    files: Seq<FileEntry>,
    direction: TransferDirection,
) -> Seq<PendingView>
    decreases files.len(),
{
    if files.len() == 0 {
        Seq::empty()
    } else {
        let rest = waiting_of(local_cwd, remote_cwd, files.drop_last(), direction);
        match pending_for(local_cwd, remote_cwd, files.last(), direction) {
            Some(v) => rest.push(v),
            None => rest,
        }
    }
}

/// Whether some entry's name would leave its folder.
pub open spec fn some_unsafe(
    local_cwd: Seq<char>,
    remote_cwd: Seq<char>,
    files: Seq<FileEntry>,
    direction: TransferDirection,
) -> bool {
    exists|k: int| 0 <= k < files.len() && #[trigger] pending_for(local_cwd, remote_cwd, files[k], direction) is None
}

/// The error shown for a name that would leave its folder.
pub open spec fn escapes_msg() -> Seq<char> {
    "path escapes directory"@
}

/// What a folder walk is announced as: the folder's name, or the count.
pub open spec fn scan_label(dirs: Seq<FileEntry>) -> Seq<char> {
    if dirs.len() == 1 {
        dirs[0].name@
    } else {
        decimal(dirs.len()) + " items"@
    }
}

/// `Scanning <label>...`
pub open spec fn scan_message(dirs: Seq<FileEntry>) -> Seq<char> {
    "Scanning "@ + scan_label(dirs) + "..."@
}

/// The walk announced as an info toast and on the status line.
pub open spec fn scan_announced(s: AppView, dirs: Seq<FileEntry>) -> AppView {
    AppView {
        toast: Some(ToastView { message: scan_message(dirs), level: ToastLevel::Info }),
        status: scan_message(dirs),
        ..s
    }
}

/// Folder uploads walk each local folder into the remote folder of the same
/// name: (local folder, remote root) per folder, or none when a name would
/// leave the remote folder.
pub open spec fn upload_roots(remote_cwd: Seq<char>, dirs: Seq<FileEntry>) -> Option<Seq<(Seq<char>, Seq<char>)>> {
    if forall|k: int| 0 <= k < dirs.len() ==> #[trigger] remote_child(remote_cwd, dirs[k].name@) is Some {
        Some(Seq::new(dirs.len(), |k: int| (dirs[k].path@, remote_child(remote_cwd, dirs[k].name@)->0)))
    } else {
        None
    }
}

/// Folder downloads walk each remote folder into the local folder of the
/// same name: (remote root, local root) per folder, or none when a name
/// would leave either folder.
pub open spec fn download_roots(local_cwd: Seq<char>, remote_cwd: Seq<char>, dirs: Seq<FileEntry>) -> Option<Seq<(Seq<char>, Seq<char>)>> {
    if forall|k: int|
        0 <= k < dirs.len() ==> #[trigger] remote_child(remote_cwd, dirs[k].name@) is Some && local_child(
            local_cwd,
            dirs[k].name@,
        ) is Some {
        Some(Seq::new(dirs.len(), |k: int| (remote_child(remote_cwd, dirs[k].name@)->0, local_child(local_cwd, dirs[k].name@)->0)))
    } else {
        None
    }
}

/// What the event loop does after a transfer command.
#[derive(Debug)]
pub enum BatchStart {
    /// Nothing for now.
    Nothing,
    /// Let the drain decide on the waiting files.
    Drain,
    /// Walk these folders (source root, destination root) and report each
    /// file found, then the end of the walk or its failure.
    Scan(Vec<(String, String)>),
}

/// A batch start with its paths as characters.
pub enum BatchView {
    Nothing,
    Drain,
    Scan(Seq<(Seq<char>, Seq<char>)>),
}

/// The characters of each pair of paths.
pub open spec fn root_views(v: Seq<(String, String)>) -> Seq<(Seq<char>, Seq<char>)> {
    v.map_values(|p: (String, String)| (p.0@, p.1@))
}

impl View for BatchStart {
    type V = BatchView;

    open spec fn view(&self) -> BatchView {
        match self {
            BatchStart::Nothing => BatchView::Nothing,
            BatchStart::Drain => BatchView::Drain,
            BatchStart::Scan(v) => BatchView::Scan(root_views(v@)),
        }
    }
}

/// A transfer command lifts a requested cancel so that workers may start.
pub open spec fn workers_released(s: AppView) -> AppView {
    AppView { worker_running: s.worker_active_count > 0, worker_cancel_requested: false, ..s }
}

/// What a transfer of `es` does to the drain and the state, and what it
/// asks of the event loop. A busy drain, or no entry besides `.` and `..`,
/// changes nothing. Otherwise the files join the waiting files (an unsafe
/// name shows an error instead); folders, when no other work is in
/// progress, are announced and their walk asked for, unless a name is
/// unsafe (error) or, for a download, there is no connection: then the
/// drain decides on the files alone.
pub open spec fn batch_started(
    d: DrainView,
    s: AppView,
    es: Seq<FileEntry>,
    direction: TransferDirection,
    io: IoWork,
) -> (DrainView, AppView, BatchView) {
    let files = es.filter(file_pick());
    let dirs = es.filter(dir_pick());
    if drain_busy_spec(d, io) || (files.len() == 0 && dirs.len() == 0) {
        (d, s, BatchView::Nothing)
    } else {
        let (d1, s1) = files_started(d, s, files, direction);
        if dirs.len() == 0 {
            (d1, s1, BatchView::Drain)
        } else if !(io is Idle) {
            (d1, s1, BatchView::Nothing)
        } else {
            let (s2, r) = scan_started(s1, dirs, direction);
            (d1, s2, r)
        }
    }
}

/// The files of a transfer joined to the waiting files, with a requested
/// cancel lifted; an unsafe name shows an error instead.
pub open spec fn files_started(d: DrainView, s: AppView, files: Seq<FileEntry>, direction: TransferDirection) -> (DrainView, AppView) {
    let d1 = DrainView { pending: d.pending + waiting_of(s.local_cwd, s.remote_cwd, files, direction), ..d };
    let s0 = workers_released(s);
    let s1 = if some_unsafe(s.local_cwd, s.remote_cwd, files, direction) {
        error_shown(s0, escapes_msg())
    } else {
        s0
    };
    (d1, s1)
}

/// The walk of `dirs` announced and asked for; when a name would leave its
/// folder, or a download has no connection, the drain decides on the files
/// alone.
pub open spec fn scan_started(s: AppView, dirs: Seq<FileEntry>, direction: TransferDirection) -> (AppView, BatchView) {
    let s2 = scan_announced(s, dirs);
    match direction {
        TransferDirection::Upload => match upload_roots(s.remote_cwd, dirs) {
            Some(rs) => (s2, BatchView::Scan(rs)),
            None => (error_shown(s2, escapes_msg()), BatchView::Drain),
        },
        TransferDirection::Download => if s.active_connection is None {
            (status_set(s2, "Not connected"@), BatchView::Drain)
        } else {
            match download_roots(s.local_cwd, s.remote_cwd, dirs) {
                Some(rs) => (s2, BatchView::Scan(rs)),
                None => (error_shown(s2, escapes_msg()), BatchView::Drain),
            }
        },
    }
}

/// The entries split into files and folders, each in order, without `.`
/// and `..`.
fn split_entries(entries: &Vec<FileEntry>) -> (r: (Vec<FileEntry>, Vec<FileEntry>))
    ensures
        r.0@ == entries@.filter(file_pick()),
        r.1@ == entries@.filter(dir_pick()),
{
    let ghost fp = file_pick();
    let ghost dp = dir_pick();
    let mut files: Vec<FileEntry> = Vec::new();
    let mut dirs: Vec<FileEntry> = Vec::new();
    let mut i: usize = 0;
    while i < entries.len()
        invariant
            i <= entries@.len(),
            fp == file_pick(),
            dp == dir_pick(),
            files@ == entries@.take(i as int).filter(fp),
            dirs@ == entries@.take(i as int).filter(dp),
        decreases entries@.len() - i,
    {
        proof {
            assert(entries@.take(i + 1) =~= entries@.take(i as int).push(entries@[i as int]));
            entries@.take(i as int).lemma_filter_push(entries@[i as int], fp);
            entries@.take(i as int).lemma_filter_push(entries@[i as int], dp);
        }
        let e = &entries[i];
        let name = chars_of(e.name.as_str());
        if !is_dot_or_dotdot_chars(&name) {
            if e.is_dir() {
                dirs.push(e.snapshot());
            } else {
                files.push(e.snapshot());
            }
        }
        i = i + 1;
    }
    proof {
        assert(entries@.take(entries@.len() as int) =~= entries@);
    }
    (files, dirs)
}

/// Lifts a requested cancel (see [`workers_released`]).
fn release_workers(app: &mut AppState)
    ensures
        final(app)@ == workers_released(old(app)@),
{
    app.worker_running = app.worker_active_count > 0;
    app.worker_cancel_requested = false;
}

/// Shows the error for a name that would leave its folder.
fn show_escapes(app: &mut AppState)
    ensures
        final(app)@ == error_shown(old(app)@, escapes_msg()),
{
    reduce(app, Action::ShowError(String::from_str("path escapes directory")));
}

/// Announces the walk of `dirs`.
fn announce_scan(app: &mut AppState, dirs: &Vec<FileEntry>)
    ensures
        final(app)@ == scan_announced(old(app)@, dirs@),
{
    let label = if dirs.len() == 1 {
        dirs[0].name.clone()
    } else {
        let n = u64_to_decimal(dirs.len() as u64);
        concat2(n.as_str(), " items")
    };
    let msg = concat3("Scanning ", label.as_str(), "...");
    app.toast = Some(Toast::info(msg.clone()));
    app.status = msg;
    proof {
        assert(opt_toast(app.toast) == Some(ToastView { message: scan_message(dirs@), level: ToastLevel::Info }));
    }
}

/// The walk roots of a folder upload (see [`upload_roots`]).
fn upload_roots_of(remote_cwd: &str, dirs: &Vec<FileEntry>) -> (r: Option<Vec<(String, String)>>)
    ensures
        match upload_roots(remote_cwd@, dirs@) {
            Some(rs) => r matches Some(v) && root_views(v@) == rs,
            None => r is None,
        },
{
    let mut out: Vec<(String, String)> = Vec::new();
    let mut i: usize = 0;
    while i < dirs.len()
        invariant
            i <= dirs@.len(),
            out@.len() == i,
            forall|k: int| 0 <= k < i ==> #[trigger] remote_child(remote_cwd@, dirs@[k].name@) is Some,
            forall|k: int|
                0 <= k < i ==> (#[trigger] out@[k]).0@ == dirs@[k].path@ && out@[k].1@ == remote_child(
                    remote_cwd@,
                    dirs@[k].name@,
                )->0,
        decreases dirs@.len() - i,
    {
        let d = &dirs[i];
        match safe_remote_child(remote_cwd, d.name.as_str()) {
            Ok(root) => {
                out.push((d.path.clone(), root));
            },
            Err(_) => {
                proof {
                    assert(remote_child(remote_cwd@, dirs@[i as int].name@) is None);
                }
                return None;
            },
        }
        i = i + 1;
    }
    proof {
        let rs = Seq::new(dirs@.len(), |k: int| (dirs@[k].path@, remote_child(remote_cwd@, dirs@[k].name@)->0));
        assert(root_views(out@) =~= rs);
    }
    Some(out)
}

/// The walk roots of a folder download (see [`download_roots`]).
fn download_roots_of(local_cwd: &str, remote_cwd: &str, dirs: &Vec<FileEntry>) -> (r: Option<Vec<(String, String)>>)
    ensures
        match download_roots(local_cwd@, remote_cwd@, dirs@) {
            Some(rs) => r matches Some(v) && root_views(v@) == rs,
            None => r is None,
        },
{
    let mut out: Vec<(String, String)> = Vec::new();
    let mut i: usize = 0;
    while i < dirs.len()
        invariant
            i <= dirs@.len(),
            out@.len() == i,
            forall|k: int|
                0 <= k < i ==> #[trigger] remote_child(remote_cwd@, dirs@[k].name@) is Some && local_child(
                    local_cwd@,
                    dirs@[k].name@,
                ) is Some,
            forall|k: int|
                0 <= k < i ==> (#[trigger] out@[k]).0@ == remote_child(remote_cwd@, dirs@[k].name@)->0
                    && out@[k].1@ == local_child(local_cwd@, dirs@[k].name@)->0,
        decreases dirs@.len() - i,
    {
        let d = &dirs[i];
        let remote_root = match safe_remote_child(remote_cwd, d.name.as_str()) {
            Ok(p) => p,
            Err(_) => {
                proof {
                    assert(remote_child(remote_cwd@, dirs@[i as int].name@) is None);
                }
                return None;
            },
        };
        let local_root = match safe_local_child(local_cwd, d.name.as_str()) {
            Ok(p) => p,
            Err(_) => {
                proof {
                    assert(local_child(local_cwd@, dirs@[i as int].name@) is None);
                }
                return None;
            },
        };
        out.push((remote_root, local_root));
        i = i + 1;
    }
    proof {
        let rs = Seq::new(
            dirs@.len(),
            |k: int| (remote_child(remote_cwd@, dirs@[k].name@)->0, local_child(local_cwd@, dirs@[k].name@)->0),
        );
        assert(root_views(out@) =~= rs);
    }
    Some(out)
}

impl DrainQueue {
    /// Each file in turn joins the waiting files; a name that would leave
    /// its folder shows an error instead.
    fn queue_files(&mut self, app: &mut AppState, files: &Vec<FileEntry>, direction: TransferDirection)
        ensures
            final(self)@ == (DrainView {
                pending: old(self)@.pending + waiting_of(old(app)@.local_cwd, old(app)@.remote_cwd, files@, direction),
                ..old(self)@
            }),
            final(app)@ == if some_unsafe(old(app)@.local_cwd, old(app)@.remote_cwd, files@, direction) {
                error_shown(old(app)@, escapes_msg())
            } else {
                old(app)@
            },
            final(app)@.local_cwd == old(app)@.local_cwd,
            final(app)@.remote_cwd == old(app)@.remote_cwd,
            final(app)@.active_connection == old(app)@.active_connection,
    {
        let ghost s0 = app@;
        let ghost d0 = self@;
        let ghost lc = app@.local_cwd;
        let ghost rc = app@.remote_cwd;
        let mut i: usize = 0;
        while i < files.len()
            invariant
                i <= files@.len(),
                s0 == old(app)@,
                d0 == old(self)@,
                lc == s0.local_cwd,
                rc == s0.remote_cwd,
                app@.local_cwd == lc,
                app@.remote_cwd == rc,
                app@.active_connection == s0.active_connection,
                self@ == (DrainView { pending: d0.pending + waiting_of(lc, rc, files@.take(i as int), direction), ..d0 }),
                app@ == if some_unsafe(lc, rc, files@.take(i as int), direction) {
                    error_shown(s0, escapes_msg())
                } else {
                    s0
                },
            decreases files@.len() - i,
        {
            let ghost t = files@.take(i + 1);
            proof {
                assert(t.drop_last() =~= files@.take(i as int));
                assert(t.last() == files@[i as int]);
            }
            let ghost before = app@;
            let ghost old_ps = self.pending_scan@;
            match pending_from_entry(app, &files[i], direction) {
                Ok(f) => {
                    self.pending_scan.push(f);
                    proof {
                        assert(pending_views(self.pending_scan@) =~= pending_views(old_ps).push(f@));
                        assert(waiting_of(lc, rc, t, direction) == waiting_of(lc, rc, files@.take(i as int), direction).push(f@));
                        assert(self@.pending =~= d0.pending + waiting_of(lc, rc, t, direction));
                        if some_unsafe(lc, rc, t, direction) {
                            let k = choose|k: int| 0 <= k < t.len() && #[trigger] pending_for(lc, rc, t[k], direction) is None;
                            assert(k != i);
                            assert(t[k] == files@.take(i as int)[k]);
                        }
                        if some_unsafe(lc, rc, files@.take(i as int), direction) {
                            let k = choose|k: int| 0 <= k < i && #[trigger] pending_for(lc, rc, files@.take(i as int)[k], direction) is None;
                            assert(t[k] == files@.take(i as int)[k]);
                        }
                    }
                },
                Err(_) => {
                    show_escapes(app);
                    proof {
                        reveal(error_shown);
                        assert(waiting_of(lc, rc, t, direction) == waiting_of(lc, rc, files@.take(i as int), direction));
                        assert(pending_for(lc, rc, t[i as int], direction) is None);
                        assert(some_unsafe(lc, rc, t, direction));
                    }
                },
            }
            i = i + 1;
        }
        proof {
            assert(files@.take(files@.len() as int) =~= files@);
        }
    }

    /// Lifts a requested cancel and queues the files (see [`files_started`]).
    fn queue_batch_files(&mut self, app: &mut AppState, files: &Vec<FileEntry>, direction: TransferDirection)
        ensures
            (final(self)@, final(app)@) == files_started(old(self)@, old(app)@, files@, direction),
            final(app)@.local_cwd == old(app)@.local_cwd,
            final(app)@.remote_cwd == old(app)@.remote_cwd,
            final(app)@.active_connection == old(app)@.active_connection,
    {
        release_workers(app);
        self.queue_files(app, files, direction);
    }

    /// Starts a transfer of `entries` (see [`batch_started`]); `io` is the
    /// input/output work in progress.
    pub fn enqueue_entries(
        &mut self,
        app: &mut AppState,
        entries: Vec<FileEntry>,
        direction: TransferDirection,
        io: IoWork,
    ) -> (r: BatchStart)
        ensures
            (final(self)@, final(app)@, r@) == batch_started(old(self)@, old(app)@, entries@, direction, io),
    {
        if self.drain_busy(io) {
            return BatchStart::Nothing;
        }
        let (files, dirs) = split_entries(&entries);
        if files.len() == 0 && dirs.len() == 0 {
            return BatchStart::Nothing;
        }
        self.queue_batch_files(app, &files, direction);
        if dirs.len() == 0 {
            return BatchStart::Drain;
        }
        if io_busy(io) {
            return BatchStart::Nothing;
        }
        self.start_scan(app, &dirs, direction)
    }

    /// Announces the walk of `dirs` and works out its roots (see [`scan_started`]).
    fn start_scan(&self, app: &mut AppState, dirs: &Vec<FileEntry>, direction: TransferDirection) -> (r: BatchStart)
        ensures
            (final(app)@, r@) == scan_started(old(app)@, dirs@, direction),
    {
        announce_scan(app, dirs);
        match direction {
            TransferDirection::Upload => match upload_roots_of(app.remote_cwd.as_str(), dirs) {
                Some(roots) => BatchStart::Scan(roots),
                None => {
                    show_escapes(app);
                    BatchStart::Drain
                },
            },
            TransferDirection::Download => {
                if app.active_connection.is_none() {
                    reduce(app, Action::SetStatus(String::from_str("Not connected")));
                    return BatchStart::Drain;
                }
                match download_roots_of(app.local_cwd.as_str(), app.remote_cwd.as_str(), dirs) {
                    Some(roots) => BatchStart::Scan(roots),
                    None => {
                        show_escapes(app);
                        BatchStart::Drain
                    },
                }
            },
        }
    }
}

/// The pane a transfer in `direction` takes its entries from.
pub open spec fn source_pane(direction: TransferDirection) -> FocusPane {
    match direction {
        TransferDirection::Upload => FocusPane::Local,
        TransferDirection::Download => FocusPane::Remote,
    }
}

/// An upload or download command: refused with a status when not
/// connected, otherwise a transfer of the source pane's entries.
pub open spec fn selected_queued(d: DrainView, s: AppView, direction: TransferDirection, io: IoWork) -> (DrainView, AppView, BatchView) {
    if !s.connected {
        (d, status_set(s, "Not connected"@), BatchView::Nothing)
    } else {
        batch_started(d, s, transfer_entries(s, source_pane(direction)), direction, io)
    }
}

impl DrainQueue {
    fn queue_selected(&mut self, app: &mut AppState, direction: TransferDirection, io: IoWork) -> (r: BatchStart)
        ensures
            (final(self)@, final(app)@, r@) == selected_queued(old(self)@, old(app)@, direction, io),
    {
        if !app.connected {
            reduce(app, Action::SetStatus(String::from_str("Not connected")));
            return BatchStart::Nothing;
        }
        let pane = match direction {
            TransferDirection::Upload => FocusPane::Local,
            TransferDirection::Download => FocusPane::Remote,
        };
        let entries = pane_entries_for_transfer(app, pane);
        self.enqueue_entries(app, entries, direction, io)
    }

    /// The upload command: the local pane's entries go up (see [`selected_queued`]).
    pub fn queue_upload_selected(&mut self, app: &mut AppState, io: IoWork) -> (r: BatchStart)
        ensures
            (final(self)@, final(app)@, r@) == selected_queued(old(self)@, old(app)@, TransferDirection::Upload, io),
    {
        self.queue_selected(app, TransferDirection::Upload, io)
    }

    /// The download command: the remote pane's entries come down (see [`selected_queued`]).
    pub fn queue_download_selected(&mut self, app: &mut AppState, io: IoWork) -> (r: BatchStart)
        ensures
            (final(self)@, final(app)@, r@) == selected_queued(old(self)@, old(app)@, TransferDirection::Download, io),
    {
        self.queue_selected(app, TransferDirection::Download, io)
    }
}

/// A busy drain ignores transfer commands: nothing changes and nothing is
/// asked of the event loop.
pub proof fn law_busy_drain_ignores_transfers(d: DrainView, s: AppView, es: Seq<FileEntry>, direction: TransferDirection, io: IoWork)
    requires
        drain_busy_spec(d, io),
    ensures
        batch_started(d, s, es, direction, io) == (d, s, BatchView::Nothing),
{
}

/// A transfer command that goes ahead lifts a requested cancel, so that
/// workers may start again; the drain's own queuing leaves it in force.
pub proof fn law_transfer_lifts_cancel(d: DrainView, s: AppView, es: Seq<FileEntry>, direction: TransferDirection, io: IoWork)
    requires
        !drain_busy_spec(d, io),
        es.filter(file_pick()).len() > 0 || es.filter(dir_pick()).len() > 0,
    ensures
        !batch_started(d, s, es, direction, io).1.worker_cancel_requested,
{
    reveal(error_shown);
    reveal(status_set);
}

/// Only entries other than `.` and `..` travel: every waiting file a
/// transfer adds comes from such an entry, and every folder walk starts at
/// one.
pub proof fn law_dot_entries_never_travel(es: Seq<FileEntry>)
    ensures
        forall|i: int| 0 <= i < es.filter(file_pick()).len() ==> !is_dot_name(#[trigger] es.filter(file_pick())[i].name@),
        forall|i: int| 0 <= i < es.filter(dir_pick()).len() ==> !is_dot_name(#[trigger] es.filter(dir_pick())[i].name@),
{
    assert forall|i: int| 0 <= i < es.filter(file_pick()).len() implies !is_dot_name(#[trigger] es.filter(file_pick())[i].name@) by {
        es.filter_lemma(file_pick());
        assert(file_pick()(es.filter(file_pick())[i]));
    }
    assert forall|i: int| 0 <= i < es.filter(dir_pick()).len() implies !is_dot_name(#[trigger] es.filter(dir_pick())[i].name@) by {
        es.filter_lemma(dir_pick());
        assert(dir_pick()(es.filter(dir_pick())[i]));
    }
}

} // verus!
