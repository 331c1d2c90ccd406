//! The reducer: how each action changes the UI state.
use vstd::prelude::*;
use crate::actions::Action;
use crate::model::{ConnView, ConnectionInfo, FileEntry, Protocol, TransferJob, opt_chars, uuid_text, job_id_text};
use crate::text::{chars_of, string_of, slice_range, str_eq, push_char, decimal, u64_to_decimal, concat2, concat3};
use crate::text_field::{
    TextField, TextFieldView, empty_field, field_insert, field_insert_fits, field_backspace,
    field_move, field_begin_drag, field_extend_drag,
};
use crate::toast::{Toast, ToastLevel, ToastView};
use crate::queue::{
    QueueView, enqueue_spec, start_next_spec, mark_completed_spec, mark_failed_spec,
    mark_cancelled_spec, retry_spec, progress_spec, clear_pending_spec,
};
use crate::state::{
    AppState, AppView, ChoicePromptKind, FocusPane, PromptKind, QuickConnectField, SelectPolicy,
    TextPromptKind, hydrated, flushed, focused, row_at, visible_local_of, visible_remote_of,
    field_after, field_before, deref_rows,
};

verus! {

/// The first row at or after `i` named `n`.
pub open spec fn name_pos_from(rows: Seq<FileEntry>, n: Seq<char>, i: int) -> Option<int>
    decreases rows.len() - i,
{
    if i < 0 || i >= rows.len() {
        None
    } else if rows[i].name@ == n {
        Some(i)
    } else {
        name_pos_from(rows, n, i + 1)
    }
}

/// `current` clamped to the last of `len` rows (0 when there are none).
pub open spec fn clamp_sel(current: usize, len: nat) -> usize {
    let last = if len == 0 {
        0
    } else {
        len - 1
    };
    if current < last {
        current
    } else {
        last as usize
    }
}

/// Where the selection lands on `rows` under `policy`.
pub open spec fn resolve(current: usize, rows: Seq<FileEntry>, previous: Option<Seq<char>>, policy: SelectPolicy) -> usize {
    match policy {
        SelectPolicy::Reset => 0,
        SelectPolicy::Clamp => clamp_sel(current, rows.len()),
        SelectPolicy::PreserveName => match previous {
            Some(n) => match name_pos_from(rows, n, 0) {
                Some(k) => k as usize,
                None => clamp_sel(current, rows.len()),
            },
            None => clamp_sel(current, rows.len()),
        },
    }
}

/// An optional name as characters.
pub open spec fn opt_str(o: Option<&str>) -> Option<Seq<char>> {
    match o {
        Some(s) => Some(s@),
        None => None,
    }
}

proof fn lemma_name_pos_bounds(rows: Seq<FileEntry>, n: Seq<char>, i: int)
    ensures
        match name_pos_from(rows, n, i) {
            Some(k) => i <= k < rows.len() && rows[k].name@ == n,
            None => true,
        },
    decreases rows.len() - i,
{
    if 0 <= i < rows.len() && rows[i].name@ != n {
        lemma_name_pos_bounds(rows, n, i + 1);
    }
}

/// Where the selection lands on `visible` under `policy`.
pub fn resolve_select(current: usize, visible: &Vec<&FileEntry>, previous_name: Option<&str>, policy: SelectPolicy) -> (r: usize)
    ensures
        r == resolve(current, deref_rows(visible@), opt_str(previous_name), policy),
{
    let ghost rows = deref_rows(visible@);
    let last = if visible.len() == 0 {
        0
    } else {
        visible.len() - 1
    };
    let clamped = if current < last {
        current
    } else {
        last
    };
    match policy {
        SelectPolicy::Reset => 0,
        SelectPolicy::Clamp => clamped,
        SelectPolicy::PreserveName => match previous_name {
            Some(name) => {
                let mut i: usize = 0;
                while i < visible.len()
                    invariant
                        i <= visible@.len(),
                        rows == deref_rows(visible@),
                        previous_name == Some(name),
                        policy == SelectPolicy::PreserveName,
                        name_pos_from(rows, name@, 0) == name_pos_from(rows, name@, i as int),
                    decreases visible@.len() - i,
                {
                    if str_eq(visible[i].name.as_str(), name) {
                        assert(rows[i as int] == *visible@[i as int]);
                        return i;
                    }
                    assert(rows[i as int] == *visible@[i as int]);
                    i = i + 1;
                }
                clamped
            },
            None => clamped,
        },
    }
}

/// The name of the selected local row, if any.
pub open spec fn selected_local_name(s: AppView) -> Option<Seq<char>> {
    match row_at(visible_local_of(s), s.selected_local) {
        Some(e) => Some(e.name@),
        None => None,
    }
}

/// The name of the selected remote row, if any.
pub open spec fn selected_remote_name(s: AppView) -> Option<Seq<char>> {
    match row_at(visible_remote_of(s), s.selected_remote) {
        Some(e) => Some(e.name@),
        None => None,
    }
}

/// The state with both selections moved back onto the rows named before
/// a filter change (or clamped when those rows are gone).
pub open spec fn preserved(s: AppView, local_name: Option<Seq<char>>, remote_name: Option<Seq<char>>) -> AppView {
    AppView {
        selected_local: resolve(s.selected_local, visible_local_of(s), local_name, SelectPolicy::PreserveName),
        selected_remote: resolve(s.selected_remote, visible_remote_of(s), remote_name, SelectPolicy::PreserveName),
        ..s
    }
}

fn selected_local_name_exec(state: &AppState) -> (r: Option<String>)
    ensures
        opt_chars(r) == selected_local_name(state@),
{
    match state.selected_local_entry() {
        Some(e) => Some(e.name.clone()),
        None => None,
    }
}

fn selected_remote_name_exec(state: &AppState) -> (r: Option<String>)
    ensures
        opt_chars(r) == selected_remote_name(state@),
{
    match state.selected_remote_entry() {
        Some(e) => Some(e.name.clone()),
        None => None,
    }
}

fn as_opt_str(o: &Option<String>) -> (r: Option<&str>)
    ensures
        opt_str(r) == opt_chars(*o),
{
    match o {
        Some(s) => Some(s.as_str()),
        None => None,
    }
}

/// Moves both selections back onto the rows named `local_name` and `remote_name`.
pub fn preserve_filter_selection(state: &mut AppState, local_name: Option<String>, remote_name: Option<String>)
    ensures
        final(state)@ == preserved(old(state)@, opt_chars(local_name), opt_chars(remote_name)),
{
    let idx = {
        let visible = state.visible_local();
        resolve_select(state.selected_local, &visible, as_opt_str(&local_name), SelectPolicy::PreserveName)
    };
    state.selected_local = idx;
    let idx = {
        let visible = state.visible_remote();
        resolve_select(state.selected_remote, &visible, as_opt_str(&remote_name), SelectPolicy::PreserveName)
    };
    state.selected_remote = idx;
}

/// The state after a pane's listing is replaced, the selection placed by `select`.
#[verifier::opaque]
pub open spec fn entries_set(s: AppView, entries: Seq<FileEntry>, select: SelectPolicy, local: bool) -> AppView {
    if local {
        let s1 = AppView { local_entries: entries, ..s };
        AppView { selected_local: resolve(s.selected_local, visible_local_of(s1), selected_local_name(s), select), ..s1 }
    } else {
        let s1 = AppView { remote_entries: entries, ..s };
        AppView { selected_remote: resolve(s.selected_remote, visible_remote_of(s1), selected_remote_name(s), select), ..s1 }
    }
}

fn set_entries(state: &mut AppState, entries: Vec<FileEntry>, select: SelectPolicy, local: bool)
    ensures
        final(state)@ == entries_set(old(state)@, entries@, select, local),
{
    reveal(entries_set);
    if local {
        let previous_name = selected_local_name_exec(state);
        state.local_entries = entries;
        let idx = {
            let visible = state.visible_local();
            resolve_select(state.selected_local, &visible, as_opt_str(&previous_name), select)
        };
        state.selected_local = idx;
    } else {
        let previous_name = selected_remote_name_exec(state);
        state.remote_entries = entries;
        let idx = {
            let visible = state.visible_remote();
            resolve_select(state.selected_remote, &visible, as_opt_str(&previous_name), select)
        };
        state.selected_remote = idx;
    }
}

/// The status line naming a bookmark.
pub open spec fn bookmark_status(b: ConnView) -> Seq<char> {
    "Bookmark: "@ + b.name + " ("@ + b.host + ")"@
}

/// The state after stepping the bookmark selection forward or back.
#[verifier::opaque]
pub open spec fn bookmark_stepped(s: AppView, forward: bool) -> AppView {
    let n = s.bookmarks.len();
    if n == 0 {
        AppView { status: "No bookmarks saved"@, ..s }
    } else {
        let i = stepped_index(s.selected_bookmark, n, forward);
        AppView { selected_bookmark: i as usize, status: bookmark_status(s.bookmarks[i]@), ..s }
    }
}

/// Whether stepping the bookmark selection stays in range (the step panics otherwise).
pub open spec fn bookmark_step_ok(s: AppView, forward: bool) -> bool {
    s.bookmarks.len() > 0 ==> if forward {
        s.selected_bookmark < usize::MAX
    } else {
        s.selected_bookmark == 0 || s.selected_bookmark <= s.bookmarks.len()
    }
}

/// The bookmark index a step selects among `n > 0` bookmarks.
pub open spec fn stepped_index(sel: usize, n: nat, forward: bool) -> int {
    if forward {
        (sel + 1) % (n as int)
    } else if sel == 0 {
        n - 1
    } else {
        sel - 1
    }
}

fn step_index(sel: usize, n: usize, forward: bool) -> (r: usize)
    requires
        n > 0,
        forward ==> sel < usize::MAX,
        !forward ==> sel == 0 || sel <= n,
    ensures
        r == stepped_index(sel, n as nat, forward),
        r < n,
{
    if forward {
        (sel + 1) % n
    } else if sel == 0 {
        n - 1
    } else {
        sel - 1
    }
}

fn bookmark_status_exec(bm: &ConnectionInfo) -> (r: String)
    ensures
        r@ == bookmark_status(bm@),
{
    let a = concat3("Bookmark: ", bm.name.as_str(), " (");
    concat3(a.as_str(), bm.host.as_str(), ")")
}

#[verifier::rlimit(40)]
fn step_bookmark(state: &mut AppState, forward: bool)
    requires
        bookmark_step_ok(old(state)@, forward),
    ensures
        final(state)@ == bookmark_stepped(old(state)@, forward),
{
    reveal(bookmark_stepped);
    let n = state.bookmarks.len();
    if n == 0 {
        state.status = String::from_str("No bookmarks saved");
        return;
    }
    let i = step_index(state.selected_bookmark, n, forward);
    let status = bookmark_status_exec(&state.bookmarks[i]);
    state.selected_bookmark = i;
    state.status = status;
}

/// The next protocol in the quick-connect cycle.
/// The next protocol in the quick-connect cycle.
pub open spec fn protocol_after(p: Protocol) -> Protocol {
    match p {
        Protocol::Sftp => Protocol::Ftp,
        Protocol::Ftp => Protocol::Ftps,
        Protocol::Ftps => Protocol::Sftp,
    }
}

/// The previous protocol in the quick-connect cycle.
pub open spec fn protocol_before(p: Protocol) -> Protocol {
    match p {
        Protocol::Sftp => Protocol::Ftps,
        Protocol::Ftp => Protocol::Sftp,
        Protocol::Ftps => Protocol::Ftp,
    }
}

/// Whether `c` is an ASCII digit (`char::is_ascii_digit`).
pub open spec fn ascii_digit(c: char) -> bool {
    '0' <= c <= '9'
}

/// Whether a typed character reaches the focused quick-connect field: the
/// port field takes digits only.
pub open spec fn qc_accepts(s: AppView, ch: char) -> bool {
    s.quick_connect_field != QuickConnectField::Port || ascii_digit(ch)
}

/// Quick connect opened (on the name field, bookmarks closed) or closed.
#[verifier::opaque]
pub open spec fn qc_toggled(s: AppView) -> AppView {
    if !s.show_quick_connect {
        hydrated(AppView { show_quick_connect: true, show_bookmarks: false, quick_connect_field: QuickConnectField::Name, ..s })
    } else {
        AppView { show_quick_connect: false, ..s }
    }
}

/// The quick-connect focus moved to the next or previous field, editor reloaded.
#[verifier::opaque]
pub open spec fn qc_field_stepped(s: AppView, forward: bool) -> AppView {
    hydrated(AppView {
        quick_connect_field: if forward {
            field_after(s.quick_connect_field)
        } else {
            field_before(s.quick_connect_field)
        },
        ..s
    })
}

/// A character typed into the quick-connect editor and written back.
#[verifier::opaque]
pub open spec fn qc_typed(s: AppView, ch: char) -> AppView {
    if qc_accepts(s, ch) {
        flushed(AppView { qc_field: field_insert(s.qc_field, ch), ..s })
    } else {
        s
    }
}

/// Backspace in the quick-connect editor, written back.
#[verifier::opaque]
pub open spec fn qc_backspaced(s: AppView) -> AppView {
    flushed(AppView { qc_field: field_backspace(s.qc_field), ..s })
}

/// The quick-connect editor with its field replaced.
pub open spec fn qc_edited(s: AppView, f: TextFieldView) -> AppView {
    AppView { qc_field: f, ..s }
}

/// The quick-connect protocol stepped forward or back.
#[verifier::opaque]
pub open spec fn protocol_stepped(s: AppView, forward: bool) -> AppView {
    AppView {
        quick_connect: ConnView {
            protocol: if forward {
                protocol_after(s.quick_connect.protocol)
            } else {
                protocol_before(s.quick_connect.protocol)
            },
            ..s.quick_connect
        },
        ..s
    }
}

/// A bookmark loaded into quick connect, on the name field.
#[verifier::opaque]
pub open spec fn qc_loaded(s: AppView, info: ConnView) -> AppView {
    let s1 = hydrated(AppView { quick_connect: info, quick_connect_field: QuickConnectField::Name, ..s });
    AppView { status: "Loaded bookmark into quick connect"@, ..s1 }
}

/// A queue status line with the pending and active counts.
pub open spec fn counts_status(label: Seq<char>, q: QueueView) -> Seq<char> {
    label + " Pending: "@ + decimal(q.pending.len()) + " Active: "@ + decimal(q.active.len())
}

/// A job queued by the user, with the pending count reported; a requested
/// cancel is lifted so that workers may start again.
#[verifier::opaque]
pub open spec fn queued(s: AppView, job: TransferJob) -> AppView {
    let q = enqueue_spec(s.queue, job);
    AppView {
        queue: q,
        status: "Queue: "@ + decimal(q.pending.len()) + " pending"@,
        worker_cancel_requested: false,
        ..s
    }
}

/// The oldest pending job started, and its id reported.
#[verifier::opaque]
pub open spec fn started_next(s: AppView) -> AppView {
    let (q, r) = start_next_spec(s.queue);
    AppView {
        queue: q,
        status: match r {
            Some(job) => "Transfer active: "@ + uuid_text(job.id),
            None => "Queue is empty"@,
        },
        ..s
    }
}

/// A completed job filed, with the counts reported.
#[verifier::opaque]
pub open spec fn completed_marked(s: AppView, job: TransferJob) -> AppView {
    let q = mark_completed_spec(s.queue, job);
    AppView { queue: q, status: counts_status("Transfer complete."@, q), ..s }
}

/// A failed job filed, with the counts reported.
#[verifier::opaque]
pub open spec fn failed_marked(s: AppView, job: TransferJob) -> AppView {
    let q = mark_failed_spec(s.queue, job);
    AppView { queue: q, status: counts_status("Transfer failed."@, q), ..s }
}

/// A cancelled job filed, with the counts reported.
#[verifier::opaque]
pub open spec fn cancelled_marked(s: AppView, job: TransferJob) -> AppView {
    let q = mark_cancelled_spec(s.queue, job);
    AppView { queue: q, status: counts_status("Transfer cancelled."@, q), ..s }
}

/// The last failed job requeued, or a note that there is none.
#[verifier::opaque]
pub open spec fn retried_last(s: AppView) -> AppView {
    let (q, r) = retry_spec(s.queue);
    AppView {
        queue: q,
        status: if r is Some {
            "Requeued last failed transfer. Pending: "@ + decimal(q.pending.len())
        } else {
            "No failed transfer to retry"@
        },
        ..s
    }
}

/// The pending jobs dropped, with their number reported.
#[verifier::opaque]
pub open spec fn pending_cleared(s: AppView) -> AppView {
    let (q, n) = clear_pending_spec(s.queue);
    AppView { queue: q, status: "Cleared "@ + decimal(n) + " pending transfer(s)"@, ..s }
}

/// The last row index of a pane with `n` rows (0 when empty).
pub open spec fn last_row(n: nat) -> int {
    if n == 0 {
        0
    } else {
        n - 1
    }
}

/// The selection of the focused file pane moved up one row.
#[verifier::opaque]
pub open spec fn selected_up(s: AppView) -> AppView {
    match s.focus {
        FocusPane::Local => local_up(s),
        FocusPane::Remote => remote_up(s),
        FocusPane::Queue => s,
    }
}

/// The selection of the focused file pane moved down one row, never past the last.
#[verifier::opaque]
pub open spec fn selected_down(s: AppView) -> AppView {
    match s.focus {
        FocusPane::Local => local_down(s),
        FocusPane::Remote => remote_down(s),
        FocusPane::Queue => s,
    }
}

/// The filter pattern changed to `pattern` (and the bar shown or hidden as
/// `show`), the selections following the rows they were on.
#[verifier::opaque]
pub open spec fn refiltered(s: AppView, show: bool, pattern: Seq<char>) -> AppView {
    preserved(AppView { show_filter: show, filter_pattern: pattern, ..s }, selected_local_name(s), selected_remote_name(s))
}

/// The pattern after one character is erased from its end (`String::pop`).
pub open spec fn popped(p: Seq<char>) -> Seq<char> {
    if p.len() > 0 {
        p.drop_last()
    } else {
        p
    }
}

/// A text prompt of `kind` opened with an empty value.
#[verifier::opaque]
pub open spec fn text_prompt_shown(s: AppView, kind: TextPromptKind) -> AppView {
    AppView {
        show_prompt: true,
        prompt_kind: Some(PromptKind::Text(kind)),
        prompt_value: empty_field(),
        prompt_target: None,
        ..s
    }
}

/// The state with the prompt closed and its fields reset.
#[verifier::opaque]
pub open spec fn prompt_closed(s: AppView) -> AppView {
    AppView {
        show_prompt: false,
        prompt_kind: None,
        prompt_value: empty_field(),
        prompt_target: None,
        host_key: None,
        ..s
    }
}

/// The pane after `p` in focus order.
pub open spec fn pane_after(p: FocusPane) -> FocusPane {
    match p {
        FocusPane::Local => FocusPane::Remote,
        FocusPane::Remote => FocusPane::Queue,
        FocusPane::Queue => FocusPane::Local,
    }
}

/// One overlay toggled; opening help closes the theme debug view and the
/// other way round.
#[verifier::opaque]
pub open spec fn overlay_toggled(s: AppView, help: bool) -> AppView {
    if help {
        let open = !s.show_help;
        AppView {
            show_help: open,
            show_theme_debug: if open {
                false
            } else {
                s.show_theme_debug
            },
            ..s
        }
    } else {
        let open = !s.show_theme_debug;
        AppView {
            show_theme_debug: open,
            show_help: if open {
                false
            } else {
                s.show_help
            },
            ..s
        }
    }
}

/// The bookmark list toggled; opening it closes quick connect.
#[verifier::opaque]
pub open spec fn bookmarks_toggled(s: AppView) -> AppView {
    let open = !s.show_bookmarks;
    AppView {
        show_bookmarks: open,
        show_quick_connect: if open {
            false
        } else {
            s.show_quick_connect
        },
        ..s
    }
}

/// The status while connecting to `host`.
#[verifier::opaque]
pub open spec fn connecting(s: AppView, host: Seq<char>) -> AppView {
    AppView { status: "Connecting to "@ + host + "..."@, ..s }
}

/// The state after a disconnect.
#[verifier::opaque]
pub open spec fn disconnected(s: AppView) -> AppView {
    AppView { connected: false, status: "Disconnected"@, ..s }
}

/// The connection flag set, and reported.
#[verifier::opaque]
pub open spec fn connection_set(s: AppView, v: bool) -> AppView {
    AppView {
        connected: v,
        status: if v {
            "Connected"@
        } else {
            "Disconnected"@
        },
        ..s
    }
}

/// The bookmark list replaced, the first one selected.
#[verifier::opaque]
pub open spec fn bookmarks_set(s: AppView, b: Seq<ConnectionInfo>) -> AppView {
    AppView { bookmarks: b, selected_bookmark: 0, ..s }
}

/// The quick-connect editor reloaded from the focused field.
#[verifier::opaque]
pub open spec fn qc_synced(s: AppView) -> AppView {
    hydrated(s)
}

/// A progress report applied to the active job `id`.
#[verifier::opaque]
pub open spec fn queue_progressed(s: AppView, id: u128, transferred: u64, size: Option<u64>) -> AppView {
    AppView { queue: progress_spec(s.queue, id, transferred, size), ..s }
}

/// The status line replaced.
#[verifier::opaque]
pub open spec fn status_set(s: AppView, msg: Seq<char>) -> AppView {
    AppView { status: msg, ..s }
}

/// An error shown as a toast and on the status line.
#[verifier::opaque]
pub open spec fn error_shown(s: AppView, msg: Seq<char>) -> AppView {
    AppView {
        toast: Some(ToastView { message: msg, level: ToastLevel::Error }),
        status: "Error: "@ + msg,
        ..s
    }
}

/// The toast dismissed.
#[verifier::opaque]
pub open spec fn error_cleared(s: AppView) -> AppView {
    AppView { toast: None, ..s }
}

/// Focus moved to the next pane.
#[verifier::opaque]
pub open spec fn focus_advanced(s: AppView) -> AppView {
    focused(s, pane_after(s.focus))
}

/// The compare view toggled.
#[verifier::opaque]
pub open spec fn compare_toggled(s: AppView) -> AppView {
    AppView { show_compare: !s.show_compare, ..s }
}

/// The delete confirmation opened.
#[verifier::opaque]
pub open spec fn delete_prompt_shown(s: AppView) -> AppView {
    AppView {
        show_prompt: true,
        prompt_kind: Some(PromptKind::Choice(ChoicePromptKind::ConfirmDelete)),
        prompt_target: None,
        ..s
    }
}

/// A choice prompt of `kind` opened; the text value is left alone.
#[verifier::opaque]
pub open spec fn choice_prompt_shown(s: AppView, kind: ChoicePromptKind) -> AppView {
    AppView { show_prompt: true, prompt_kind: Some(PromptKind::Choice(kind)), ..s }
}

/// A character typed into the prompt.
#[verifier::opaque]
pub open spec fn prompt_typed(s: AppView, ch: char) -> AppView {
    AppView { prompt_value: field_insert(s.prompt_value, ch), ..s }
}

/// Backspace in the prompt.
#[verifier::opaque]
pub open spec fn prompt_backspaced(s: AppView) -> AppView {
    AppView { prompt_value: field_backspace(s.prompt_value), ..s }
}

/// The state after `action`.
pub open spec fn reduce_spec(s: AppView, a: Action) -> AppView {
    match a {
        Action::Connect(info) => connecting(s, info.host@),
        Action::Disconnect => disconnected(s),
        Action::SetConnected(v) => connection_set(s, v),
        Action::SetLocalEntries { entries, select } => entries_set(s, entries@, select, true),
        Action::SetRemoteEntries { entries, select } => entries_set(s, entries@, select, false),
        Action::SetBookmarks(bookmarks) => bookmarks_set(s, bookmarks@),
        Action::SelectNextBookmark => bookmark_stepped(s, true),
        Action::SelectPrevBookmark => bookmark_stepped(s, false),
        Action::ToggleBookmarks => bookmarks_toggled(s),
        Action::ToggleQuickConnect => qc_toggled(s),
        Action::QuickConnectNextField => qc_field_stepped(s, true),
        Action::QuickConnectPrevField => qc_field_stepped(s, false),
        Action::QuickConnectInput(ch) => qc_typed(s, ch),
        Action::QuickConnectBackspace => qc_backspaced(s),
        Action::QuickConnectSyncField => qc_synced(s),
        Action::QuickConnectBeginSelect(i) => qc_edited(s, field_begin_drag(s.qc_field, i)),
        Action::QuickConnectExtendSelect(i) => qc_edited(s, field_extend_drag(s.qc_field, i)),
        Action::QuickConnectMoveCursor { dir, shift } => qc_edited(s, field_move(s.qc_field, dir, shift)),
        Action::QuickConnectSetProtocolNext => protocol_stepped(s, true),
        Action::QuickConnectSetProtocolPrev => protocol_stepped(s, false),
        Action::QuickConnectSetFromBookmark(info) => qc_loaded(s, info@),
        Action::QueueTransfer(job) => queued(s, job),
        Action::StartNextTransfer => started_next(s),
        Action::MarkTransferCompleted(job) => completed_marked(s, job),
        Action::MarkTransferFailed(job) => failed_marked(s, job),
        Action::MarkTransferCancelled(job) => cancelled_marked(s, job),
        Action::RetryLastFailed => retried_last(s),
        Action::UpdateTransferProgress { job_id, transferred_bytes, size_bytes } => queue_progressed(s, job_id, transferred_bytes, size_bytes),
        Action::ClearPendingTransfers => pending_cleared(s),
        Action::SetStatus(msg) => status_set(s, msg@),
        Action::ShowError(msg) => error_shown(s, msg@),
        Action::ClearError => error_cleared(s),
        Action::FocusNextPane => focus_advanced(s),
        Action::ToggleHelp => overlay_toggled(s, true),
        Action::ToggleThemeDebug => overlay_toggled(s, false),
        Action::SelectUp => selected_up(s),
        Action::SelectDown => selected_down(s),
        Action::ToggleFilter => refiltered(s, !s.show_filter, if !s.show_filter {
            s.filter_pattern
        } else {
            Seq::empty()
        }),
        Action::FilterInput(ch) => refiltered(s, s.show_filter, s.filter_pattern.push(ch)),
        Action::FilterBackspace => refiltered(s, s.show_filter, popped(s.filter_pattern)),
        Action::ClearFilter => refiltered(s, s.show_filter, Seq::empty()),
        Action::ToggleCompare => compare_toggled(s),
        Action::ShowCreatePrompt => text_prompt_shown(s, TextPromptKind::CreateFile),
        Action::ShowRenamePrompt => text_prompt_shown(s, TextPromptKind::Rename),
        Action::ShowDeletePrompt => delete_prompt_shown(s),
        Action::ShowChoicePrompt(kind) => choice_prompt_shown(s, kind),
        Action::PromptInput(ch) => prompt_typed(s, ch),
        Action::PromptBackspace => prompt_backspaced(s),
        Action::ConfirmPrompt => prompt_closed(s),
        Action::CancelPrompt => prompt_closed(s),
        Action::CreateFile(_) => s,
        Action::CreateFolder(_) => s,
        Action::RenameItem(_, _) => s,
        Action::DeleteItem(_) => s,
    }
}

/// The inputs on which the reducer does not panic: typing needs room to
/// advance the cursor, and stepping bookmarks needs an index in range.
pub open spec fn reduce_allowed(s: AppView, a: Action) -> bool {
    match a {
        Action::QuickConnectInput(ch) => qc_accepts(s, ch) ==> field_insert_fits(s.qc_field),
        Action::PromptInput(_) => field_insert_fits(s.prompt_value),
        Action::SelectNextBookmark => bookmark_step_ok(s, true),
        Action::SelectPrevBookmark => bookmark_step_ok(s, false),
        _ => true,
    }
}

fn toggle_quick_connect(state: &mut AppState)
    ensures
        final(state)@ == qc_toggled(old(state)@),
{
    reveal(qc_toggled);
    state.show_quick_connect = !state.show_quick_connect;
    if state.show_quick_connect {
        state.show_bookmarks = false;
        state.quick_connect_field = QuickConnectField::Name;
        state.qc_hydrate();
    }
}

fn step_qc_field(state: &mut AppState, forward: bool)
    ensures
        final(state)@ == qc_field_stepped(old(state)@, forward),
{
    reveal(qc_field_stepped);
    state.quick_connect_field = if forward {
        state.quick_connect_field.next()
    } else {
        state.quick_connect_field.prev()
    };
    state.qc_hydrate();
}

fn qc_type(state: &mut AppState, ch: char)
    requires
        qc_accepts(old(state)@, ch) ==> field_insert_fits(old(state)@.qc_field),
    ensures
        final(state)@ == qc_typed(old(state)@, ch),
{
    reveal(qc_typed);
    if state.quick_connect_field != QuickConnectField::Port || ('0' <= ch && ch <= '9') {
        state.qc_field.insert_char(ch);
        state.qc_flush();
    }
}

fn qc_backspace(state: &mut AppState)
    ensures
        final(state)@ == qc_backspaced(old(state)@),
{
    reveal(qc_backspaced);
    state.qc_field.backspace();
    state.qc_flush();
}

fn step_protocol(state: &mut AppState, forward: bool)
    ensures
        final(state)@ == protocol_stepped(old(state)@, forward),
{
    reveal(protocol_stepped);
    state.quick_connect.protocol = if forward {
        match state.quick_connect.protocol {
            Protocol::Sftp => Protocol::Ftp,
            Protocol::Ftp => Protocol::Ftps,
            Protocol::Ftps => Protocol::Sftp,
        }
    } else {
        match state.quick_connect.protocol {
            Protocol::Sftp => Protocol::Ftps,
            Protocol::Ftp => Protocol::Sftp,
            Protocol::Ftps => Protocol::Ftp,
        }
    };
}

fn load_bookmark(state: &mut AppState, info: ConnectionInfo)
    ensures
        final(state)@ == qc_loaded(old(state)@, info@),
{
    reveal(qc_loaded);
    state.quick_connect = info;
    state.quick_connect_field = QuickConnectField::Name;
    state.qc_hydrate();
    state.status = String::from_str("Loaded bookmark into quick connect");
}

/// `label` followed by the decimal text of `n`.
fn with_count(label: &str, n: usize) -> (r: String)
    ensures
        r@ == label@ + decimal(n as nat),
{
    let d = u64_to_decimal(n as u64);
    concat2(label, d.as_str())
}

fn counts_status_exec(label: &str, pending: usize, active: usize) -> (r: String)
    ensures
        r@ == label@ + " Pending: "@ + decimal(pending as nat) + " Active: "@ + decimal(active as nat),
{
    let a = concat2(label, " Pending: ");
    let b = with_count(a.as_str(), pending);
    let c = concat2(b.as_str(), " Active: ");
    with_count(c.as_str(), active)
}

fn queue_job(state: &mut AppState, job: TransferJob)
    ensures
        final(state)@ == queued(old(state)@, job),
{
    reveal(queued);
    state.worker_cancel_requested = false;
    state.queue.enqueue(job);
    let a = with_count("Queue: ", state.queue.pending.len());
    state.status = concat2(a.as_str(), " pending");
}

fn start_next(state: &mut AppState)
    ensures
        final(state)@ == started_next(old(state)@),
{
    reveal(started_next);
    match state.queue.start_next() {
        Some(job) => {
            let id = job_id_text(job.id);
            state.status = concat2("Transfer active: ", id.as_str());
        },
        None => {
            state.status = String::from_str("Queue is empty");
        },
    }
}

fn mark_completed(state: &mut AppState, job: TransferJob)
    ensures
        final(state)@ == completed_marked(old(state)@, job),
{
    reveal(completed_marked);
    state.queue.mark_completed(job);
    let status = counts_status_exec("Transfer complete.", state.queue.pending.len(), state.queue.active.len());
    state.status = status;
}

fn mark_failed(state: &mut AppState, job: TransferJob)
    ensures
        final(state)@ == failed_marked(old(state)@, job),
{
    reveal(failed_marked);
    state.queue.mark_failed(job);
    let status = counts_status_exec("Transfer failed.", state.queue.pending.len(), state.queue.active.len());
    state.status = status;
}

fn mark_cancelled(state: &mut AppState, job: TransferJob)
    ensures
        final(state)@ == cancelled_marked(old(state)@, job),
{
    reveal(cancelled_marked);
    state.queue.mark_cancelled(job);
    let status = counts_status_exec("Transfer cancelled.", state.queue.pending.len(), state.queue.active.len());
    state.status = status;
}

fn retry_last(state: &mut AppState)
    ensures
        final(state)@ == retried_last(old(state)@),
{
    reveal(retried_last);
    if state.queue.retry_last_failed().is_some() {
        state.status = with_count("Requeued last failed transfer. Pending: ", state.queue.pending.len());
    } else {
        state.status = String::from_str("No failed transfer to retry");
    }
}

fn clear_pending(state: &mut AppState)
    ensures
        final(state)@ == pending_cleared(old(state)@),
{
    reveal(pending_cleared);
    let removed = state.queue.clear_pending();
    let a = with_count("Cleared ", removed);
    state.status = concat2(a.as_str(), " pending transfer(s)");
}

/// One row up in the local pane.
pub open spec fn local_up(s: AppView) -> AppView {
    AppView {
        selected_local: if s.selected_local > 0 {
            (s.selected_local - 1) as usize
        } else {
            s.selected_local
        },
        ..s
    }
}

/// One row up in the remote pane.
pub open spec fn remote_up(s: AppView) -> AppView {
    AppView {
        selected_remote: if s.selected_remote > 0 {
            (s.selected_remote - 1) as usize
        } else {
            s.selected_remote
        },
        ..s
    }
}

/// One row down in the local pane, never past the last row.
pub open spec fn local_down(s: AppView) -> AppView {
    AppView {
        selected_local: if s.selected_local < last_row(visible_local_of(s).len()) {
            (s.selected_local + 1) as usize
        } else {
            s.selected_local
        },
        ..s
    }
}

/// One row down in the remote pane, never past the last row.
pub open spec fn remote_down(s: AppView) -> AppView {
    AppView {
        selected_remote: if s.selected_remote < last_row(visible_remote_of(s).len()) {
            (s.selected_remote + 1) as usize
        } else {
            s.selected_remote
        },
        ..s
    }
}

fn move_local_up(state: &mut AppState)
    ensures
        final(state)@ == local_up(old(state)@),
{
    if state.selected_local > 0 {
        state.selected_local = state.selected_local - 1;
    }
}

fn move_remote_up(state: &mut AppState)
    ensures
        final(state)@ == remote_up(old(state)@),
{
    if state.selected_remote > 0 {
        state.selected_remote = state.selected_remote - 1;
    }
}

#[verifier::rlimit(80)]
fn move_local_down(state: &mut AppState)
    ensures
        final(state)@ == local_down(old(state)@),
{
    let n = state.visible_local_indices().len();
    let last = if n == 0 {
        0
    } else {
        n - 1
    };
    if state.selected_local < last {
        state.selected_local = state.selected_local + 1;
    }
}

#[verifier::rlimit(80)]
fn move_remote_down(state: &mut AppState)
    ensures
        final(state)@ == remote_down(old(state)@),
{
    let n = state.visible_remote_indices().len();
    let last = if n == 0 {
        0
    } else {
        n - 1
    };
    if state.selected_remote < last {
        state.selected_remote = state.selected_remote + 1;
    }
}

/// Sets the filter bar and pattern, then moves the selections back onto
/// the rows they were on.
fn refilter(state: &mut AppState, show: bool, pattern: String)
    ensures
        final(state)@ == refiltered(old(state)@, show, pattern@),
{
    reveal(refiltered);
    let local_name = selected_local_name_exec(state);
    let remote_name = selected_remote_name_exec(state);
    state.show_filter = show;
    state.filter_pattern = pattern;
    preserve_filter_selection(state, local_name, remote_name);
}

/// The pattern with its last character erased.
fn pop_char(p: &str) -> (r: String)
    ensures
        r@ == popped(p@),
{
    let cs = chars_of(p);
    if cs.len() > 0 {
        let kept = slice_range(&cs, 0, cs.len() - 1);
        string_of(&kept)
    } else {
        string_of(&cs)
    }
}

fn show_text_prompt(state: &mut AppState, kind: TextPromptKind)
    ensures
        final(state)@ == text_prompt_shown(old(state)@, kind),
{
    reveal(text_prompt_shown);
    state.show_prompt = true;
    state.prompt_kind = Some(PromptKind::Text(kind));
    state.prompt_value = TextField::default();
    state.prompt_target = None;
}

fn close_prompt(state: &mut AppState)
    ensures
        final(state)@ == prompt_closed(old(state)@),
{
    reveal(prompt_closed);
    state.show_prompt = false;
    state.prompt_kind = None;
    state.prompt_value = TextField::default();
    state.prompt_target = None;
    state.host_key = None;
}

fn toggle_overlay(state: &mut AppState, help: bool)
    ensures
        final(state)@ == overlay_toggled(old(state)@, help),
{
    reveal(overlay_toggled);
    if help {
        state.show_help = !state.show_help;
        if state.show_help {
            state.show_theme_debug = false;
        }
    } else {
        state.show_theme_debug = !state.show_theme_debug;
        if state.show_theme_debug {
            state.show_help = false;
        }
    }
}

fn toggle_bookmarks(state: &mut AppState)
    ensures
        final(state)@ == bookmarks_toggled(old(state)@),
{
    reveal(bookmarks_toggled);
    state.show_bookmarks = !state.show_bookmarks;
    if state.show_bookmarks {
        state.show_quick_connect = false;
    }
}

fn connect_status(state: &mut AppState, info: ConnectionInfo)
    ensures
        final(state)@ == connecting(old(state)@, info.host@),
{
    reveal(connecting);
    state.status = concat3("Connecting to ", info.host.as_str(), "...");
}

fn disconnect(state: &mut AppState)
    ensures
        final(state)@ == disconnected(old(state)@),
{
    reveal(disconnected);
    state.connected = false;
    state.status = String::from_str("Disconnected");
}

fn set_connected(state: &mut AppState, value: bool)
    ensures
        final(state)@ == connection_set(old(state)@, value),
{
    reveal(connection_set);
    state.connected = value;
    state.status = if value {
        String::from_str("Connected")
    } else {
        String::from_str("Disconnected")
    };
}

fn set_bookmarks(state: &mut AppState, bookmarks: Vec<ConnectionInfo>)
    ensures
        final(state)@ == bookmarks_set(old(state)@, bookmarks@),
{
    reveal(bookmarks_set);
    state.bookmarks = bookmarks;
    state.selected_bookmark = 0;
}

fn qc_sync(state: &mut AppState)
    ensures
        final(state)@ == qc_synced(old(state)@),
{
    reveal(qc_synced);
    state.qc_hydrate();
}

fn qc_begin_drag(state: &mut AppState, i: usize)
    ensures
        final(state)@ == qc_edited(old(state)@, field_begin_drag(old(state)@.qc_field, i)),
{
    state.qc_field.begin_drag(i);
}

fn qc_extend_drag(state: &mut AppState, i: usize)
    ensures
        final(state)@ == qc_edited(old(state)@, field_extend_drag(old(state)@.qc_field, i)),
{
    state.qc_field.extend_drag(i);
}

fn qc_move(state: &mut AppState, dir: i32, shift: bool)
    ensures
        final(state)@ == qc_edited(old(state)@, field_move(old(state)@.qc_field, dir, shift)),
{
    state.qc_field.move_cursor(dir, shift);
}

fn progress(state: &mut AppState, job_id: u128, transferred: u64, size: Option<u64>)
    ensures
        final(state)@ == queue_progressed(old(state)@, job_id, transferred, size),
{
    reveal(queue_progressed);
    state.queue.update_active_progress(job_id, transferred, size);
}

fn set_status(state: &mut AppState, msg: String)
    ensures
        final(state)@ == status_set(old(state)@, msg@),
{
    reveal(status_set);
    state.status = msg;
}

fn show_error(state: &mut AppState, msg: String)
    ensures
        final(state)@ == error_shown(old(state)@, msg@),
{
    reveal(error_shown);
    state.toast = Some(Toast::error(msg.clone()));
    state.status = concat2("Error: ", msg.as_str());
}

fn clear_error(state: &mut AppState)
    ensures
        final(state)@ == error_cleared(old(state)@),
{
    reveal(error_cleared);
    state.toast = None;
}

fn focus_next(state: &mut AppState)
    ensures
        final(state)@ == focus_advanced(old(state)@),
{
    reveal(focus_advanced);
    let next = match state.focus {
        FocusPane::Local => FocusPane::Remote,
        FocusPane::Remote => FocusPane::Queue,
        FocusPane::Queue => FocusPane::Local,
    };
    state.set_focus(next);
}

fn select_up(state: &mut AppState)
    ensures
        final(state)@ == selected_up(old(state)@),
{
    reveal(selected_up);
    match state.focus {
        FocusPane::Local => move_local_up(state),
        FocusPane::Remote => move_remote_up(state),
        FocusPane::Queue => {},
    }
}

fn select_down(state: &mut AppState)
    ensures
        final(state)@ == selected_down(old(state)@),
{
    reveal(selected_down);
    match state.focus {
        FocusPane::Local => move_local_down(state),
        FocusPane::Remote => move_remote_down(state),
        FocusPane::Queue => {},
    }
}

fn toggle_filter(state: &mut AppState)
    ensures
        final(state)@ == refiltered(old(state)@, !old(state)@.show_filter, if !old(state)@.show_filter {
            old(state)@.filter_pattern
        } else {
            Seq::empty()
        }),
{
    let show = !state.show_filter;
    let pattern = if show {
        state.filter_pattern.clone()
    } else {
        String::new()
    };
    refilter(state, show, pattern);
}

fn filter_input(state: &mut AppState, ch: char)
    ensures
        final(state)@ == refiltered(old(state)@, old(state)@.show_filter, old(state)@.filter_pattern.push(ch)),
{
    let mut pattern = state.filter_pattern.clone();
    push_char(&mut pattern, ch);
    let show = state.show_filter;
    refilter(state, show, pattern);
}

fn filter_backspace(state: &mut AppState)
    ensures
        final(state)@ == refiltered(old(state)@, old(state)@.show_filter, popped(old(state)@.filter_pattern)),
{
    let pattern = pop_char(state.filter_pattern.as_str());
    let show = state.show_filter;
    refilter(state, show, pattern);
}

fn clear_filter(state: &mut AppState)
    ensures
        final(state)@ == refiltered(old(state)@, old(state)@.show_filter, Seq::empty()),
{
    let show = state.show_filter;
    refilter(state, show, String::new());
}

fn toggle_compare(state: &mut AppState)
    ensures
        final(state)@ == compare_toggled(old(state)@),
{
    reveal(compare_toggled);
    state.show_compare = !state.show_compare;
}

fn show_delete_prompt(state: &mut AppState)
    ensures
        final(state)@ == delete_prompt_shown(old(state)@),
{
    reveal(delete_prompt_shown);
    state.show_prompt = true;
    state.prompt_kind = Some(PromptKind::Choice(ChoicePromptKind::ConfirmDelete));
    state.prompt_target = None;
}

fn show_choice_prompt(state: &mut AppState, kind: ChoicePromptKind)
    ensures
        final(state)@ == choice_prompt_shown(old(state)@, kind),
{
    reveal(choice_prompt_shown);
    state.show_prompt = true;
    state.prompt_kind = Some(PromptKind::Choice(kind));
}

fn prompt_input(state: &mut AppState, ch: char)
    requires
        field_insert_fits(old(state)@.prompt_value),
    ensures
        final(state)@ == prompt_typed(old(state)@, ch),
{
    reveal(prompt_typed);
    state.prompt_value.insert_char(ch);
}

fn prompt_backspace(state: &mut AppState)
    ensures
        final(state)@ == prompt_backspaced(old(state)@),
{
    reveal(prompt_backspaced);
    state.prompt_value.backspace();
}

/// Whether an insertion into `f` has room (see [`field_insert_fits`]).
fn insert_fits_exec(f: &TextField) -> (r: bool)
    ensures
        r == field_insert_fits(f@),
{
    match f.anchor {
        Some(a) => if a == f.cursor {
            f.cursor < usize::MAX
        } else if a < f.cursor {
            a < usize::MAX
        } else {
            f.cursor < usize::MAX
        },
        None => f.cursor < usize::MAX,
    }
}

/// Whether [`reduce`] accepts `action` in `state` (see [`reduce_allowed`]):
/// what a caller tests before applying an action.
pub fn reduce_allowed_exec(state: &AppState, action: &Action) -> (r: bool)
    ensures
        r == reduce_allowed(state@, *action),
{
    match action {
        Action::QuickConnectInput(ch) => {
            let accepts = state.quick_connect_field != QuickConnectField::Port || ('0' <= *ch && *ch <= '9');
            !accepts || insert_fits_exec(&state.qc_field)
        },
        Action::PromptInput(_) => insert_fits_exec(&state.prompt_value),
        Action::SelectNextBookmark => state.bookmarks.len() == 0 || state.selected_bookmark < usize::MAX,
        Action::SelectPrevBookmark => state.bookmarks.len() == 0 || state.selected_bookmark == 0
            || state.selected_bookmark <= state.bookmarks.len(),
        _ => true,
    }
}

/// Applies `action` to `state`.
pub fn reduce(state: &mut AppState, action: Action)
    requires
        reduce_allowed(old(state)@, action),
    ensures
        final(state)@ == reduce_spec(old(state)@, action),
{
    match action {
        Action::Connect(info) => connect_status(state, info),
        Action::Disconnect => disconnect(state),
        Action::SetConnected(value) => set_connected(state, value),
        Action::SetLocalEntries { entries, select } => set_entries(state, entries, select, true),
        Action::SetRemoteEntries { entries, select } => set_entries(state, entries, select, false),
        Action::SetBookmarks(bookmarks) => set_bookmarks(state, bookmarks),
        Action::SelectNextBookmark => step_bookmark(state, true),
        Action::SelectPrevBookmark => step_bookmark(state, false),
        Action::ToggleBookmarks => toggle_bookmarks(state),
        Action::ToggleQuickConnect => toggle_quick_connect(state),
        Action::QuickConnectNextField => step_qc_field(state, true),
        Action::QuickConnectPrevField => step_qc_field(state, false),
        Action::QuickConnectInput(ch) => qc_type(state, ch),
        Action::QuickConnectBackspace => qc_backspace(state),
        Action::QuickConnectSyncField => qc_sync(state),
        Action::QuickConnectBeginSelect(i) => qc_begin_drag(state, i),
        Action::QuickConnectExtendSelect(i) => qc_extend_drag(state, i),
        Action::QuickConnectMoveCursor { dir, shift } => qc_move(state, dir, shift),
        Action::QuickConnectSetProtocolNext => step_protocol(state, true),
        Action::QuickConnectSetProtocolPrev => step_protocol(state, false),
        Action::QuickConnectSetFromBookmark(info) => load_bookmark(state, info),
        Action::QueueTransfer(job) => queue_job(state, job),
        Action::StartNextTransfer => start_next(state),
        Action::MarkTransferCompleted(job) => mark_completed(state, job),
        Action::MarkTransferFailed(job) => mark_failed(state, job),
        Action::MarkTransferCancelled(job) => mark_cancelled(state, job),
        Action::RetryLastFailed => retry_last(state),
        Action::UpdateTransferProgress { job_id, transferred_bytes, size_bytes } => progress(
            state,
            job_id,
            transferred_bytes,
            size_bytes,
        ),
        Action::ClearPendingTransfers => clear_pending(state),
        Action::SetStatus(msg) => set_status(state, msg),
        Action::ShowError(msg) => show_error(state, msg),
        Action::ClearError => clear_error(state),
        Action::FocusNextPane => focus_next(state),
        Action::ToggleHelp => toggle_overlay(state, true),
        Action::ToggleThemeDebug => toggle_overlay(state, false),
        Action::SelectUp => select_up(state),
        Action::SelectDown => select_down(state),
        Action::ToggleFilter => toggle_filter(state),
        Action::FilterInput(ch) => filter_input(state, ch),
        Action::FilterBackspace => filter_backspace(state),
        Action::ClearFilter => clear_filter(state),
        Action::ToggleCompare => toggle_compare(state),
        Action::ShowCreatePrompt => show_text_prompt(state, TextPromptKind::CreateFile),
        Action::ShowRenamePrompt => show_text_prompt(state, TextPromptKind::Rename),
        Action::ShowDeletePrompt => show_delete_prompt(state),
        Action::ShowChoicePrompt(kind) => show_choice_prompt(state, kind),
        Action::PromptInput(ch) => prompt_input(state, ch),
        Action::PromptBackspace => prompt_backspace(state),
        Action::ConfirmPrompt => close_prompt(state),
        Action::CancelPrompt => close_prompt(state),
        Action::CreateFile(_) | Action::CreateFolder(_) | Action::RenameItem(_, _) | Action::DeleteItem(_) => {
            // Carried out by the event loop; the state does not change.
        },
    }
}

/// Toggling help twice gives back the help flag it started with; the same
/// holds for the theme debug view.
pub proof fn law_overlay_toggle_twice(s: AppView)
    ensures
        overlay_toggled(overlay_toggled(s, true), true).show_help == s.show_help,
        overlay_toggled(overlay_toggled(s, false), false).show_theme_debug == s.show_theme_debug,
{
    reveal(overlay_toggled);
}

/// Closing the filter bar clears the pattern, so every row shows again;
/// opening it keeps the pattern it had.
pub proof fn law_closing_filter_clears_pattern(s: AppView)
    ensures
        s.show_filter ==> !reduce_spec(s, Action::ToggleFilter).show_filter
            && reduce_spec(s, Action::ToggleFilter).filter_pattern == Seq::<char>::empty(),
        !s.show_filter ==> reduce_spec(s, Action::ToggleFilter).show_filter
            && reduce_spec(s, Action::ToggleFilter).filter_pattern == s.filter_pattern,
{
    reveal(refiltered);
}

/// Help and the theme debug view are never open together: no action opens
/// both from a state where they are not both open.
pub proof fn law_help_and_theme_debug_exclusive(s: AppView, a: Action)
    requires
        !(s.show_help && s.show_theme_debug),
    ensures
        !(reduce_spec(s, a).show_help && reduce_spec(s, a).show_theme_debug),
{
    match a {
        Action::Connect(_) => reveal(connecting),
        Action::Disconnect => reveal(disconnected),
        Action::SetConnected(_) => reveal(connection_set),
        Action::SetLocalEntries { .. } => reveal(entries_set),
        Action::SetRemoteEntries { .. } => reveal(entries_set),
        Action::SetBookmarks(_) => reveal(bookmarks_set),
        Action::SelectNextBookmark => reveal(bookmark_stepped),
        Action::SelectPrevBookmark => reveal(bookmark_stepped),
        Action::ToggleBookmarks => reveal(bookmarks_toggled),
        Action::ToggleQuickConnect => reveal(qc_toggled),
        Action::QuickConnectNextField => reveal(qc_field_stepped),
        Action::QuickConnectPrevField => reveal(qc_field_stepped),
        Action::QuickConnectInput(_) => reveal(qc_typed),
        Action::QuickConnectBackspace => reveal(qc_backspaced),
        Action::QuickConnectSyncField => reveal(qc_synced),
        Action::QuickConnectSetProtocolNext => reveal(protocol_stepped),
        Action::QuickConnectSetProtocolPrev => reveal(protocol_stepped),
        Action::QuickConnectSetFromBookmark(_) => reveal(qc_loaded),
        Action::QueueTransfer(_) => reveal(queued),
        Action::StartNextTransfer => reveal(started_next),
        Action::MarkTransferCompleted(_) => reveal(completed_marked),
        Action::MarkTransferFailed(_) => reveal(failed_marked),
        Action::MarkTransferCancelled(_) => reveal(cancelled_marked),
        Action::RetryLastFailed => reveal(retried_last),
        Action::UpdateTransferProgress { .. } => reveal(queue_progressed),
        Action::ClearPendingTransfers => reveal(pending_cleared),
        Action::SetStatus(_) => reveal(status_set),
        Action::ShowError(_) => reveal(error_shown),
        Action::ClearError => reveal(error_cleared),
        Action::FocusNextPane => reveal(focus_advanced),
        Action::ToggleHelp => reveal(overlay_toggled),
        Action::ToggleThemeDebug => reveal(overlay_toggled),
        Action::SelectUp => reveal(selected_up),
        Action::SelectDown => reveal(selected_down),
        Action::ToggleFilter => reveal(refiltered),
        Action::FilterInput(_) => reveal(refiltered),
        Action::FilterBackspace => reveal(refiltered),
        Action::ClearFilter => reveal(refiltered),
        Action::ToggleCompare => reveal(compare_toggled),
        Action::ShowCreatePrompt => reveal(text_prompt_shown),
        Action::ShowRenamePrompt => reveal(text_prompt_shown),
        Action::ShowDeletePrompt => reveal(delete_prompt_shown),
        Action::ShowChoicePrompt(_) => reveal(choice_prompt_shown),
        Action::PromptInput(_) => reveal(prompt_typed),
        Action::PromptBackspace => reveal(prompt_backspaced),
        Action::ConfirmPrompt => reveal(prompt_closed),
        Action::CancelPrompt => reveal(prompt_closed),
        _ => {},
    }
}

/// Wherever the selection lands, it is on a row when there are rows, and
/// at 0 when there are none.
pub proof fn law_resolve_on_a_row(current: usize, rows: Seq<FileEntry>, previous: Option<Seq<char>>, policy: SelectPolicy)
    requires
        rows.len() <= usize::MAX,
    ensures
        rows.len() > 0 ==> resolve(current, rows, previous, policy) < rows.len(),
        rows.len() == 0 ==> resolve(current, rows, previous, policy) == 0,
{
    if let Some(n) = previous {
        lemma_name_pos_bounds(rows, n, 0);
    }
}

/// With `PreserveName`, a selection whose row is still listed stays on a
/// row of that name.
pub proof fn law_resolve_keeps_name(current: usize, rows: Seq<FileEntry>, name: Seq<char>, k: int)
    requires
        0 <= k < rows.len(),
        rows.len() <= usize::MAX,
        rows[k].name@ == name,
    ensures
        rows[resolve(current, rows, Some(name), SelectPolicy::PreserveName) as int].name@ == name,
        resolve(current, rows, Some(name), SelectPolicy::PreserveName) <= k,
{
    lemma_name_pos_found(rows, name, 0, k);
    lemma_name_pos_bounds(rows, name, 0);
}

proof fn lemma_name_pos_found(rows: Seq<FileEntry>, n: Seq<char>, i: int, k: int)
    requires
        0 <= i <= k < rows.len(),
        rows[k].name@ == n,
    ensures
        name_pos_from(rows, n, i) matches Some(j) && j <= k,
    decreases k - i,
{
    if rows[i].name@ != n {
        lemma_name_pos_found(rows, n, i + 1, k);
    }
}

/// Moving down never leaves the rows: from a row (or an empty pane) the
/// selection stays on a row (or at 0).
pub proof fn law_select_down_stays_on_rows(s: AppView)
    requires
        s.focus == FocusPane::Local,
        s.selected_local < visible_local_of(s).len() || s.selected_local == 0,
    ensures
        selected_down(s).selected_local < visible_local_of(s).len() || selected_down(s).selected_local == 0,
        visible_local_of(selected_down(s)) == visible_local_of(s),
{
    reveal(selected_down);
}

/// Moving down and then up comes back to the same row of the focused pane
/// whenever there is a row below.
pub proof fn law_down_then_up_returns(s: AppView)
    requires
        s.focus == FocusPane::Local,
        s.selected_local + 1 < visible_local_of(s).len(),
        visible_local_of(s).len() <= usize::MAX,
    ensures
        selected_up(selected_down(s)).selected_local == s.selected_local,
{
    reveal(selected_down);
    reveal(selected_up);
}

/// Three focus moves come back to the pane focus started on.
pub proof fn law_focus_cycle(s: AppView)
    ensures
        focus_advanced(focus_advanced(focus_advanced(s))).focus == s.focus,
{
    reveal(focus_advanced);
}

/// A choice prompt leaves the text of the prompt as it was.
pub proof fn law_choice_prompt_keeps_value(s: AppView, kind: ChoicePromptKind)
    ensures
        choice_prompt_shown(s, kind).prompt_value == s.prompt_value,
        delete_prompt_shown(s).prompt_value == s.prompt_value,
        prompt_closed(choice_prompt_shown(s, kind)).show_prompt == false,
        prompt_closed(choice_prompt_shown(s, kind)).prompt_kind.is_none(),
{
    reveal(choice_prompt_shown);
    reveal(delete_prompt_shown);
    reveal(prompt_closed);
}

/// Typing into the filter appends the character at the end; filter
/// backspace erases the last character: on a non-empty pattern it leaves
/// the pattern without its last character, and typing a character then
/// erasing it gives the pattern back.
pub proof fn law_filter_backspace_undoes_typing(s: AppView, c: char)
    ensures
        reduce_spec(reduce_spec(s, Action::FilterInput(c)), Action::FilterBackspace).filter_pattern == s.filter_pattern,
        reduce_spec(s, Action::FilterInput(c)).filter_pattern.len() == s.filter_pattern.len() + 1,
        reduce_spec(s, Action::FilterInput(c)).filter_pattern.last() == c,
        forall|i: int|
            0 <= i < s.filter_pattern.len() ==> #[trigger] reduce_spec(s, Action::FilterInput(c)).filter_pattern[i]
                == s.filter_pattern[i],
        s.filter_pattern.len() > 0 ==> reduce_spec(s, Action::FilterBackspace).filter_pattern.len()
            == s.filter_pattern.len() - 1 && forall|i: int|
            0 <= i < s.filter_pattern.len() - 1 ==> #[trigger] reduce_spec(s, Action::FilterBackspace).filter_pattern[i]
                == s.filter_pattern[i],
{
    reveal(refiltered);
    assert(s.filter_pattern.push(c).drop_last() =~= s.filter_pattern);
}

} // verus!
