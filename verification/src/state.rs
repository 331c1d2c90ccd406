//! The UI state of the two-pane client, its view, and the queries and small
//! updates the reducer and the event loop use.
use vstd::prelude::*;
use crate::model::{ConnectionInfo, ConnView, FileEntry, TransferDirection, opt_chars, now_utc};
use crate::text_field::{TextField, TextFieldView, field_of, empty_field};
use crate::toast::{Toast, ToastView};
use crate::queue::{TransferQueue, QueueView, empty_queue};
use crate::panes::{SortKey, visible, listing, is_listing, visible_indices, name_matches, entry_visible};
use crate::text::{
    chars_of, trim_ws, trim_ws_exec, is_dot_name, starts_with, decimal, u64_to_decimal, concat2,
    concat3, string_views,
};
use crate::listing::{parse_unsigned, parse_unsigned_exec, unsigned_digits};

verus! {

/// Digit value of a run of octal digits.
pub open spec fn octal_value(d: Seq<char>) -> int
    decreases d.len(),
{
    if d.len() == 0 {
        0
    } else {
        octal_value(d.drop_last()) * 8 + ((d.last() as u32) - ('0' as u32))
    }
}

/// All characters are octal digits.
pub open spec fn all_octal(d: Seq<char>) -> bool {
    forall|i: int| 0 <= i < d.len() ==> '0' <= #[trigger] d[i] <= '7'
}

/// `u32::from_str_radix(s, 8)`: an optional `+`, then one or more octal
/// digits whose value fits in `u32`.
pub open spec fn parse_octal(s: Seq<char>) -> Option<int> {
    let d = unsigned_digits(s);
    if d.len() > 0 && all_octal(d) && octal_value(d) <= 0xffff_ffff {
        Some(octal_value(d))
    } else {
        None
    }
}

/// The digits of a chmod argument: without a leading `0o` or `0O`.
pub open spec fn chmod_digits(t: Seq<char>) -> Seq<char> {
    if starts_with(t, seq!['0', 'o']) || starts_with(t, seq!['0', 'O']) {
        t.subrange(2, t.len() as int)
    } else {
        t
    }
}

/// The mode a chmod argument denotes: its octal value masked to `0o7777`,
/// or `None` when it is blank or not octal.
pub open spec fn chmod_mode(input: Seq<char>) -> Option<int> {
    let t = trim_ws(input);
    if t.len() == 0 {
        None
    } else {
        match parse_octal(chmod_digits(t)) {
            Some(v) => Some(v % 4096),
            None => None,
        }
    }
}

proof fn lemma_octal_value_nonneg(d: Seq<char>)
    requires
        all_octal(d),
    ensures
        octal_value(d) >= 0,
    decreases d.len(),
{
    if d.len() > 0 {
        assert(all_octal(d.drop_last())) by {
            assert forall|i: int| 0 <= i < d.drop_last().len() implies '0' <= #[trigger] d.drop_last()[i] <= '7' by {
                assert(d.drop_last()[i] == d[i]);
            }
        }
        lemma_octal_value_nonneg(d.drop_last());
        assert('0' <= d[d.len() - 1] <= '7');
    }
}

/// `u32::from_str_radix(cs, 8)`.
fn parse_octal_exec(cs: &[char]) -> (r: Option<u32>)
    ensures
        r matches Some(v) ==> parse_octal(cs@) == Some(v as int),
        r is None ==> parse_octal(cs@) is None,
{
    let start: usize = if cs.len() > 0 && cs[0] == '+' {
        1
    } else {
        0
    };
    let ghost d = unsigned_digits(cs@);
    proof {
        assert(d =~= cs@.subrange(start as int, cs@.len() as int));
    }
    if start >= cs.len() {
        return None;
    }
    let mut v: u32 = 0;
    let mut i = start;
    let mut overflow = false;
    proof {
        assert(cs@.subrange(start as int, start as int) =~= Seq::<char>::empty());
    }
    while i < cs.len()
        invariant
            start <= i <= cs@.len(),
            start < cs@.len(),
            d == unsigned_digits(cs@),
            d == cs@.subrange(start as int, cs@.len() as int),
            all_octal(cs@.subrange(start as int, i as int)),
            !overflow ==> v as int == octal_value(cs@.subrange(start as int, i as int)),
            overflow ==> octal_value(cs@.subrange(start as int, i as int)) > 0xffff_ffff,
        decreases cs@.len() - i,
    {
        let c = cs[i];
        let ghost pre = cs@.subrange(start as int, i as int);
        let ghost nxt = cs@.subrange(start as int, i + 1);
        proof {
            assert(nxt.drop_last() =~= pre);
            assert(nxt.last() == c);
        }
        if !('0' <= c && c <= '7') {
            proof {
                assert(d[i - start] == c);
                assert(!all_octal(d));
            }
            return None;
        }
        proof {
            assert(all_octal(nxt)) by {
                assert forall|k: int| 0 <= k < nxt.len() implies '0' <= #[trigger] nxt[k] <= '7' by {
                    if k < nxt.len() - 1 {
                        assert(nxt[k] == pre[k]);
                    }
                }
            }
            lemma_octal_value_nonneg(pre);
        }
        let digit = (c as u32 - '0' as u32) as u64;
        proof {
            assert(octal_value(nxt) == octal_value(pre) * 8 + digit);
        }
        if !overflow {
            let nv: u64 = v as u64 * 8 + digit;
            if nv > 0xffff_ffff {
                overflow = true;
            } else {
                v = nv as u32;
            }
        }
        i = i + 1;
    }
    proof {
        assert(cs@.subrange(start as int, i as int) == d);
    }
    if overflow {
        None
    } else {
        Some(v)
    }
}

/// Parse chmod input as octal. Accepts `755`, `0755`, and `0o755`; masks with `0o7777`.
pub fn parse_octal_mode(input: &str) -> (r: Result<u32, String>)
    ensures
        r matches Ok(m) ==> chmod_mode(input@) == Some(m as int),
        r matches Err(e) ==> chmod_mode(input@) is None && e@ == "invalid chmod mode"@,
{
    let cs = chars_of(input);
    let t = trim_ws_exec(&cs);
    if t.len() == 0 {
        return Err(String::from_str("invalid chmod mode"));
    }
    let p0: Vec<char> = vec!['0', 'o'];
    let p1: Vec<char> = vec!['0', 'O'];
    proof {
        assert(p0@ =~= seq!['0', 'o']);
        assert(p1@ =~= seq!['0', 'O']);
    }
    let digits = if crate::text::chars_start_with(&t, &p0) || crate::text::chars_start_with(&t, &p1) {
        crate::text::slice_range(&t, 2, t.len())
    } else {
        t
    };
    match parse_octal_exec(&digits) {
        Some(v) => {
            let m = v & 0o7777;
            assert(m == v % 4096) by (bit_vector)
                requires
                    m == v & 0o7777,
            ;
            Ok(m)
        },
        None => Err(String::from_str("invalid chmod mode")),
    }
}

/// Whether `name` is `.` or `..`.
pub fn is_dot_or_dotdot(name: &str) -> (r: bool)
    ensures
        r == is_dot_name(name@),
{
    let cs = chars_of(name);
    crate::text::is_dot_or_dotdot_chars(&cs)
}

/// How to place `selected_*` after a listing or filter change.
#[derive(Debug, Clone, Copy, PartialEq, Eq, Structural)]
pub enum SelectPolicy {
    /// Keep the previously selected *name* if it is still visible; else clamp.
    PreserveName,
    /// Keep the numeric index, clamp to `visible_len.saturating_sub(1)`.
    Clamp,
    /// Select 0 (first visible row: `.` locally, or the first real entry remotely).
    Reset,
}

/// The built-in header taglines, used when the theme supplies none.
pub open spec fn default_quote(i: int) -> Seq<char> {
    if i == 0 {
        "Moving bytes so you don't have to."@
    } else if i == 1 {
        "Remote files, local comfort."@
    } else if i == 2 {
        "Drag, drop, transfer, repeat."@
    } else if i == 3 {
        "Your packets are in good hands."@
    } else {
        "Now serving: the whole filesystem."@
    }
}

/// Number of built-in header taglines.
pub const DEFAULT_HEADER_QUOTE_COUNT: usize = 5;

/// Built-in tagline number `i`.
pub fn default_header_quote(i: usize) -> (r: &'static str)
    requires
        i < DEFAULT_HEADER_QUOTE_COUNT,
    ensures
        r@ == default_quote(i as int),
{
    if i == 0 {
        "Moving bytes so you don't have to."
    } else if i == 1 {
        "Remote files, local comfort."
    } else if i == 2 {
        "Drag, drop, transfer, repeat."
    } else if i == 3 {
        "Your packets are in good hands."
    } else {
        "Now serving: the whole filesystem."
    }
}

/// Time-seeded index: stable within a run, varies per launch (the clock's
/// nanoseconds since the epoch, wrapped to `usize`).
fn header_seed() -> usize {
    let now = now_utc();
    let n = (now.secs as u64).wrapping_mul(1_000_000_000).wrapping_add(now.nanos as u64);
    n as usize
}

/// The built-in tagline a seed picks.
pub fn header_copy_at(seed: usize) -> (r: String)
    ensures
        r@ == default_quote((seed % 5) as int),
{
    String::from_str(default_header_quote(seed % DEFAULT_HEADER_QUOTE_COUNT))
}

/// Pick a random built-in header tagline once per launch.
pub fn random_header_copy() -> (r: String)
    ensures
        exists|k: int| 0 <= k < 5 && r@ == #[trigger] default_quote(k),
{
    let seed = header_seed();
    let r = header_copy_at(seed);
    assert(0 <= seed % 5 < 5);
    r
}

/// The non-blank taglines of a theme's list.
pub open spec fn quote_pool(quotes: Seq<Seq<char>>) -> Seq<Seq<char>> {
    quotes.filter(|q: Seq<char>| trim_ws(q).len() > 0)
}

/// The tagline a seed picks from a theme's list: one of its non-blank
/// entries, or a built-in one when it has none.
pub open spec fn header_from(quotes: Seq<Seq<char>>, seed: usize) -> Seq<char> {
    let pool = quote_pool(quotes);
    if pool.len() == 0 {
        default_quote((seed % 5) as int)
    } else {
        pool[(seed as int) % (pool.len() as int)]
    }
}

/// The tagline `seed` picks from `quotes`.
pub fn header_copy_from_at(quotes: &[String], seed: usize) -> (r: String)
    ensures
        r@ == header_from(string_views(quotes@), seed),
{
    let ghost qs = string_views(quotes@);
    let ghost pred = |q: Seq<char>| trim_ws(q).len() > 0;
    let mut pool: Vec<usize> = Vec::new();
    let mut i: usize = 0;
    while i < quotes.len()
        invariant
            i <= quotes@.len(),
            qs == string_views(quotes@),
            pred == (|q: Seq<char>| trim_ws(q).len() > 0),
            pool@.len() == qs.take(i as int).filter(pred).len(),
            forall|k: int| 0 <= k < pool@.len() ==> #[trigger] pool@[k] < quotes@.len() && quotes@[pool@[k] as int]@ == qs.take(i as int).filter(pred)[k],
        decreases quotes@.len() - i,
    {
        proof {
            assert(qs.take(i + 1) =~= qs.take(i as int).push(qs[i as int]));
            qs.take(i as int).lemma_filter_push(qs[i as int], pred);
        }
        let cs = chars_of(quotes[i].as_str());
        let t = trim_ws_exec(&cs);
        if t.len() > 0 {
            pool.push(i);
        }
        i = i + 1;
    }
    proof {
        assert(qs.take(quotes@.len() as int) =~= qs);
    }
    if pool.len() == 0 {
        return header_copy_at(seed);
    }
    let k = seed % pool.len();
    quotes[pool[k]].clone()
}

/// Pick a random tagline from a theme-supplied `header_quotes` list, falling
/// back to the built-in list when it has no non-blank entry.
pub fn random_header_copy_from(quotes: &[String]) -> (r: String)
    ensures
        exists|seed: usize| r@ == #[trigger] header_from(string_views(quotes@), seed),
{
    let seed = header_seed();
    header_copy_from_at(quotes, seed)
}

#[derive(Debug, Clone, Copy, PartialEq, Eq, Structural)]
pub enum FocusPane {
    Local,
    Remote,
    Queue,
}

#[derive(Debug, Clone, Copy, PartialEq, Eq, Structural)]
pub enum TextPromptKind {
    CreateFile,
    CreateFolder,
    Rename,
    Chmod,
    OverwriteRename,
}

#[derive(Debug, Clone, Copy, PartialEq, Eq, Structural)]
pub enum ChoicePromptKind {
    ConfirmQuit,
    ConfirmDelete,
    ConfirmBookmarkDelete,
    HostKey,
    Overwrite,
}

#[derive(Debug, Clone, Copy, PartialEq, Eq, Structural)]
pub enum OverwritePolicy {
    Ask,
    OverwriteAll,
    SkipAll,
}

impl Default for OverwritePolicy {
    /// Ask for each file.
    fn default() -> (r: Self)
        ensures
            r == OverwritePolicy::Ask,
    {
        OverwritePolicy::Ask
    }
}

/// One file discovered by a folder scan. Enqueued only after drain + overwrite.
#[derive(Debug, Clone, PartialEq, Eq)]
pub struct PendingFile {
    pub local_path: String,
    pub remote_path: String,
    pub direction: TransferDirection,
    pub size_bytes: Option<u64>,
}

/// Display snapshot of the overwrite ChoicePrompt. Remaining files live on the CLI run stack.
#[derive(Debug, Clone, PartialEq, Eq)]
pub struct OverwritePrompt {
    pub current: PendingFile,
    pub remaining: Vec<PendingFile>,
    pub apply_all: OverwritePolicy,
}

/// Display-only host-key prompt. The reply channel lives with the event loop.
#[derive(Debug, Clone, PartialEq, Eq)]
pub struct HostKeyView {
    pub host: String,
    pub port: u16,
    pub fingerprint: String,
    pub changed: bool,
}

#[derive(Debug, Clone, Copy, PartialEq, Eq, Structural)]
pub enum PromptKind {
    Text(TextPromptKind),
    Choice(ChoicePromptKind),
}

#[derive(Debug, Clone, Copy, PartialEq, Eq, Hash, Structural)]
pub enum QuickConnectField {
    Name,
    Host,
    Port,
    Username,
    Password,
    PrivateKey,
    Protocol,
    Path,
}

/// The field after `f` in tab order, wrapping around.
pub open spec fn field_after(f: QuickConnectField) -> QuickConnectField {
    match f {
        QuickConnectField::Name => QuickConnectField::Host,
        QuickConnectField::Host => QuickConnectField::Port,
        QuickConnectField::Port => QuickConnectField::Username,
        QuickConnectField::Username => QuickConnectField::Password,
        QuickConnectField::Password => QuickConnectField::PrivateKey,
        QuickConnectField::PrivateKey => QuickConnectField::Protocol,
        QuickConnectField::Protocol => QuickConnectField::Path,
        QuickConnectField::Path => QuickConnectField::Name,
    }
}

/// The field before `f` in tab order, wrapping around.
pub open spec fn field_before(f: QuickConnectField) -> QuickConnectField {
    match f {
        QuickConnectField::Name => QuickConnectField::Path,
        QuickConnectField::Host => QuickConnectField::Name,
        QuickConnectField::Port => QuickConnectField::Host,
        QuickConnectField::Username => QuickConnectField::Port,
        QuickConnectField::Password => QuickConnectField::Username,
        QuickConnectField::PrivateKey => QuickConnectField::Password,
        QuickConnectField::Protocol => QuickConnectField::PrivateKey,
        QuickConnectField::Path => QuickConnectField::Protocol,
    }
}

impl QuickConnectField {
    pub fn next(self) -> (r: Self)
        ensures
            r == field_after(self),
    {
        match self {
            QuickConnectField::Name => QuickConnectField::Host,
            QuickConnectField::Host => QuickConnectField::Port,
            QuickConnectField::Port => QuickConnectField::Username,
            QuickConnectField::Username => QuickConnectField::Password,
            QuickConnectField::Password => QuickConnectField::PrivateKey,
            QuickConnectField::PrivateKey => QuickConnectField::Protocol,
            QuickConnectField::Protocol => QuickConnectField::Path,
            QuickConnectField::Path => QuickConnectField::Name,
        }
    }

    pub fn prev(self) -> (r: Self)
        ensures
            r == field_before(self),
    {
        match self {
            QuickConnectField::Name => QuickConnectField::Path,
            QuickConnectField::Host => QuickConnectField::Name,
            QuickConnectField::Port => QuickConnectField::Host,
            QuickConnectField::Username => QuickConnectField::Port,
            QuickConnectField::Password => QuickConnectField::Username,
            QuickConnectField::PrivateKey => QuickConnectField::Password,
            QuickConnectField::Protocol => QuickConnectField::PrivateKey,
            QuickConnectField::Path => QuickConnectField::Protocol,
        }
    }
}

#[derive(Debug)]
pub struct AppState {
    pub connected: bool,
    pub local_cwd: String,
    pub remote_cwd: String,
    pub local_entries: Vec<FileEntry>,
    pub remote_entries: Vec<FileEntry>,
    pub selected_local: usize,
    pub selected_remote: usize,
    pub focus: FocusPane,
    /// Last focused file pane (`Local` or `Remote`). Filter-bar counts use this when Queue is focused.
    pub last_file_pane: FocusPane,
    pub header_copy: String,
    pub show_help: bool,
    pub show_theme_debug: bool,
    pub help_scroll: usize,
    pub show_quick_connect: bool,
    pub show_bookmarks: bool,
    pub show_filter: bool,
    pub show_compare: bool,
    pub show_prompt: bool,
    pub prompt_kind: Option<PromptKind>,
    pub prompt_value: TextField,
    pub prompt_target: Option<String>,
    pub filter_pattern: String,
    pub mouse_pos: Option<(u16, u16)>,
    pub quick_connect: ConnectionInfo,
    pub quick_connect_field: QuickConnectField,
    /// Derived editing view of the currently focused quick-connect field:
    /// hydrate before reading, flush after mutating, and re-hydrate whenever
    /// `quick_connect` or `quick_connect_field` is changed directly.
    pub qc_field: TextField,
    pub worker_running: bool,
    pub worker_active_count: usize,
    pub worker_max_concurrency: usize,
    pub worker_cancel_requested: bool,
    pub bookmarks: Vec<ConnectionInfo>,
    pub selected_bookmark: usize,
    pub active_connection: Option<ConnectionInfo>,
    pub status: String,
    pub toast: Option<Toast>,
    pub queue_scroll: usize,
    pub queue: TransferQueue,
    /// Host-key ChoicePrompt fields.
    pub host_key: Option<HostKeyView>,
    /// Overwrite ChoicePrompt fields.
    pub overwrite: Option<OverwritePrompt>,
    pub hide_dotfiles: bool,
    pub sort_key: SortKey,
    pub sort_asc: bool,
    /// Marked names of the local pane, each once.
    pub marked_local: Vec<String>,
    /// Marked names of the remote pane, each once.
    pub marked_remote: Vec<String>,
}

/// The state with strings as character sequences and fields by their views.
pub struct AppView {
    pub connected: bool,
    pub local_cwd: Seq<char>,
    pub remote_cwd: Seq<char>,
    pub local_entries: Seq<FileEntry>,
    pub remote_entries: Seq<FileEntry>,
    pub selected_local: usize,
    pub selected_remote: usize,
    pub focus: FocusPane,
    pub last_file_pane: FocusPane,
    pub header_copy: Seq<char>,
    pub show_help: bool,
    pub show_theme_debug: bool,
    pub help_scroll: usize,
    pub show_quick_connect: bool,
    pub show_bookmarks: bool,
    pub show_filter: bool,
    pub show_compare: bool,
    pub show_prompt: bool,
    pub prompt_kind: Option<PromptKind>,
    pub prompt_value: TextFieldView,
    pub prompt_target: Option<Seq<char>>,
    pub filter_pattern: Seq<char>,
    pub mouse_pos: Option<(u16, u16)>,
    pub quick_connect: ConnView,
    pub quick_connect_field: QuickConnectField,
    pub qc_field: TextFieldView,
    pub worker_running: bool,
    pub worker_active_count: usize,
    pub worker_max_concurrency: usize,
    pub worker_cancel_requested: bool,
    pub bookmarks: Seq<ConnectionInfo>,
    pub selected_bookmark: usize,
    pub active_connection: Option<ConnectionInfo>,
    pub status: Seq<char>,
    pub toast: Option<ToastView>,
    pub queue_scroll: usize,
    pub queue: QueueView,
    pub host_key: Option<HostKeyView>,
    pub overwrite: Option<OverwritePrompt>,
    pub hide_dotfiles: bool,
    pub sort_key: SortKey,
    pub sort_asc: bool,
    pub marked_local: Seq<String>,
    pub marked_remote: Seq<String>,
}

/// The message and level of an optional toast.
pub open spec fn opt_toast(t: Option<Toast>) -> Option<ToastView> {
    match t {
        Some(x) => Some(x@),
        None => None,
    }
}

impl View for AppState {
    type V = AppView;

    open spec fn view(&self) -> AppView {
        AppView {
            connected: self.connected,
            local_cwd: self.local_cwd@,
            remote_cwd: self.remote_cwd@,
            local_entries: self.local_entries@,
            remote_entries: self.remote_entries@,
            selected_local: self.selected_local,
            selected_remote: self.selected_remote,
            focus: self.focus,
            last_file_pane: self.last_file_pane,
            header_copy: self.header_copy@,
            show_help: self.show_help,
            show_theme_debug: self.show_theme_debug,
            help_scroll: self.help_scroll,
            show_quick_connect: self.show_quick_connect,
            show_bookmarks: self.show_bookmarks,
            show_filter: self.show_filter,
            show_compare: self.show_compare,
            show_prompt: self.show_prompt,
            prompt_kind: self.prompt_kind,
            prompt_value: self.prompt_value@,
            prompt_target: opt_chars(self.prompt_target),
            filter_pattern: self.filter_pattern@,
            mouse_pos: self.mouse_pos,
            quick_connect: self.quick_connect@,
            quick_connect_field: self.quick_connect_field,
            qc_field: self.qc_field@,
            worker_running: self.worker_running,
            worker_active_count: self.worker_active_count,
            worker_max_concurrency: self.worker_max_concurrency,
            worker_cancel_requested: self.worker_cancel_requested,
            bookmarks: self.bookmarks@,
            selected_bookmark: self.selected_bookmark,
            active_connection: self.active_connection,
            status: self.status@,
            toast: opt_toast(self.toast),
            queue_scroll: self.queue_scroll,
            queue: self.queue@,
            host_key: self.host_key,
            overwrite: self.overwrite,
            hide_dotfiles: self.hide_dotfiles,
            sort_key: self.sort_key,
            sort_asc: self.sort_asc,
            marked_local: self.marked_local@,
            marked_remote: self.marked_remote@,
        }
    }
}

/// The text of an optional string, or the empty text (`unwrap_or_default`).
pub open spec fn or_empty(o: Option<Seq<char>>) -> Seq<char> {
    match o {
        Some(s) => s,
        None => Seq::empty(),
    }
}

/// The value the quick-connect editor shows for the focused field.
pub open spec fn qc_value(s: AppView) -> Seq<char> {
    match s.quick_connect_field {
        QuickConnectField::Name => s.quick_connect.name,
        QuickConnectField::Host => s.quick_connect.host,
        QuickConnectField::Port => decimal(s.quick_connect.port as nat),
        QuickConnectField::Username => s.quick_connect.username,
        QuickConnectField::Password => or_empty(s.quick_connect.password),
        QuickConnectField::PrivateKey => or_empty(s.quick_connect.private_key),
        QuickConnectField::Path => s.quick_connect.initial_path,
        QuickConnectField::Protocol => Seq::empty(),
    }
}

/// The state after the editor is reloaded from the focused field.
pub open spec fn hydrated(s: AppView) -> AppView {
    AppView { qc_field: field_of(qc_value(s)), ..s }
}

/// The port a port field's text gives (`parse().unwrap_or(0)`).
pub open spec fn port_of(v: Seq<char>) -> u16 {
    match parse_unsigned(v, 0xffff) {
        Some(p) => p as u16,
        None => 0,
    }
}

/// Connection settings with field `f` set from the text `v`.
pub open spec fn conn_with(c: ConnView, f: QuickConnectField, v: Seq<char>) -> ConnView {
    match f {
        QuickConnectField::Name => ConnView { name: v, ..c },
        QuickConnectField::Host => ConnView { host: v, ..c },
        QuickConnectField::Port => ConnView { port: port_of(v), ..c },
        QuickConnectField::Username => ConnView { username: v, ..c },
        QuickConnectField::Password => ConnView { password: Some(v), ..c },
        QuickConnectField::PrivateKey => ConnView { private_key: Some(v), ..c },
        QuickConnectField::Path => ConnView { initial_path: v, ..c },
        QuickConnectField::Protocol => c,
    }
}

/// The state after the editor's text is written back to the focused field.
pub open spec fn flushed(s: AppView) -> AppView {
    AppView { quick_connect: conn_with(s.quick_connect, s.quick_connect_field, s.qc_field.value), ..s }
}

/// Sets field `f` of `c` from the text `v`.
fn set_conn_field(c: &mut ConnectionInfo, f: QuickConnectField, v: String)
    ensures
        final(c)@ == conn_with(old(c)@, f, v@),
{
    match f {
        QuickConnectField::Name => c.name = v,
        QuickConnectField::Host => c.host = v,
        QuickConnectField::Port => {
            let cs = chars_of(v.as_str());
            c.port = match parse_unsigned_exec(&cs, 0xffff) {
                Some(p) => p as u16,
                None => 0,
            };
        },
        QuickConnectField::Username => c.username = v,
        QuickConnectField::Password => c.password = Some(v),
        QuickConnectField::PrivateKey => c.private_key = Some(v),
        QuickConnectField::Path => c.initial_path = v,
        QuickConnectField::Protocol => {},
    }
}

/// The decimal text of `n` reads back as `n`: it is one or more ASCII
/// digits (no sign) whose value is `n`.
proof fn lemma_decimal_reads_back(n: nat)
    ensures
        decimal(n).len() > 0,
        decimal(n)[0] != '+',
        crate::listing::all_digits(decimal(n)),
        crate::listing::digits_value(decimal(n)) == n,
    decreases n,
{
    let d = decimal(n);
    if n < 10 {
        assert(d == seq![crate::text::digit_char(n)]);
        assert(d.drop_last() =~= Seq::<char>::empty());
        assert(d.last() == crate::text::digit_char(n));
        assert((crate::text::digit_char(n) as u32) == ('0' as u32) + n);
        assert(crate::listing::digits_value(d) == crate::listing::digits_value(d.drop_last()) * 10 + ((d.last() as u32)
            - ('0' as u32)));
        assert(crate::listing::digits_value(d.drop_last()) == 0);
    } else {
        lemma_decimal_reads_back(n / 10);
        let p = decimal(n / 10);
        assert(d == p.push(crate::text::digit_char(n % 10)));
        assert(d.drop_last() =~= p);
        assert((crate::text::digit_char(n % 10) as u32) == ('0' as u32) + n % 10);
        assert(d.last() == crate::text::digit_char(n % 10));
        assert(crate::listing::digits_value(d) == crate::listing::digits_value(p) * 10 + ((d.last() as u32) - ('0' as u32)));
        assert(n == (n / 10) * 10 + n % 10);
        assert forall|i: int| 0 <= i < d.len() implies crate::text::is_digit(#[trigger] d[i]) by {
            if i < p.len() {
                assert(d[i] == p[i]);
            }
        }
        assert(d[0] == p[0]);
    }
}

/// Writing the quick-connect editor back right after loading it leaves the
/// connection settings as they were: text fields come back as they are,
/// the port reads back from its decimal text, and the protocol is not
/// touched. Left out: an empty password or key field, which loads as empty
/// text and writes back as `Some` of it.
pub proof fn law_flush_after_hydrate_keeps_settings(s: AppView)
    requires
        !(s.quick_connect_field == QuickConnectField::Password && s.quick_connect.password is None),
        !(s.quick_connect_field == QuickConnectField::PrivateKey && s.quick_connect.private_key is None),
    ensures
        flushed(hydrated(s)).quick_connect == s.quick_connect,
{
    if s.quick_connect_field == QuickConnectField::Port {
        let p = s.quick_connect.port;
        lemma_decimal_reads_back(p as nat);
        assert(unsigned_digits(decimal(p as nat)) == decimal(p as nat));
        assert(parse_unsigned(decimal(p as nat), 0xffff) == Some(p as int));
        assert(port_of(decimal(p as nat)) == p);
    }
}

/// Whether an overlay that takes the keyboard is open.
pub open spec fn modal_open(s: AppView) -> bool {
    s.show_help || s.show_filter || s.show_prompt || s.show_quick_connect || s.show_bookmarks
}

/// The entries of a row list behind their references.
pub open spec fn deref_rows(v: Seq<&FileEntry>) -> Seq<FileEntry> {
    v.map_values(|e: &FileEntry| *e)
}

/// The local pane's rows.
pub open spec fn visible_local_of(s: AppView) -> Seq<FileEntry> {
    visible(s.local_entries, s.filter_pattern, s.hide_dotfiles, s.sort_key, s.sort_asc)
}

/// The remote pane's rows.
pub open spec fn visible_remote_of(s: AppView) -> Seq<FileEntry> {
    visible(s.remote_entries, s.filter_pattern, s.hide_dotfiles, s.sort_key, s.sort_asc)
}

/// The row at `sel`, if there is one.
pub open spec fn row_at(rows: Seq<FileEntry>, sel: usize) -> Option<FileEntry> {
    if sel < rows.len() {
        Some(rows[sel as int])
    } else {
        None
    }
}

/// The state after focus moves to `pane`; a file pane is remembered.
pub open spec fn focused(s: AppView, pane: FocusPane) -> AppView {
    AppView {
        focus: pane,
        last_file_pane: if pane != FocusPane::Queue {
            pane
        } else {
            s.last_file_pane
        },
        ..s
    }
}

/// The file pane the filter bar counts: the focused one, or the last file
/// pane while the queue has focus.
pub open spec fn count_pane(s: AppView) -> FocusPane {
    match s.focus {
        FocusPane::Queue => s.last_file_pane,
        _ => s.focus,
    }
}

/// The sort indicator of a pane title.
pub open spec fn sort_suffix(s: AppView) -> Seq<char> {
    let base = "sort: "@ + crate::panes::sort_label(s.sort_key) + (if s.sort_asc {
        "↑"@
    } else {
        "↓"@
    });
    if s.hide_dotfiles {
        base + "  hidden-dotfiles"@
    } else {
        base
    }
}

/// The state a fresh client starts in, with header tagline `header`.
pub open spec fn initial_view(header: Seq<char>) -> AppView {
    AppView {
        connected: false,
        local_cwd: "."@,
        remote_cwd: "/"@,
        local_entries: Seq::empty(),
        remote_entries: Seq::empty(),
        selected_local: 0,
        selected_remote: 0,
        focus: FocusPane::Local,
        last_file_pane: FocusPane::Local,
        header_copy: header,
        show_help: false,
        show_theme_debug: false,
        help_scroll: 0,
        show_quick_connect: false,
        show_bookmarks: false,
        show_filter: false,
        show_compare: false,
        show_prompt: false,
        prompt_kind: None,
        prompt_value: empty_field(),
        prompt_target: None,
        filter_pattern: Seq::empty(),
        mouse_pos: None,
        quick_connect: crate::model::default_conn(),
        quick_connect_field: QuickConnectField::Name,
        qc_field: empty_field(),
        worker_running: false,
        worker_active_count: 0,
        worker_max_concurrency: 2,
        worker_cancel_requested: false,
        bookmarks: Seq::empty(),
        selected_bookmark: 0,
        active_connection: None,
        status: "Ready"@,
        toast: None,
        queue_scroll: 0,
        queue: empty_queue(),
        host_key: None,
        overwrite: None,
        hide_dotfiles: false,
        sort_key: SortKey::Name,
        sort_asc: true,
        marked_local: Seq::empty(),
        marked_remote: Seq::empty(),
    }
}

/// The create prompt switched between a file and a folder; any other
/// prompt kind stays.
pub open spec fn create_kind_swapped(k: Option<PromptKind>) -> Option<PromptKind> {
    match k {
        Some(PromptKind::Text(TextPromptKind::CreateFile)) => Some(PromptKind::Text(TextPromptKind::CreateFolder)),
        Some(PromptKind::Text(TextPromptKind::CreateFolder)) => Some(PromptKind::Text(TextPromptKind::CreateFile)),
        _ => k,
    }
}

/// A scroll offset one line down (saturating) or up (stopping at 0).
pub open spec fn scrolled(v: usize, down: bool) -> usize {
    if down {
        if v == usize::MAX { v } else { (v + 1) as usize }
    } else {
        if v == 0 { 0 } else { (v - 1) as usize }
    }
}

fn scroll_step(v: usize, down: bool) -> (r: usize)
    ensures
        r == scrolled(v, down),
{
    if down {
        v.saturating_add(1)
    } else {
        v.saturating_sub(1)
    }
}

impl AppState {
    /// Tab in the create prompt: a file becomes a folder and back.
    pub fn swap_create_kind(&mut self)
        ensures
            final(self)@ == (AppView { prompt_kind: create_kind_swapped(old(self)@.prompt_kind), ..old(self)@ }),
    {
        self.prompt_kind = match self.prompt_kind {
            Some(PromptKind::Text(TextPromptKind::CreateFile)) => Some(PromptKind::Text(TextPromptKind::CreateFolder)),
            Some(PromptKind::Text(TextPromptKind::CreateFolder)) => Some(PromptKind::Text(TextPromptKind::CreateFile)),
            other => other,
        };
    }

    /// The help text scrolled one line.
    pub fn scroll_help(&mut self, down: bool)
        ensures
            final(self)@ == (AppView { help_scroll: scrolled(old(self)@.help_scroll, down), ..old(self)@ }),
    {
        self.help_scroll = scroll_step(self.help_scroll, down);
    }

    /// The queue scrolled one line.
    pub fn scroll_queue(&mut self, down: bool)
        ensures
            final(self)@ == (AppView { queue_scroll: scrolled(old(self)@.queue_scroll, down), ..old(self)@ }),
    {
        self.queue_scroll = scroll_step(self.queue_scroll, down);
    }

    /// The next sort key (name, size, date, and round again).
    pub fn cycle_sort(&mut self)
        ensures
            final(self)@ == (AppView { sort_key: crate::panes::key_after(old(self)@.sort_key), ..old(self)@ }),
    {
        self.sort_key = self.sort_key.next();
    }

    /// The sort order flipped between ascending and descending.
    pub fn flip_sort_order(&mut self)
        ensures
            final(self)@ == (AppView { sort_asc: !old(self)@.sort_asc, ..old(self)@ }),
    {
        self.sort_asc = !self.sort_asc;
    }

    /// Dotfiles hidden or shown again.
    pub fn toggle_dotfiles(&mut self)
        ensures
            final(self)@ == (AppView { hide_dotfiles: !old(self)@.hide_dotfiles, ..old(self)@ }),
    {
        self.hide_dotfiles = !self.hide_dotfiles;
    }
}

impl AppState {
    /// Drops the toast once it has been up for its whole time to live.
    pub fn expire_toast(&mut self)
        ensures
            final(self)@ == old(self)@ || final(self)@ == (AppView { toast: None, ..old(self)@ }),
            old(self).toast.is_none() ==> final(self)@ == old(self)@,
    {
        let expired = match &self.toast {
            Some(t) => t.is_expired(),
            None => false,
        };
        if expired {
            self.toast = None;
        }
    }

    /// The text of the focused quick-connect field.
    pub fn qc_active_value(&self) -> (r: String)
        ensures
            r@ == qc_value(self@),
    {
        match self.quick_connect_field {
            QuickConnectField::Name => self.quick_connect.name.clone(),
            QuickConnectField::Host => self.quick_connect.host.clone(),
            QuickConnectField::Port => u64_to_decimal(self.quick_connect.port as u64),
            QuickConnectField::Username => self.quick_connect.username.clone(),
            QuickConnectField::Password => match &self.quick_connect.password {
                Some(p) => p.clone(),
                None => String::new(),
            },
            QuickConnectField::PrivateKey => match &self.quick_connect.private_key {
                Some(p) => p.clone(),
                None => String::new(),
            },
            QuickConnectField::Path => self.quick_connect.initial_path.clone(),
            QuickConnectField::Protocol => String::new(),
        }
    }

    /// Loads the editor from the focused field.
    pub fn qc_hydrate(&mut self)
        ensures
            final(self)@ == hydrated(old(self)@),
    {
        let v = self.qc_active_value();
        self.qc_field = TextField::from_str(v.as_str());
    }

    /// Writes the editor's text back to the focused field.
    pub fn qc_flush(&mut self)
        ensures
            final(self)@ == flushed(old(self)@),
    {
        let v = self.qc_field.value.clone();
        set_conn_field(&mut self.quick_connect, self.quick_connect_field, v);
    }

    pub fn any_modal_open(&self) -> (r: bool)
        ensures
            r == modal_open(self@),
    {
        self.show_help || self.show_filter || self.show_prompt || self.show_quick_connect
            || self.show_bookmarks
    }

    pub fn is_text_prompt(&self) -> (r: bool)
        ensures
            r == (self.prompt_kind matches Some(PromptKind::Text(_))),
    {
        match self.prompt_kind {
            Some(PromptKind::Text(_)) => true,
            _ => false,
        }
    }

    pub fn is_choice_prompt(&self) -> (r: bool)
        ensures
            r == (self.prompt_kind matches Some(PromptKind::Choice(_))),
    {
        match self.prompt_kind {
            Some(PromptKind::Choice(_)) => true,
            _ => false,
        }
    }

    /// Case-insensitive filter: an empty pattern shows every name.
    pub fn entry_visible(name: &str, pattern: &str) -> (r: bool)
        ensures
            r == name_matches(name@, pattern@),
    {
        entry_visible(name, pattern)
    }

    /// Positions in `local_entries` of the local pane's rows.
    pub fn visible_local_indices(&self) -> (r: Vec<usize>)
        ensures
            r@ == listing(self.local_entries@, self.filter_pattern@, self.hide_dotfiles, self.sort_key, self.sort_asc),
            forall|k: int| 0 <= k < r@.len() ==> #[trigger] r@[k] < self.local_entries@.len(),
    {
        visible_indices(&self.local_entries, self.filter_pattern.as_str(), self.hide_dotfiles, self.sort_key, self.sort_asc)
    }

    /// Positions in `remote_entries` of the remote pane's rows.
    pub fn visible_remote_indices(&self) -> (r: Vec<usize>)
        ensures
            r@ == listing(self.remote_entries@, self.filter_pattern@, self.hide_dotfiles, self.sort_key, self.sort_asc),
            forall|k: int| 0 <= k < r@.len() ==> #[trigger] r@[k] < self.remote_entries@.len(),
    {
        visible_indices(&self.remote_entries, self.filter_pattern.as_str(), self.hide_dotfiles, self.sort_key, self.sort_asc)
    }

    /// The local pane's rows, in order.
    pub fn visible_local(&self) -> (r: Vec<&FileEntry>)
        ensures
            deref_rows(r@) == visible_local_of(self@),
    {
        let idx = self.visible_local_indices();
        let r = rows_of(&self.local_entries, &idx);
        assert(deref_rows(r@) =~= visible_local_of(self@));
        r
    }

    /// The remote pane's rows, in order.
    pub fn visible_remote(&self) -> (r: Vec<&FileEntry>)
        ensures
            deref_rows(r@) == visible_remote_of(self@),
    {
        let idx = self.visible_remote_indices();
        let r = rows_of(&self.remote_entries, &idx);
        assert(deref_rows(r@) =~= visible_remote_of(self@));
        r
    }

    /// `sort: <key><arrow>`, and `  hidden-dotfiles` when dotfiles are hidden.
    pub fn sort_title_suffix(&self) -> (r: String)
        ensures
            r@ == sort_suffix(self@),
    {
        let arrow = if self.sort_asc {
            "↑"
        } else {
            "↓"
        };
        let s = concat3("sort: ", self.sort_key.label(), arrow);
        if self.hide_dotfiles {
            concat2(s.as_str(), "  hidden-dotfiles")
        } else {
            s
        }
    }

    /// The selected local row, if the selection is on a row.
    pub fn selected_local_entry(&self) -> (r: Option<&FileEntry>)
        ensures
            match row_at(visible_local_of(self@), self.selected_local) {
                Some(e) => r matches Some(x) && *x == e,
                None => r.is_none(),
            },
    {
        let idx = self.visible_local_indices();
        if self.selected_local < idx.len() {
            Some(&self.local_entries[idx[self.selected_local]])
        } else {
            None
        }
    }

    /// The selected remote row, if the selection is on a row.
    pub fn selected_remote_entry(&self) -> (r: Option<&FileEntry>)
        ensures
            match row_at(visible_remote_of(self@), self.selected_remote) {
                Some(e) => r matches Some(x) && *x == e,
                None => r.is_none(),
            },
    {
        let idx = self.visible_remote_indices();
        if self.selected_remote < idx.len() {
            Some(&self.remote_entries[idx[self.selected_remote]])
        } else {
            None
        }
    }

    /// Focuses `pane`; a file pane is also remembered as the last file pane.
    pub fn set_focus(&mut self, pane: FocusPane)
        ensures
            final(self)@ == focused(old(self)@, pane),
    {
        if pane != FocusPane::Queue {
            self.last_file_pane = pane;
        }
        self.focus = pane;
    }

    /// The file pane the filter bar counts.
    pub fn filter_count_pane(&self) -> (r: FocusPane)
        ensures
            r == count_pane(self@),
    {
        match self.focus {
            FocusPane::Local | FocusPane::Remote => self.focus,
            FocusPane::Queue => self.last_file_pane,
        }
    }
}

/// The entries at positions `idx`, in that order.
fn rows_of<'a>(entries: &'a Vec<FileEntry>, idx: &Vec<usize>) -> (r: Vec<&'a FileEntry>)
    requires
        forall|k: int| 0 <= k < idx@.len() ==> #[trigger] idx@[k] < entries@.len(),
    ensures
        r@.len() == idx@.len(),
        forall|k: int| 0 <= k < r@.len() ==> *#[trigger] r@[k] == entries@[idx@[k] as int],
{
    let mut out: Vec<&'a FileEntry> = Vec::new();
    let mut k: usize = 0;
    while k < idx.len()
        invariant
            k <= idx@.len(),
            forall|j: int| 0 <= j < idx@.len() ==> #[trigger] idx@[j] < entries@.len(),
            out@.len() == k,
            forall|j: int| 0 <= j < k ==> *#[trigger] out@[j] == entries@[idx@[j] as int],
        decreases idx@.len() - k,
    {
        out.push(&entries[idx[k]]);
        k = k + 1;
    }
    out
}

impl Default for AppState {
    fn default() -> (r: Self)
        ensures
            r@ == initial_view(r@.header_copy),
            exists|k: int| 0 <= k < 5 && r@.header_copy == #[trigger] default_quote(k),
    {
        AppState {
            connected: false,
            local_cwd: String::from_str("."),
            remote_cwd: String::from_str("/"),
            local_entries: Vec::new(),
            remote_entries: Vec::new(),
            selected_local: 0,
            selected_remote: 0,
            focus: FocusPane::Local,
            last_file_pane: FocusPane::Local,
            header_copy: random_header_copy(),
            show_help: false,
            show_theme_debug: false,
            help_scroll: 0,
            show_quick_connect: false,
            show_bookmarks: false,
            show_filter: false,
            show_compare: false,
            show_prompt: false,
            prompt_kind: None,
            prompt_value: TextField::default(),
            prompt_target: None,
            filter_pattern: String::new(),
            mouse_pos: None,
            quick_connect: ConnectionInfo::default(),
            quick_connect_field: QuickConnectField::Name,
            qc_field: TextField::default(),
            worker_running: false,
            worker_active_count: 0,
            worker_max_concurrency: 2,
            worker_cancel_requested: false,
            bookmarks: Vec::new(),
            selected_bookmark: 0,
            active_connection: None,
            status: String::from_str("Ready"),
            toast: None,
            queue_scroll: 0,
            queue: TransferQueue::default(),
            host_key: None,
            overwrite: None,
            hide_dotfiles: false,
            sort_key: SortKey::Name,
            sort_asc: true,
            marked_local: Vec::new(),
            marked_remote: Vec::new(),
        }
    }
}

} // verus!
