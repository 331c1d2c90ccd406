//! Screen-side logic that needs no terminal: compare badges, mouse hit
//! testing, key-help groups, listing metadata columns and text shortening.
use vstd::prelude::*;
use crate::model::{FileEntry, Timestamp, TransferDirection, TransferJob};
use crate::state::QuickConnectField;
use crate::text::{chars_of, string_of, eq_ignore_ascii_case, chars_eq_ignore_ascii_case, is_dot_name, is_dot_or_dotdot_chars, concat2, concat3, decimal, u64_to_decimal};

verus! {

#[derive(Debug, Clone, Copy, PartialEq, Eq, Structural)]
pub enum CompareBadge {
    LocalOnly,
    RemoteOnly,
    Equal,
    Differ,
}

/// The badge text.
pub open spec fn badge_text(b: CompareBadge) -> Seq<char> {
    match b {
        CompareBadge::LocalOnly => "[L]"@,
        CompareBadge::RemoteOnly => "[R]"@,
        CompareBadge::Equal => "[=]"@,
        CompareBadge::Differ => "[≠]"@,
    }
}

impl CompareBadge {
    pub fn label(self) -> (r: &'static str)
        ensures
            r@ == badge_text(self),
    {
        match self {
            CompareBadge::LocalOnly => "[L]",
            CompareBadge::RemoteOnly => "[R]",
            CompareBadge::Equal => "[=]",
            CompareBadge::Differ => "[≠]",
        }
    }
}

/// An entry compare looks at under `name`: same name up to ASCII case, and
/// not `.` or `..`.
pub open spec fn compare_match(e: FileEntry, name: Seq<char>) -> bool {
    eq_ignore_ascii_case(e.name@, name) && !is_dot_name(e.name@)
}

/// The first entry at or after `i` that compare looks at under `name`.
pub open spec fn find_from(es: Seq<FileEntry>, name: Seq<char>, i: int) -> Option<FileEntry>
    decreases es.len() - i,
{
    if i < 0 || i >= es.len() {
        None
    } else if compare_match(es[i], name) {
        Some(es[i])
    } else {
        find_from(es, name, i + 1)
    }
}

/// Same size and, at whole-second resolution, the same modification time
/// (both missing counts as the same).
pub open spec fn same_meta(a: FileEntry, b: FileEntry) -> bool {
    a.size == b.size && match (a.modified, b.modified) {
        (None, None) => true,
        (Some(x), Some(y)) => x.secs == y.secs,
        _ => false,
    }
}

/// The badge for `name` given both listings; none for `.` and `..`, or
/// when neither side has it.
pub open spec fn badge_for(name: Seq<char>, local: Seq<FileEntry>, remote: Seq<FileEntry>) -> Option<CompareBadge> {
    if is_dot_name(name) {
        None
    } else {
        match (find_from(local, name, 0), find_from(remote, name, 0)) {
            (Some(a), Some(b)) => Some(
                if same_meta(a, b) {
                    CompareBadge::Equal
                } else {
                    CompareBadge::Differ
                },
            ),
            (Some(_), None) => Some(CompareBadge::LocalOnly),
            (None, Some(_)) => Some(CompareBadge::RemoteOnly),
            (None, None) => None,
        }
    }
}

fn find_by_name<'a>(entries: &'a [FileEntry], name: &[char]) -> (r: Option<&'a FileEntry>)
    ensures
        match find_from(entries@, name@, 0) {
            Some(e) => r matches Some(x) && *x == e,
            None => r.is_none(),
        },
{
    let mut i: usize = 0;
    while i < entries.len()
        invariant
            i <= entries@.len(),
            find_from(entries@, name@, 0) == find_from(entries@, name@, i as int),
        decreases entries@.len() - i,
    {
        let e = &entries[i];
        let n = chars_of(e.name.as_str());
        if chars_eq_ignore_ascii_case(&n, name) && !is_dot_or_dotdot_chars(&n) {
            return Some(e);
        }
        i = i + 1;
    }
    None
}

fn same_meta_exec(a: &FileEntry, b: &FileEntry) -> (r: bool)
    ensures
        r == same_meta(*a, *b),
{
    if a.size != b.size {
        return false;
    }
    match (a.modified, b.modified) {
        (None, None) => true,
        (Some(x), Some(y)) => x.secs == y.secs,
        _ => false,
    }
}

/// Classify `name` against both listings. Skips `.` / `..`.
pub fn classify_compare(name: &str, local: &[FileEntry], remote: &[FileEntry]) -> (r: Option<CompareBadge>)
    ensures
        r == badge_for(name@, local@, remote@),
{
    let n = chars_of(name);
    if is_dot_or_dotdot_chars(&n) {
        return None;
    }
    let l = find_by_name(local, &n);
    let r = find_by_name(remote, &n);
    match (l, r) {
        (Some(a), Some(b)) => Some(
            if same_meta_exec(a, b) {
                CompareBadge::Equal
            } else {
                CompareBadge::Differ
            },
        ),
        (Some(_), None) => Some(CompareBadge::LocalOnly),
        (None, Some(_)) => Some(CompareBadge::RemoteOnly),
        (None, None) => None,
    }
}

/// A screen rectangle in terminal cells.
#[derive(Debug, Clone, Copy, PartialEq, Eq, Structural)]
pub struct Rect {
    pub x: u16,
    pub y: u16,
    pub width: u16,
    pub height: u16,
}

impl Default for Rect {
    /// The empty rectangle at the origin.
    fn default() -> (r: Self)
        ensures
            r == (Rect { x: 0, y: 0, width: 0, height: 0 }),
    {
        Rect { x: 0, y: 0, width: 0, height: 0 }
    }
}

impl Rect {
    pub fn new(x: u16, y: u16, width: u16, height: u16) -> (r: Self)
        ensures
            r == (Rect { x, y, width, height }),
    {
        Rect { x, y, width, height }
    }
}

#[derive(Debug, Clone, Copy, PartialEq, Eq, Structural)]
pub enum Pane {
    Local,
    Remote,
}

#[derive(Debug, Clone, Copy, PartialEq, Eq, Structural)]
pub enum FieldId {
    Prompt,
    QcName,
    QcHost,
    QcPort,
    QcUsername,
    QcPassword,
    QcPrivateKey,
    QcPath,
}

#[derive(Debug, Clone, Copy, PartialEq, Eq, Structural)]
pub enum ControlId {
    QcProtocol,
    BookmarkRow(usize),
}

#[derive(Debug, Clone, Copy, PartialEq, Eq, Structural)]
pub enum ScrollRegion {
    ListLocal,
    ListRemote,
    Queue,
    Help,
}

#[derive(Debug, Clone, Copy, PartialEq, Eq, Structural)]
pub enum Region {
    List(Pane),
    Scrollbar(ScrollRegion),
    Field(FieldId),
    Control(ControlId),
}

#[derive(Debug, Clone, Copy)]
pub struct FieldRegion {
    pub id: FieldId,
    pub area: Rect,
    pub text_x: u16,
}

#[derive(Debug, Clone, Copy)]
pub struct ControlRegion {
    pub id: ControlId,
    pub area: Rect,
}

#[derive(Debug, Clone)]
pub struct LayoutMap {
    pub local_list: Rect,
    pub remote_list: Rect,
    pub local_scrollbar: Rect,
    pub remote_scrollbar: Rect,
    pub queue_scrollbar: Rect,
    pub help_scrollbar: Option<Rect>,
    pub queue: Rect,
    pub help: Option<Rect>,
    pub fields: Vec<FieldRegion>,
    pub controls: Vec<ControlRegion>,
}

impl Default for LayoutMap {
    /// No regions at all.
    fn default() -> (r: Self)
        ensures
            r.local_list == Rect::default_spec(),
            r.remote_list == Rect::default_spec(),
            r.local_scrollbar == Rect::default_spec(),
            r.remote_scrollbar == Rect::default_spec(),
            r.queue_scrollbar == Rect::default_spec(),
            r.help_scrollbar.is_none(),
            r.queue == Rect::default_spec(),
            r.help.is_none(),
            r.fields@.len() == 0,
            r.controls@.len() == 0,
    {
        LayoutMap {
            local_list: Rect::new(0, 0, 0, 0),
            remote_list: Rect::new(0, 0, 0, 0),
            local_scrollbar: Rect::new(0, 0, 0, 0),
            remote_scrollbar: Rect::new(0, 0, 0, 0),
            queue_scrollbar: Rect::new(0, 0, 0, 0),
            help_scrollbar: None,
            queue: Rect::new(0, 0, 0, 0),
            help: None,
            fields: Vec::new(),
            controls: Vec::new(),
        }
    }
}

impl LayoutMap {
    /// Forgets every region, as before each frame is drawn: every rectangle
    /// is the empty one at the origin, and there are no field or control
    /// regions.
    pub fn clear(&mut self)
        ensures
            final(self).local_list == Rect::default_spec(),
            final(self).remote_list == Rect::default_spec(),
            final(self).local_scrollbar == Rect::default_spec(),
            final(self).remote_scrollbar == Rect::default_spec(),
            final(self).queue_scrollbar == Rect::default_spec(),
            final(self).help_scrollbar.is_none(),
            final(self).queue == Rect::default_spec(),
            final(self).help.is_none(),
            final(self).fields@.len() == 0,
            final(self).controls@.len() == 0,
    {
        *self = LayoutMap::default();
    }
}

impl Rect {
    /// The empty rectangle at the origin.
    pub open spec fn default_spec() -> Rect {
        Rect { x: 0, y: 0, width: 0, height: 0 }
    }
}

/// Whether the cell `(x, y)` lies in the non-empty rectangle `r`.
pub open spec fn in_rect(r: Rect, x: u16, y: u16) -> bool {
    r.width > 0 && r.height > 0 && r.x <= x < r.x + r.width && r.y <= y < r.y + r.height
}

fn contains(r: Rect, x: u16, y: u16) -> (b: bool)
    ensures
        b == in_rect(r, x, y),
{
    r.width > 0 && r.height > 0 && x >= r.x && (x as u32) < (r.x as u32) + (r.width as u32) && y >= r.y
        && (y as u32) < (r.y as u32) + (r.height as u32)
}

/// The first field at or after index `i` whose area holds the cell.
pub open spec fn field_hit(fs: Seq<FieldRegion>, x: u16, y: u16, i: int) -> Option<FieldId>
    decreases fs.len() - i,
{
    if i < 0 || i >= fs.len() {
        None
    } else if in_rect(fs[i].area, x, y) {
        Some(fs[i].id)
    } else {
        field_hit(fs, x, y, i + 1)
    }
}

/// The first control at or after index `i` whose area holds the cell.
pub open spec fn control_hit(cs: Seq<ControlRegion>, x: u16, y: u16, i: int) -> Option<ControlId>
    decreases cs.len() - i,
{
    if i < 0 || i >= cs.len() {
        None
    } else if in_rect(cs[i].area, x, y) {
        Some(cs[i].id)
    } else {
        control_hit(cs, x, y, i + 1)
    }
}

/// Whether an optional rectangle holds the cell.
pub open spec fn in_opt(r: Option<Rect>, x: u16, y: u16) -> bool {
    match r {
        Some(a) => in_rect(a, x, y),
        None => false,
    }
}

/// The region under a cell. Modal regions (fields, controls, help) come
/// before the scrollbars and the queue, and those before the two lists.
pub open spec fn region_at(m: LayoutMap, x: u16, y: u16) -> Option<Region> {
    match field_hit(m.fields@, x, y, 0) {
        Some(f) => Some(Region::Field(f)),
        None => match control_hit(m.controls@, x, y, 0) {
            Some(c) => Some(Region::Control(c)),
            None => if in_opt(m.help_scrollbar, x, y) || in_opt(m.help, x, y) {
                Some(Region::Scrollbar(ScrollRegion::Help))
            } else if in_rect(m.local_scrollbar, x, y) {
                Some(Region::Scrollbar(ScrollRegion::ListLocal))
            } else if in_rect(m.remote_scrollbar, x, y) {
                Some(Region::Scrollbar(ScrollRegion::ListRemote))
            } else if in_rect(m.queue_scrollbar, x, y) || in_rect(m.queue, x, y) {
                Some(Region::Scrollbar(ScrollRegion::Queue))
            } else if in_rect(m.local_list, x, y) {
                Some(Region::List(Pane::Local))
            } else if in_rect(m.remote_list, x, y) {
                Some(Region::List(Pane::Remote))
            } else {
                None
            },
        },
    }
}

proof fn lemma_field_hit_found(fs: Seq<FieldRegion>, x: u16, y: u16, i: int, k: int)
    requires
        0 <= i <= k < fs.len(),
        in_rect(fs[k].area, x, y),
    ensures
        field_hit(fs, x, y, i) is Some,
    decreases k - i,
{
    if !in_rect(fs[i].area, x, y) {
        lemma_field_hit_found(fs, x, y, i + 1, k);
    }
}

proof fn lemma_control_hit_found(cs: Seq<ControlRegion>, x: u16, y: u16, i: int, k: int)
    requires
        0 <= i <= k < cs.len(),
        in_rect(cs[k].area, x, y),
    ensures
        control_hit(cs, x, y, i) is Some,
    decreases k - i,
{
    if !in_rect(cs[i].area, x, y) {
        lemma_control_hit_found(cs, x, y, i + 1, k);
    }
}

/// Open dialogs win over what lies beneath them: a cell inside any input
/// field is that field's, and a cell inside a control (and no field) is the
/// control's, whatever list, queue or scrollbar lies below.
pub proof fn law_dialog_regions_win(m: LayoutMap, x: u16, y: u16, k: int)
    ensures
        0 <= k < m.fields@.len() && in_rect(m.fields@[k].area, x, y) ==> region_at(m, x, y) matches Some(
            Region::Field(_),
        ),
        0 <= k < m.controls@.len() && in_rect(m.controls@[k].area, x, y) ==> region_at(m, x, y) matches Some(
            Region::Field(_),
        ) || region_at(m, x, y) matches Some(Region::Control(_)),
{
    if 0 <= k < m.fields@.len() && in_rect(m.fields@[k].area, x, y) {
        lemma_field_hit_found(m.fields@, x, y, 0, k);
    }
    if 0 <= k < m.controls@.len() && in_rect(m.controls@[k].area, x, y) {
        lemma_control_hit_found(m.controls@, x, y, 0, k);
    }
}

/// Hit-test a point. Modal regions (fields, controls, help) win over the
/// background lists so a wheel/click over an open modal never leaks through.
pub fn hit_test(m: &LayoutMap, x: u16, y: u16) -> (r: Option<Region>)
    ensures
        r == region_at(*m, x, y),
{
    let mut i: usize = 0;
    while i < m.fields.len()
        invariant
            i <= m.fields@.len(),
            field_hit(m.fields@, x, y, 0) == field_hit(m.fields@, x, y, i as int),
        decreases m.fields@.len() - i,
    {
        if contains(m.fields[i].area, x, y) {
            return Some(Region::Field(m.fields[i].id));
        }
        i = i + 1;
    }
    let mut k: usize = 0;
    while k < m.controls.len()
        invariant
            k <= m.controls@.len(),
            field_hit(m.fields@, x, y, 0) is None,
            control_hit(m.controls@, x, y, 0) == control_hit(m.controls@, x, y, k as int),
        decreases m.controls@.len() - k,
    {
        if contains(m.controls[k].area, x, y) {
            return Some(Region::Control(m.controls[k].id));
        }
        k = k + 1;
    }
    if let Some(h) = m.help_scrollbar {
        if contains(h, x, y) {
            return Some(Region::Scrollbar(ScrollRegion::Help));
        }
    }
    if let Some(h) = m.help {
        if contains(h, x, y) {
            return Some(Region::Scrollbar(ScrollRegion::Help));
        }
    }
    if contains(m.local_scrollbar, x, y) {
        return Some(Region::Scrollbar(ScrollRegion::ListLocal));
    }
    if contains(m.remote_scrollbar, x, y) {
        return Some(Region::Scrollbar(ScrollRegion::ListRemote));
    }
    if contains(m.queue_scrollbar, x, y) {
        return Some(Region::Scrollbar(ScrollRegion::Queue));
    }
    if contains(m.queue, x, y) {
        return Some(Region::Scrollbar(ScrollRegion::Queue));
    }
    if contains(m.local_list, x, y) {
        return Some(Region::List(Pane::Local));
    }
    if contains(m.remote_list, x, y) {
        return Some(Region::List(Pane::Remote));
    }
    None
}

/// Map an x column to a char index within a field's text, clamped to [0, len].
pub fn char_index_at(f: &FieldRegion, x: u16, len: usize) -> (r: usize)
    ensures
        r == (if x <= f.text_x {
            0
        } else if x - f.text_x < len {
            (x - f.text_x) as usize
        } else {
            len
        }),
{
    if x <= f.text_x {
        return 0;
    }
    let d = (x - f.text_x) as usize;
    if d < len {
        d
    } else {
        len
    }
}

/// The quick-connect field a form field edits; none for the prompt.
pub open spec fn qc_field_of(fid: FieldId) -> Option<QuickConnectField> {
    match fid {
        FieldId::QcName => Some(QuickConnectField::Name),
        FieldId::QcHost => Some(QuickConnectField::Host),
        FieldId::QcPort => Some(QuickConnectField::Port),
        FieldId::QcUsername => Some(QuickConnectField::Username),
        FieldId::QcPassword => Some(QuickConnectField::Password),
        FieldId::QcPrivateKey => Some(QuickConnectField::PrivateKey),
        FieldId::QcPath => Some(QuickConnectField::Path),
        FieldId::Prompt => None,
    }
}

/// The quick-connect field a clicked form field edits.
pub fn qc_field_for(fid: FieldId) -> (r: Option<QuickConnectField>)
    ensures
        r == qc_field_of(fid),
{
    match fid {
        FieldId::QcName => Some(QuickConnectField::Name),
        FieldId::QcHost => Some(QuickConnectField::Host),
        FieldId::QcPort => Some(QuickConnectField::Port),
        FieldId::QcUsername => Some(QuickConnectField::Username),
        FieldId::QcPassword => Some(QuickConnectField::Password),
        FieldId::QcPrivateKey => Some(QuickConnectField::PrivateKey),
        FieldId::QcPath => Some(QuickConnectField::Path),
        FieldId::Prompt => None,
    }
}

#[derive(Debug, Clone, Copy, PartialEq, Eq, Structural)]
pub enum KeyGroup {
    Global,
    Navigation,
    Connection,
    Transfers,
    Filter,
    FileOps,
    Mouse,
}

/// The heading of a key-help group.
pub open spec fn group_title(g: KeyGroup) -> Seq<char> {
    match g {
        KeyGroup::Global => "Global"@,
        KeyGroup::Navigation => "Navigation"@,
        KeyGroup::Connection => "Connection / bookmarks"@,
        KeyGroup::Transfers => "Transfers"@,
        KeyGroup::Filter => "Filters / compare"@,
        KeyGroup::FileOps => "File operations"@,
        KeyGroup::Mouse => "Mouse"@,
    }
}

impl KeyGroup {
    pub fn title(self) -> (r: &'static str)
        ensures
            r@ == group_title(self),
    {
        match self {
            KeyGroup::Global => "Global",
            KeyGroup::Navigation => "Navigation",
            KeyGroup::Connection => "Connection / bookmarks",
            KeyGroup::Transfers => "Transfers",
            KeyGroup::Filter => "Filters / compare",
            KeyGroup::FileOps => "File operations",
            KeyGroup::Mouse => "Mouse",
        }
    }
}

#[derive(Debug, Clone, Copy)]
pub struct KeyBinding {
    pub keys: &'static str,
    pub action: &'static str,
    pub group: KeyGroup,
}

#[derive(Debug, Clone, Copy, PartialEq, Eq, Structural)]
pub enum ThemeSource {
    Local,
    Global,
    Default,
}

/// The word a theme source is shown as.
pub open spec fn source_label(s: ThemeSource) -> Seq<char> {
    match s {
        ThemeSource::Local => "local"@,
        ThemeSource::Global => "global"@,
        ThemeSource::Default => "default"@,
    }
}

impl ThemeSource {
    pub fn label(self) -> (r: &'static str)
        ensures
            r@ == source_label(self),
    {
        match self {
            ThemeSource::Local => "local",
            ThemeSource::Global => "global",
            ThemeSource::Default => "default",
        }
    }
}

/// Which metadata columns a pane row has room for.
#[derive(Debug, Clone, Copy, PartialEq, Eq, Structural)]
pub struct MetaColumns {
    pub size: bool,
    pub date: bool,
    pub perms: bool,
}

/// Width of the size column.
pub const SIZE_COL: usize = 5;
/// Width of the date column.
pub const DATE_COL: usize = 16;
/// Width of the permissions column.
pub const PERMS_COL: usize = 4;
/// Gap before each column.
pub const META_GAP: usize = 2;

/// The columns that fit in `max_width` cells, dropped from the right:
/// permissions first, then the date, then the size.
pub open spec fn columns_for(max_width: usize) -> MetaColumns {
    let size_w = META_GAP + SIZE_COL;
    let date_w = META_GAP + DATE_COL;
    let perms_w = META_GAP + PERMS_COL;
    if max_width >= size_w + date_w + perms_w {
        MetaColumns { size: true, date: true, perms: true }
    } else if max_width >= size_w + date_w {
        MetaColumns { size: true, date: true, perms: false }
    } else if max_width >= size_w {
        MetaColumns { size: true, date: false, perms: false }
    } else {
        MetaColumns { size: false, date: false, perms: false }
    }
}

/// The columns that fit in `max_width` cells.
pub fn meta_columns(max_width: usize) -> (r: MetaColumns)
    ensures
        r == columns_for(max_width),
{
    let size_w = META_GAP + SIZE_COL;
    let date_w = META_GAP + DATE_COL;
    let perms_w = META_GAP + PERMS_COL;
    if max_width >= size_w + date_w + perms_w {
        MetaColumns { size: true, date: true, perms: true }
    } else if max_width >= size_w + date_w {
        MetaColumns { size: true, date: true, perms: false }
    } else if max_width >= size_w {
        MetaColumns { size: true, date: false, perms: false }
    } else {
        MetaColumns { size: false, date: false, perms: false }
    }
}

/// `n` spaces.
pub open spec fn spaces(n: int) -> Seq<char> {
    Seq::new(if n < 0 {
        0
    } else {
        n as nat
    }, |i: int| ' ')
}

/// `s` right-aligned in `width` cells (`format!("{:>width$}")`).
pub open spec fn pad_left(s: Seq<char>, width: nat) -> Seq<char> {
    spaces(width - s.len()) + s
}

/// `s` left-aligned in `width` cells (`format!("{:<width$}")`).
pub open spec fn pad_right(s: Seq<char>, width: nat) -> Seq<char> {
    s + spaces(width - s.len())
}

fn spaces_exec(n: usize) -> (r: Vec<char>)
    ensures
        r@ == spaces(n as int),
{
    let mut v: Vec<char> = Vec::new();
    let mut i: usize = 0;
    while i < n
        invariant
            i <= n,
            v@ == spaces(i as int),
        decreases n - i,
    {
        v.push(' ');
        proof {
            assert(v@ =~= spaces(i + 1));
        }
        i = i + 1;
    }
    v
}

fn padded(s: &str, width: usize, left: bool) -> (r: String)
    ensures
        r@ == (if left {
            pad_left(s@, width as nat)
        } else {
            pad_right(s@, width as nat)
        }),
{
    let cs = chars_of(s);
    let fill = if cs.len() < width {
        spaces_exec(width - cs.len())
    } else {
        Vec::new()
    };
    proof {
        assert(fill@ =~= spaces(width - s@.len()));
    }
    let f = string_of(&fill);
    if left {
        concat2(f.as_str(), s)
    } else {
        concat2(s, f.as_str())
    }
}

/// The minute of an instant as `YYYY-MM-DD HH:MM` in UTC, as chrono's
/// `format("%Y-%m-%d %H:%M")` writes it.
pub uninterp spec fn minute_text(secs: i64, nanos: u32) -> Seq<char>;

/// `chrono::DateTime::<Utc>` of the instant, formatted `%Y-%m-%d %H:%M`;
/// empty where chrono cannot represent the instant. The contract names the
/// result.
#[verifier::external_body]
fn format_minute(t: Timestamp) -> (r: String)
    ensures
        r@ == minute_text(t.secs, t.nanos),
{
    match chrono::DateTime::<chrono::Utc>::from_timestamp(t.secs, t.nanos) {
        Some(dt) => dt.format("%Y-%m-%d %H:%M").to_string(),
        None => String::new(),
    }
}

/// The metadata suffix of a pane row: each shown column after two spaces,
/// the size (already formatted as `size_text`) right-aligned in 5 cells,
/// the date right-aligned in 16, the permissions left-aligned in 4.
pub open spec fn meta_text(e: FileEntry, cols: MetaColumns, size_text: Seq<char>) -> Seq<char> {
    (if cols.size {
        "  "@ + pad_left(size_text, SIZE_COL as nat)
    } else {
        Seq::empty()
    }) + (if cols.date {
        "  "@ + pad_left(
            match e.modified {
                Some(t) => minute_text(t.secs, t.nanos),
                None => Seq::empty(),
            },
            DATE_COL as nat,
        )
    } else {
        Seq::empty()
    }) + (if cols.perms {
        "  "@ + pad_right(
            match e.permissions {
                Some(p) => p@,
                None => Seq::empty(),
            },
            PERMS_COL as nat,
        )
    } else {
        Seq::empty()
    })
}

/// The metadata suffix of a pane row for `entry`, its size shown as `size_text`.
pub fn entry_meta(entry: &FileEntry, cols: MetaColumns, size_text: &str) -> (r: String)
    ensures
        r@ == meta_text(*entry, cols, size_text@),
{
    let a = if cols.size {
        let p = padded(size_text, SIZE_COL, true);
        concat2("  ", p.as_str())
    } else {
        String::new()
    };
    let b = if cols.date {
        let d = match entry.modified {
            Some(t) => format_minute(t),
            None => String::new(),
        };
        let p = padded(d.as_str(), DATE_COL, true);
        concat2("  ", p.as_str())
    } else {
        String::new()
    };
    let c = if cols.perms {
        let perms = match &entry.permissions {
            Some(p) => p.as_str(),
            None => "",
        };
        proof {
            reveal_strlit("");
        }
        let p = padded(perms, PERMS_COL, false);
        concat2("  ", p.as_str())
    } else {
        String::new()
    };
    concat3(a.as_str(), b.as_str(), c.as_str())
}

/// `input` cut to at most `max_chars` characters by replacing its middle
/// with `...`: equal head and tail of `(max_chars - 3) / 2` characters each,
/// or just `...` below 8.
pub open spec fn shortened(input: Seq<char>, max_chars: usize) -> Seq<char> {
    if input.len() <= max_chars {
        input
    } else if max_chars < 8 {
        "..."@
    } else {
        let keep = (max_chars - 3) / 2;
        input.subrange(0, keep) + "..."@ + input.subrange(input.len() - keep, input.len() as int)
    }
}

/// `input` shortened in the middle to fit `max_chars`.
pub fn shorten_middle(input: &str, max_chars: usize) -> (r: String)
    ensures
        r@ == shortened(input@, max_chars),
{
    let cs = chars_of(input);
    if cs.len() <= max_chars {
        return String::from_str(input);
    }
    if max_chars < 8 {
        return String::from_str("...");
    }
    let keep = (max_chars - 3) / 2;
    let head = crate::text::string_of_range(&cs, 0, keep);
    let tail = crate::text::string_of_range(&cs, cs.len() - keep, cs.len());
    concat3(head.as_str(), "...", tail.as_str())
}

/// A queue row: `<up|down> <local> -> <remote> [<progress>] r<retries>`,
/// each path shortened to 22 characters; the progress text (a bar and a
/// percentage, worked out in floating point) is passed in.
pub open spec fn job_summary(job: TransferJob, progress: Seq<char>) -> Seq<char> {
    let dir = match job.direction {
        TransferDirection::Upload => "up"@,
        TransferDirection::Download => "down"@,
    };
    dir + " "@ + shortened(job.local_path@, 22) + " -> "@ + shortened(job.remote_path@, 22) + " ["@ + progress + "] r"@
        + decimal(job.retries as nat)
}

/// The queue row of `job` (see [`job_summary`]).
pub fn format_job_summary(job: &TransferJob, progress: &str) -> (r: String)
    ensures
        r@ == job_summary(*job, progress@),
{
    let dir = match job.direction {
        TransferDirection::Upload => "up",
        TransferDirection::Download => "down",
    };
    let local = shorten_middle(job.local_path.as_str(), 22);
    let remote = shorten_middle(job.remote_path.as_str(), 22);
    let retries = u64_to_decimal(job.retries as u64);
    let a = concat3(dir, " ", local.as_str());
    let b = concat3(a.as_str(), " -> ", remote.as_str());
    let c = concat3(b.as_str(), " [", progress);
    let d = concat3(c.as_str(), "] r", retries.as_str());
    d
}

} // verus!
