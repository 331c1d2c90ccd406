//! Reusable single-line text editor model: value + cursor + optional selection.
//!
//! Positions are character indices. A position past the end of the value
//! addresses the end of the value, as the byte lookup of the editor does.
use vstd::prelude::*;
use crate::text::{chars_of, string_of, is_ws, char_is_ws};

verus! {

#[derive(Debug, Clone, PartialEq, Eq)]
pub struct TextField {
    pub value: String,
    /// char index in 0..=len
    pub cursor: usize,
    /// Some => active selection between anchor and cursor
    pub anchor: Option<usize>,
}

/// An editor field's value, cursor and selection anchor.

pub struct TextFieldView {
    pub value: Seq<char>,
    pub cursor: usize,
    pub anchor: Option<usize>,
}

impl View for TextField {
    type V = TextFieldView;

    open spec fn view(&self) -> TextFieldView {
        TextFieldView { value: self.value@, cursor: self.cursor, anchor: self.anchor }
    }
}

impl Default for TextField {
    /// An empty field with the cursor at 0 and no selection.
    fn default() -> (r: Self)
        ensures
            r@ == empty_field(),
    {
        TextField { value: String::new(), cursor: 0, anchor: None }
    }
}

/// The empty field.
pub open spec fn empty_field() -> TextFieldView {
    TextFieldView { value: Seq::empty(), cursor: 0, anchor: None }
}

/// The field `from_str(s)` builds: cursor at the end, no selection.
pub open spec fn field_of(s: Seq<char>) -> TextFieldView {
    TextFieldView { value: s, cursor: s.len() as usize, anchor: None }
}

/// The field after `insert_char(ch)`.
pub open spec fn field_insert(f: TextFieldView, ch: char) -> TextFieldView {
    let (v, c) = match sel_range(f.anchor, f.cursor) {
        Some((lo, hi)) => (cut(f.value, lo as int, hi as int), lo),
        None => (f.value, f.cursor),
    };
    TextFieldView {
        value: v.insert(clamp_pos(c as int, v.len() as int), ch),
        cursor: (c + 1) as usize,
        anchor: None,
    }
}

/// Whether `insert_char` can advance the cursor of `f` without overflow.
pub open spec fn field_insert_fits(f: TextFieldView) -> bool {
    match sel_range(f.anchor, f.cursor) {
        Some((lo, _)) => lo < usize::MAX,
        None => f.cursor < usize::MAX,
    }
}

/// The field after `backspace()`.
pub open spec fn field_backspace(f: TextFieldView) -> TextFieldView {
    match sel_range(f.anchor, f.cursor) {
        Some((lo, hi)) => TextFieldView { value: cut(f.value, lo as int, hi as int), cursor: lo, anchor: None },
        None => if f.cursor > 0 {
            TextFieldView {
                value: cut(f.value, f.cursor - 1, f.cursor as int),
                cursor: (f.cursor - 1) as usize,
                anchor: None,
            }
        } else {
            TextFieldView { value: f.value, cursor: 0, anchor: None }
        },
    }
}

/// The field after `move_cursor(dir, shift)`.
pub open spec fn field_move(f: TextFieldView, dir: i32, shift: bool) -> TextFieldView {
    TextFieldView {
        value: f.value,
        cursor: if dir < 0 {
            if f.cursor > 0 {
                (f.cursor - 1) as usize
            } else {
                0
            }
        } else if dir > 0 {
            if f.cursor + 1 < f.value.len() {
                (f.cursor + 1) as usize
            } else {
                f.value.len() as usize
            }
        } else {
            f.cursor
        },
        anchor: moved_anchor(f.anchor, f.cursor, shift),
    }
}

/// The field after `begin_drag(idx)`.
pub open spec fn field_begin_drag(f: TextFieldView, idx: usize) -> TextFieldView {
    let c = clamp_pos(idx as int, f.value.len() as int) as usize;
    TextFieldView { value: f.value, cursor: c, anchor: Some(c) }
}

/// The field after `extend_drag(idx)`.
pub open spec fn field_extend_drag(f: TextFieldView, idx: usize) -> TextFieldView {
    TextFieldView { value: f.value, cursor: clamp_pos(idx as int, f.value.len() as int) as usize, anchor: f.anchor }
}

/// Position `i` clamped to the end of a value of `len` characters.
pub open spec fn clamp_pos(i: int, len: int) -> int {
    if i < len {
        i
    } else {
        len
    }
}

/// `v` with the characters between positions `lo` and `hi` removed.
pub open spec fn cut(v: Seq<char>, lo: int, hi: int) -> Seq<char> {
    v.subrange(0, clamp_pos(lo, v.len() as int)) + v.subrange(
        clamp_pos(hi, v.len() as int),
        v.len() as int,
    )
}

/// The non-empty selection `[lo, hi)` between anchor and cursor, if any.
pub open spec fn sel_range(anchor: Option<usize>, cursor: usize) -> Option<(usize, usize)> {
    match anchor {
        None => None,
        Some(a) => if a == cursor {
            None
        } else if a < cursor {
            Some((a, cursor))
        } else {
            Some((cursor, a))
        },
    }
}

/// Value and cursor after the active selection (if any) is deleted.
pub open spec fn after_selection_cut(f: TextField) -> (Seq<char>, usize) {
    match sel_range(f.anchor, f.cursor) {
        Some((lo, hi)) => (cut(f.value@, lo as int, hi as int), lo),
        None => (f.value@, f.cursor),
    }
}

/// The selection anchor kept or set by a movement with `shift`.
pub open spec fn moved_anchor(anchor: Option<usize>, cursor: usize, shift: bool) -> Option<usize> {
    if shift {
        match anchor {
            None => Some(cursor),
            Some(a) => Some(a),
        }
    } else {
        None
    }
}

/// Start of the word left of position `i`: skip whitespace, then non-whitespace.
pub open spec fn word_start(v: Seq<char>, i: int) -> int
    decreases i,
{
    if i <= 0 {
        0
    } else if is_ws(v[i - 1]) {
        word_start(v, i - 1)
    } else {
        word_body_start(v, i)
    }
}

/// Start of the run of non-whitespace characters ending at position `i`.
pub open spec fn word_body_start(v: Seq<char>, i: int) -> int
    decreases i,
{
    if i <= 0 {
        0
    } else if is_ws(v[i - 1]) {
        i
    } else {
        word_body_start(v, i - 1)
    }
}

proof fn lemma_word_body_start_bounds(v: Seq<char>, i: int)
    requires
        0 <= i <= v.len(),
    ensures
        0 <= word_body_start(v, i) <= i,
    decreases i,
{
    if i > 0 && !is_ws(v[i - 1]) {
        lemma_word_body_start_bounds(v, i - 1);
    }
}

proof fn lemma_word_start_bounds(v: Seq<char>, i: int)
    requires
        0 <= i <= v.len(),
    ensures
        0 <= word_start(v, i) <= i,
    decreases i,
{
    if i > 0 {
        if is_ws(v[i - 1]) {
            lemma_word_start_bounds(v, i - 1);
        } else {
            lemma_word_body_start_bounds(v, i);
        }
    }
}

impl TextField {
    /// Number of characters in the value.
    pub open spec fn spec_len(&self) -> nat {
        self.value@.len()
    }

    /// Inherent constructor, not the `FromStr` trait — callers use `TextField::from_str`.
    pub fn from_str(s: &str) -> (r: TextField)
        ensures
            r.value@ == s@,
            r.cursor == s@.len(),
            r.anchor.is_none(),
            r@ == field_of(s@),
    {
        let cs = chars_of(s);
        TextField { value: String::from_str(s), cursor: cs.len(), anchor: None }
    }

    pub fn len(&self) -> (r: usize)
        ensures
            r == self.value@.len(),
    {
        chars_of(self.value.as_str()).len()
    }

    pub fn is_empty(&self) -> (r: bool)
        ensures
            r == (self.value@.len() == 0),
    {
        self.value.as_str().is_empty()
    }

    /// Selection as a half-open char range [start, end), if active and non-empty.
    pub fn selected_range(&self) -> (r: Option<(usize, usize)>)
        ensures
            r == sel_range(self.anchor, self.cursor),
    {
        let a = match self.anchor {
            Some(a) => a,
            None => return None,
        };
        let (lo, hi) = if a <= self.cursor {
            (a, self.cursor)
        } else {
            (self.cursor, a)
        };
        if lo == hi {
            None
        } else {
            Some((lo, hi))
        }
    }

    /// Removes the characters between `lo` and `hi` and puts the cursor at `lo`.
    fn delete_range(&mut self, lo: usize, hi: usize)
        requires
            lo <= hi,
        ensures
            final(self).value@ == cut(old(self).value@, lo as int, hi as int),
            final(self).cursor == lo,
            final(self).anchor.is_none(),
    {
        let cs = chars_of(self.value.as_str());
        let blo = if lo < cs.len() {
            lo
        } else {
            cs.len()
        };
        let bhi = if hi < cs.len() {
            hi
        } else {
            cs.len()
        };
        let mut out: Vec<char> = Vec::new();
        let mut i: usize = 0;
        while i < blo
            invariant
                i <= blo <= cs@.len(),
                out@ == cs@.subrange(0, i as int),
            decreases blo - i,
        {
            out.push(cs[i]);
            proof {
                assert(cs@.subrange(0, i + 1) =~= cs@.subrange(0, i as int).push(cs@[i as int]));
            }
            i = i + 1;
        }
        let mut j: usize = bhi;
        while j < cs.len()
            invariant
                blo <= bhi <= j <= cs@.len(),
                out@ == cs@.subrange(0, blo as int) + cs@.subrange(bhi as int, j as int),
            decreases cs@.len() - j,
        {
            out.push(cs[j]);
            proof {
                assert(cs@.subrange(bhi as int, j + 1) =~= cs@.subrange(bhi as int, j as int).push(
                    cs@[j as int],
                ));
            }
            j = j + 1;
        }
        self.value = string_of(&out);
        self.cursor = lo;
        self.anchor = None;
    }

    /// Deletes the active selection; returns whether there was one. Clears the anchor.
    fn delete_selection_if_any(&mut self) -> (r: bool)
        ensures
            r == sel_range(old(self).anchor, old(self).cursor).is_some(),
            (final(self).value@, final(self).cursor) == after_selection_cut(*old(self)),
            final(self).anchor.is_none(),
    {
        if let Some((lo, hi)) = self.selected_range() {
            self.delete_range(lo, hi);
            true
        } else {
            self.anchor = None;
            false
        }
    }

    /// Types `ch` at the cursor, replacing the active selection.
    pub fn insert_char(&mut self, ch: char)
        requires
            after_selection_cut(*old(self)).1 < usize::MAX,
        ensures
            ({
                let (v, c) = after_selection_cut(*old(self));
                &&& final(self).value@ == v.insert(clamp_pos(c as int, v.len() as int), ch)
                &&& final(self).cursor == c + 1
                &&& final(self).anchor.is_none()
            }),
            final(self)@ == field_insert(old(self)@, ch),
    {
        self.delete_selection_if_any();
        let cs = chars_of(self.value.as_str());
        let b = if self.cursor < cs.len() {
            self.cursor
        } else {
            cs.len()
        };
        let mut out: Vec<char> = Vec::new();
        let mut i: usize = 0;
        while i < b
            invariant
                i <= b <= cs@.len(),
                out@ == cs@.subrange(0, i as int),
            decreases b - i,
        {
            out.push(cs[i]);
            proof {
                assert(cs@.subrange(0, i + 1) =~= cs@.subrange(0, i as int).push(cs@[i as int]));
            }
            i = i + 1;
        }
        out.push(ch);
        let mut j: usize = b;
        while j < cs.len()
            invariant
                b <= j <= cs@.len(),
                out@ == cs@.subrange(0, b as int).push(ch) + cs@.subrange(b as int, j as int),
            decreases cs@.len() - j,
        {
            out.push(cs[j]);
            proof {
                assert(cs@.subrange(b as int, j + 1) =~= cs@.subrange(b as int, j as int).push(
                    cs@[j as int],
                ));
            }
            j = j + 1;
        }
        self.value = string_of(&out);
        self.cursor = self.cursor + 1;
    }

    /// Deletes the selection, or the character left of the cursor.
    pub fn backspace(&mut self)
        ensures
            sel_range(old(self).anchor, old(self).cursor).is_some() ==> (final(self).value@,
                final(self).cursor) == after_selection_cut(*old(self)),
            sel_range(old(self).anchor, old(self).cursor).is_none() && old(self).cursor > 0 ==> {
                &&& final(self).value@ == cut(
                    old(self).value@,
                    old(self).cursor - 1,
                    old(self).cursor as int,
                )
                &&& final(self).cursor == old(self).cursor - 1
            },
            sel_range(old(self).anchor, old(self).cursor).is_none() && old(self).cursor == 0 ==> {
                &&& final(self).value@ == old(self).value@
                &&& final(self).cursor == 0
            },
            final(self).anchor.is_none(),
            final(self)@ == field_backspace(old(self)@),
    {
        if self.delete_selection_if_any() {
            return;
        }
        if self.cursor > 0 {
            self.delete_range(self.cursor - 1, self.cursor);
        }
    }

    /// Deletes the selection, or the character right of the cursor.
    pub fn delete(&mut self)
        ensures
            sel_range(old(self).anchor, old(self).cursor).is_some() ==> (final(self).value@,
                final(self).cursor) == after_selection_cut(*old(self)),
            sel_range(old(self).anchor, old(self).cursor).is_none() && old(self).cursor
                < old(self).value@.len() ==> {
                &&& final(self).value@ == old(self).value@.remove(old(self).cursor as int)
                &&& final(self).cursor == old(self).cursor
            },
            sel_range(old(self).anchor, old(self).cursor).is_none() && old(self).cursor
                >= old(self).value@.len() ==> {
                &&& final(self).value@ == old(self).value@
                &&& final(self).cursor == old(self).cursor
            },
            final(self).anchor.is_none(),
    {
        if self.delete_selection_if_any() {
            return;
        }
        if self.cursor < self.len() {
            let c = self.cursor;
            self.delete_range(c, c + 1);
            proof {
                assert(cut(old(self).value@, c as int, c + 1) =~= old(self).value@.remove(c as int));
            }
        }
    }

    /// dir: -1 left, +1 right. shift extends selection, else collapses it.
    pub fn move_cursor(&mut self, dir: i32, shift: bool)
        ensures
            final(self).anchor == moved_anchor(old(self).anchor, old(self).cursor, shift),
            final(self).value == old(self).value,
            final(self).cursor == (if dir < 0 {
                if old(self).cursor > 0 {
                    old(self).cursor - 1
                } else {
                    0
                }
            } else if dir > 0 {
                if old(self).cursor + 1 < old(self).value@.len() {
                    old(self).cursor + 1
                } else {
                    old(self).value@.len() as int
                }
            } else {
                old(self).cursor as int
            }),
            final(self)@ == field_move(old(self)@, dir, shift),
    {
        if shift {
            if self.anchor.is_none() {
                self.anchor = Some(self.cursor);
            }
        } else {
            self.anchor = None;
        }
        if dir < 0 {
            self.cursor = if self.cursor > 0 {
                self.cursor - 1
            } else {
                0
            };
        } else if dir > 0 {
            let len = self.len();
            self.cursor = if self.cursor < len && self.cursor + 1 < len {
                self.cursor + 1
            } else {
                len
            };
        }
    }

    /// Cursor to the start; shift extends the selection.
    pub fn move_home(&mut self, shift: bool)
        ensures
            final(self).anchor == moved_anchor(old(self).anchor, old(self).cursor, shift),
            final(self).value == old(self).value,
            final(self).cursor == 0,
    {
        if shift {
            if self.anchor.is_none() {
                self.anchor = Some(self.cursor);
            }
        } else {
            self.anchor = None;
        }
        self.cursor = 0;
    }

    /// Cursor to the end; shift extends the selection.
    pub fn move_end(&mut self, shift: bool)
        ensures
            final(self).anchor == moved_anchor(old(self).anchor, old(self).cursor, shift),
            final(self).value == old(self).value,
            final(self).cursor == old(self).value@.len(),
    {
        if shift {
            if self.anchor.is_none() {
                self.anchor = Some(self.cursor);
            }
        } else {
            self.anchor = None;
        }
        self.cursor = self.len();
    }

    /// Whether [`TextField::delete_word_left`] accepts this field: there is
    /// a selection, or the cursor lies within the text.
    pub fn delete_word_left_allowed(&self) -> (r: bool)
        ensures
            r == (sel_range(self.anchor, self.cursor).is_some() || self.cursor <= self.value@.len()),
    {
        let has_selection = match self.anchor {
            Some(a) => a != self.cursor,
            None => false,
        };
        has_selection || self.cursor <= chars_of(self.value.as_str()).len()
    }

    /// Deletes the selection, or the word (and the whitespace after it) left of the cursor.
    pub fn delete_word_left(&mut self)
        requires
            sel_range(old(self).anchor, old(self).cursor).is_some() || old(self).cursor
                <= old(self).value@.len(),
        ensures
            sel_range(old(self).anchor, old(self).cursor).is_some() ==> (final(self).value@,
                final(self).cursor) == after_selection_cut(*old(self)),
            sel_range(old(self).anchor, old(self).cursor).is_none() ==> {
                let w = word_start(old(self).value@, old(self).cursor as int);
                &&& final(self).value@ == cut(old(self).value@, w, old(self).cursor as int)
                &&& final(self).cursor == w
            },
            final(self).anchor.is_none(),
    {
        if self.delete_selection_if_any() {
            return;
        }
        let chars = chars_of(self.value.as_str());
        let mut i = self.cursor;
        while i > 0 && char_is_ws(chars[i - 1])
            invariant
                i <= self.cursor <= chars@.len(),
                chars@ == self.value@,
                word_start(chars@, self.cursor as int) == word_start(chars@, i as int),
            decreases i,
        {
            i = i - 1;
        }
        assert(word_start(chars@, self.cursor as int) == word_body_start(chars@, i as int));
        while i > 0 && !char_is_ws(chars[i - 1])
            invariant
                i <= self.cursor <= chars@.len(),
                chars@ == self.value@,
                word_start(chars@, self.cursor as int) == word_body_start(chars@, i as int),
            decreases i,
        {
            i = i - 1;
        }
        assert(word_body_start(chars@, i as int) == i);
        let c = self.cursor;
        self.delete_range(i, c);
    }

    /// Cursor to `idx`, clamped to the end; clears the selection.
    pub fn set_cursor(&mut self, idx: usize)
        ensures
            final(self).cursor == clamp_pos(idx as int, old(self).value@.len() as int),
            final(self).anchor.is_none(),
            final(self).value == old(self).value,
    {
        let len = self.len();
        self.cursor = if idx < len {
            idx
        } else {
            len
        };
        self.anchor = None;
    }

    /// Starts a mouse selection at `idx` (clamped): cursor and anchor both there.
    pub fn begin_drag(&mut self, idx: usize)
        ensures
            final(self).cursor == clamp_pos(idx as int, old(self).value@.len() as int),
            final(self).anchor == Some(final(self).cursor),
            final(self).value == old(self).value,
            final(self)@ == field_begin_drag(old(self)@, idx),
    {
        let len = self.len();
        let i = if idx < len {
            idx
        } else {
            len
        };
        self.cursor = i;
        self.anchor = Some(i);
    }

    /// Extends a mouse selection to `idx` (clamped); the anchor stays.
    pub fn extend_drag(&mut self, idx: usize)
        ensures
            final(self).cursor == clamp_pos(idx as int, old(self).value@.len() as int),
            final(self).anchor == old(self).anchor,
            final(self).value == old(self).value,
            final(self)@ == field_extend_drag(old(self)@, idx),
    {
        let len = self.len();
        self.cursor = if idx < len {
            idx
        } else {
            len
        };
    }
}

/// The cursor, and the selection anchor if any, lie within the value.
pub open spec fn field_ok(f: TextFieldView) -> bool {
    f.cursor <= f.value.len() && match f.anchor {
        Some(a) => a <= f.value.len(),
        None => true,
    }
}

/// Backspace right after typing a character, with nothing selected, gives
/// back the field as it was.
pub proof fn law_backspace_undoes_insert(f: TextFieldView, ch: char)
    requires
        f.anchor is None,
        f.cursor <= f.value.len(),
        f.cursor < usize::MAX,
    ensures
        field_backspace(field_insert(f, ch)) == f,
{
    let g = field_insert(f, ch);
    assert(g.value == f.value.insert(f.cursor as int, ch));
    assert(cut(g.value, f.cursor as int, f.cursor + 1) =~= f.value);
}

/// Every edit keeps the cursor and the anchor within the value.
pub proof fn law_edits_keep_cursor_in_value(f: TextFieldView, ch: char, dir: i32, shift: bool, idx: usize)
    requires
        field_ok(f),
        field_insert_fits(f),
    ensures
        field_ok(field_insert(f, ch)),
        field_ok(field_backspace(f)),
        field_ok(field_move(f, dir, shift)),
        field_ok(field_begin_drag(f, idx)),
        field_ok(field_extend_drag(f, idx)),
{
}

/// Typing with a selection replaces the selected text by the character, and
/// the cursor lands right after it; backspace with a selection removes just
/// the selected text.
pub proof fn law_typing_replaces_selection(f: TextFieldView, ch: char, lo: usize, hi: usize)
    requires
        field_ok(f),
        sel_range(f.anchor, f.cursor) == Some((lo, hi)),
    ensures
        field_insert(f, ch).value == f.value.subrange(0, lo as int) + seq![ch] + f.value.subrange(
            hi as int,
            f.value.len() as int,
        ),
        field_insert(f, ch).cursor == lo + 1,
        field_insert(f, ch).anchor is None,
        field_backspace(f).value == f.value.subrange(0, lo as int) + f.value.subrange(hi as int, f.value.len() as int),
        field_backspace(f).cursor == lo,
{
    let v = cut(f.value, lo as int, hi as int);
    assert(v.insert(lo as int, ch) =~= f.value.subrange(0, lo as int) + seq![ch] + f.value.subrange(
        hi as int,
        f.value.len() as int,
    ));
}

} // verus!
