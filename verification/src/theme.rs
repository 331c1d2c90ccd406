//! Colour themes: the built-in palette, `#rrggbb` colours, the plain
//! `key: value` theme format, and mapping a theme file onto the palette.
use vstd::prelude::*;
use crate::listing::{utf8_len, utf8_width, split_once, split_once_exec};
use crate::text::{
    chars_of, string_of, concat2, seq_eq, pieces, split_pieces, Sep, trim_start_char,
    trim_start_char_exec, trim_end_char, trim_end_char_exec, trim_ws, trim_ws_exec,
};

verus! {

/// A 24-bit colour.
#[derive(Debug, Clone, Copy, PartialEq, Eq, Structural)]
pub struct Rgb {
    pub r: u8,
    pub g: u8,
    pub b: u8,
}

/// The colours the screen is drawn with.
#[derive(Debug, Clone, Copy, PartialEq, Eq, Structural)]
pub struct Theme {
    pub base_background: Rgb,
    pub body_background: Rgb,
    pub modal_background: Rgb,
    pub text_primary: Rgb,
    pub text_secondary: Rgb,
    pub text_labels: Rgb,
    pub text_labels_active: Rgb,
    pub text_active_focus: Rgb,
    pub modal_labels: Rgb,
    pub modal_text: Rgb,
    pub selected_background: Rgb,
    pub border_default: Rgb,
    pub border_active: Rgb,
    pub input_border_default: Rgb,
    pub input_border_focus: Rgb,
    pub input_text_default: Rgb,
    pub input_text_focus: Rgb,
    pub cursor: Rgb,
    pub scrollbar: Rgb,
    pub scrollbar_hover: Rgb,
    pub success: Rgb,
    pub warning: Rgb,
    pub error: Rgb,
    pub info: Rgb,
    pub folder: Rgb,
    pub file: Rgb,
    pub link: Rgb,
}

/// The built-in palette.
pub open spec fn default_theme() -> Theme {
    Theme {
        base_background: Rgb { r: 0x0f, g: 0x11, b: 0x14 },
        body_background: Rgb { r: 0x1a, g: 0x1c, b: 0x1f },
        modal_background: Rgb { r: 0x2a, g: 0x2d, b: 0x31 },
        text_primary: Rgb { r: 0xf5, g: 0xf6, b: 0xf7 },
        text_secondary: Rgb { r: 0x9e, g: 0xa3, b: 0xaa },
        text_labels: Rgb { r: 0x9e, g: 0xa3, b: 0xaa },
        text_labels_active: Rgb { r: 0x6e, g: 0xc8, b: 0xff },
        text_active_focus: Rgb { r: 0x6e, g: 0xc8, b: 0xff },
        modal_labels: Rgb { r: 0xf5, g: 0xf6, b: 0xf7 },
        modal_text: Rgb { r: 0xf5, g: 0xf6, b: 0xf7 },
        selected_background: Rgb { r: 0x2a, g: 0x2d, b: 0x31 },
        border_default: Rgb { r: 0x2a, g: 0x2d, b: 0x31 },
        border_active: Rgb { r: 0x6e, g: 0xc8, b: 0xff },
        input_border_default: Rgb { r: 0x5a, g: 0xb4, b: 0xf5 },
        input_border_focus: Rgb { r: 0x8c, g: 0xc8, b: 0xff },
        input_text_default: Rgb { r: 0x5a, g: 0xb4, b: 0xf5 },
        input_text_focus: Rgb { r: 0x8c, g: 0xc8, b: 0xff },
        cursor: Rgb { r: 0x6e, g: 0xc8, b: 0xff },
        scrollbar: Rgb { r: 0x2a, g: 0x2d, b: 0x31 },
        scrollbar_hover: Rgb { r: 0x6e, g: 0xc8, b: 0xff },
        success: Rgb { r: 0x82, g: 0xe0, b: 0xaa },
        warning: Rgb { r: 0xf5, g: 0xc4, b: 0x69 },
        error: Rgb { r: 0xe5, g: 0x73, b: 0x73 },
        info: Rgb { r: 0x5d, g: 0xad, b: 0xe2 },
        folder: Rgb { r: 0x5d, g: 0xad, b: 0xe2 },
        file: Rgb { r: 0xf5, g: 0xf6, b: 0xf7 },
        link: Rgb { r: 0xf5, g: 0xc4, b: 0x69 },
    }
}

fn builtin_theme() -> (r: Theme)
    ensures
        r == default_theme(),
{
    Theme {
        base_background: Rgb { r: 0x0f, g: 0x11, b: 0x14 },
        body_background: Rgb { r: 0x1a, g: 0x1c, b: 0x1f },
        modal_background: Rgb { r: 0x2a, g: 0x2d, b: 0x31 },
        text_primary: Rgb { r: 0xf5, g: 0xf6, b: 0xf7 },
        text_secondary: Rgb { r: 0x9e, g: 0xa3, b: 0xaa },
        text_labels: Rgb { r: 0x9e, g: 0xa3, b: 0xaa },
        text_labels_active: Rgb { r: 0x6e, g: 0xc8, b: 0xff },
        text_active_focus: Rgb { r: 0x6e, g: 0xc8, b: 0xff },
        modal_labels: Rgb { r: 0xf5, g: 0xf6, b: 0xf7 },
        modal_text: Rgb { r: 0xf5, g: 0xf6, b: 0xf7 },
        selected_background: Rgb { r: 0x2a, g: 0x2d, b: 0x31 },
        border_default: Rgb { r: 0x2a, g: 0x2d, b: 0x31 },
        border_active: Rgb { r: 0x6e, g: 0xc8, b: 0xff },
        input_border_default: Rgb { r: 0x5a, g: 0xb4, b: 0xf5 },
        input_border_focus: Rgb { r: 0x8c, g: 0xc8, b: 0xff },
        input_text_default: Rgb { r: 0x5a, g: 0xb4, b: 0xf5 },
        input_text_focus: Rgb { r: 0x8c, g: 0xc8, b: 0xff },
        cursor: Rgb { r: 0x6e, g: 0xc8, b: 0xff },
        scrollbar: Rgb { r: 0x2a, g: 0x2d, b: 0x31 },
        scrollbar_hover: Rgb { r: 0x6e, g: 0xc8, b: 0xff },
        success: Rgb { r: 0x82, g: 0xe0, b: 0xaa },
        warning: Rgb { r: 0xf5, g: 0xc4, b: 0x69 },
        error: Rgb { r: 0xe5, g: 0x73, b: 0x73 },
        info: Rgb { r: 0x5d, g: 0xad, b: 0xe2 },
        folder: Rgb { r: 0x5d, g: 0xad, b: 0xe2 },
        file: Rgb { r: 0xf5, g: 0xf6, b: 0xf7 },
        link: Rgb { r: 0xf5, g: 0xc4, b: 0x69 },
    }
}

impl Default for Theme {
    /// The built-in palette.
    fn default() -> (r: Self)
        ensures
            r == default_theme(),
    {
        builtin_theme()
    }
}

/// An ASCII hexadecimal digit.
pub open spec fn is_hex_digit(c: char) -> bool {
    ('0' <= c <= '9') || ('a' <= c <= 'f') || ('A' <= c <= 'F')
}

/// The value of a hexadecimal digit.
pub open spec fn hex_value(c: char) -> int {
    if '0' <= c <= '9' {
        c as int - '0' as int
    } else if 'a' <= c <= 'f' {
        c as int - 'a' as int + 10
    } else {
        c as int - 'A' as int + 10
    }
}

/// `u8::from_str_radix(p, 16)` on a two-character piece: two hex digits,
/// or `+` and one.
pub open spec fn hex_byte(p: Seq<char>) -> Option<u8> {
    if p.len() == 2 && p[0] == '+' && is_hex_digit(p[1]) {
        Some(hex_value(p[1]) as u8)
    } else if p.len() == 2 && is_hex_digit(p[0]) && is_hex_digit(p[1]) {
        Some((16 * hex_value(p[0]) + hex_value(p[1])) as u8)
    } else {
        None
    }
}

/// A colour's text without surrounding whitespace and leading `#`s.
pub open spec fn hex_body(input: Seq<char>) -> Seq<char> {
    trim_start_char(trim_ws(input), '#')
}

/// Whether byte `b` of the UTF-8 form of `s` starts a character (or ends `s`).
pub open spec fn on_char_boundary(s: Seq<char>, b: nat) -> bool {
    exists|k: int| 0 <= k <= s.len() && #[trigger] utf8_len(s.take(k)) == b
}

/// Whether a colour's text can be cut into its three two-byte pieces: a
/// six-byte body is cut at bytes 2 and 4, which must fall between characters.
pub open spec fn hex_slices_ok(input: Seq<char>) -> bool {
    let s = hex_body(input);
    utf8_len(s) == 6 ==> on_char_boundary(s, 2) && on_char_boundary(s, 4)
}

/// The colour `#rrggbb` (the `#` optional, surrounding whitespace ignored):
/// a body of six bytes whose three two-byte pieces each parse as a hex byte.
pub open spec fn hex_color(input: Seq<char>) -> Option<Rgb> {
    let s = hex_body(input);
    if utf8_len(s) != 6 || s.len() != 6 {
        None
    } else {
        match (hex_byte(s.subrange(0, 2)), hex_byte(s.subrange(2, 4)), hex_byte(s.subrange(4, 6))) {
            (Some(r), Some(g), Some(b)) => Some(Rgb { r, g, b }),
            _ => None,
        }
    }
}

fn hex_digit_value(c: char) -> (r: Option<u8>)
    ensures
        match r {
            Some(v) => is_hex_digit(c) && v == hex_value(c),
            None => !is_hex_digit(c),
        },
{
    if '0' <= c && c <= '9' {
        Some(((c as u32) - ('0' as u32)) as u8)
    } else if 'a' <= c && c <= 'f' {
        Some(((c as u32) - ('a' as u32) + 10) as u8)
    } else if 'A' <= c && c <= 'F' {
        Some(((c as u32) - ('A' as u32) + 10) as u8)
    } else {
        None
    }
}

fn hex_byte_exec(a: char, b: char) -> (r: Option<u8>)
    ensures
        r == hex_byte(seq![a, b]),
{
    let lo = hex_digit_value(b);
    match lo {
        None => None,
        Some(l) => {
            if a == '+' {
                Some(l)
            } else {
                match hex_digit_value(a) {
                    Some(h) => Some(h * 16 + l),
                    None => None,
                }
            }
        },
    }
}

proof fn lemma_utf8_len_take_mono(s: Seq<char>, i: int, j: int)
    requires
        0 <= i <= j <= s.len(),
    ensures
        utf8_len(s.take(i)) <= utf8_len(s.take(j)),
    decreases j - i,
{
    if i < j {
        lemma_utf8_len_take_mono(s, i, j - 1);
        assert(s.take(j).drop_last() =~= s.take(j - 1));
    }
}

proof fn lemma_ascii_six(s: Seq<char>)
    requires
        s.len() == 6,
        forall|k: int| 0 <= k < 6 ==> (#[trigger] s[k] as u32) < 0x80,
    ensures
        utf8_len(s) == 6,
{
    assert(s.take(6) =~= s);
    lemma_ascii_prefix(s, 6);
}

proof fn lemma_ascii_prefix(s: Seq<char>, k: int)
    requires
        s.len() == 6,
        forall|m: int| 0 <= m < 6 ==> (#[trigger] s[m] as u32) < 0x80,
        0 <= k <= 6,
    ensures
        utf8_len(s.take(k)) == k,
    decreases k,
{
    if k > 0 {
        lemma_ascii_prefix(s, k - 1);
        assert(s.take(k).drop_last() =~= s.take(k - 1));
        assert(s.take(k).last() == s[k - 1]);
    }
}

/// Whether `input` can be read as a colour without cutting a character.
pub fn hex_slices_safe(input: &str) -> (r: bool)
    ensures
        r == hex_slices_ok(input@),
{
    let cs = chars_of(input);
    let t = trim_ws_exec(&cs);
    let s = trim_start_char_exec(&t, '#');
    let ghost sv = s@;
    assert(sv == hex_body(input@));
    let mut n: usize = 0;
    let mut seen2 = false;
    let mut seen4 = false;
    let mut i: usize = 0;
    proof {
        assert(sv.take(0) =~= Seq::<char>::empty());
    }
    while i < s.len()
        invariant
            sv == s@,
            sv == hex_body(input@),
            i <= sv.len(),
            n == utf8_len(sv.take(i as int)),
            n <= 6,
            seen2 <==> exists|k: int| 0 <= k <= i && #[trigger] utf8_len(sv.take(k)) == 2,
            seen4 <==> exists|k: int| 0 <= k <= i && #[trigger] utf8_len(sv.take(k)) == 4,
        decreases sv.len() - i,
    {
        let u = s[i] as u32;
        let w: usize = if u < 0x80 {
            1
        } else if u < 0x800 {
            2
        } else if u < 0x10000 {
            3
        } else {
            4
        };
        proof {
            assert(sv.take(i + 1).drop_last() =~= sv.take(i as int));
            assert(sv.take(i + 1).last() == sv[i as int]);
            assert(w == utf8_width(sv[i as int]));
        }
        n = n + w;
        i = i + 1;
        if n > 6 {
            proof {
                lemma_utf8_len_take_mono(sv, i as int, sv.len() as int);
                assert(sv.take(sv.len() as int) =~= sv);
            }
            return true;
        }
        if n == 2 {
            seen2 = true;
        }
        if n == 4 {
            seen4 = true;
        }
        proof {
            assert(utf8_len(sv.take(i as int)) == n);
        }
    }
    proof {
        assert(sv.take(sv.len() as int) =~= sv);
    }
    n != 6 || (seen2 && seen4)
}

/// The colour written in `input`, when it is one.
pub fn parse_hex(input: &str) -> (r: Option<Rgb>)
    requires
        hex_slices_ok(input@),
    ensures
        r == hex_color(input@),
{
    let cs = chars_of(input);
    let t = trim_ws_exec(&cs);
    let s = trim_start_char_exec(&t, '#');
    if s.len() != 6 {
        return None;
    }
    let r = hex_byte_exec(s[0], s[1]);
    let g = hex_byte_exec(s[2], s[3]);
    let b = hex_byte_exec(s[4], s[5]);
    proof {
        assert(s@.subrange(0, 2) =~= seq![s@[0], s@[1]]);
        assert(s@.subrange(2, 4) =~= seq![s@[2], s@[3]]);
        assert(s@.subrange(4, 6) =~= seq![s@[4], s@[5]]);
    }
    match (r, g, b) {
        (Some(r), Some(g), Some(b)) => {
            proof {
                assert forall|k: int| 0 <= k < 6 implies (#[trigger] s@[k] as u32) < 0x80 by {
                    if k == 0 || k == 2 || k == 4 {
                        assert(s@[k] == '+' || is_hex_digit(s@[k]));
                    } else {
                        assert(is_hex_digit(s@[k]));
                    }
                }
                lemma_ascii_six(s@);
            }
            Some(Rgb { r, g, b })
        },
        _ => None,
    }
}

/// The colour strings of a theme file; the optional ones may be left out.
#[derive(Debug, Clone, PartialEq, Eq)]
pub struct ThemeColors {
    pub base_background: String,
    pub body_background: String,
    pub modal_background: String,
    pub text_primary: String,
    pub text_secondary: String,
    pub text_labels: String,
    pub text_labels_active: Option<String>,
    pub text_active_focus: Option<String>,
    pub modal_labels: String,
    pub modal_text: String,
    pub selected_background: String,
    pub border_default: String,
    pub border_active: String,
    pub input_border_default: String,
    pub input_border_focus: String,
    pub input_text_default: String,
    pub input_text_focus: String,
    pub cursor: Option<String>,
    pub scrollbar: Option<String>,
    pub scrollbar_hover: Option<String>,
    pub success: String,
    pub warning: String,
    pub error: String,
    pub info: String,
    pub folders: Option<String>,
    pub files: Option<String>,
    pub links: Option<String>,
}

/// The colour written in `text`, or `fallback` when it is not one.
pub open spec fn colour_or(text: Seq<char>, fallback: Rgb) -> Rgb {
    match hex_color(text) {
        Some(c) => c,
        None => fallback,
    }
}

/// The colour written in an optional text.
pub open spec fn opt_colour(text: Option<String>) -> Option<Rgb> {
    match text {
        Some(t) => hex_color(t@),
        None => None,
    }
}

/// The colour written in an optional text, or `fallback`.
pub open spec fn opt_colour_or(text: Option<String>, fallback: Rgb) -> Rgb {
    match opt_colour(text) {
        Some(c) => c,
        None => fallback,
    }
}

/// An optional colour text that can be read without cutting a character.
pub open spec fn opt_ok(text: Option<String>) -> bool {
    match text {
        Some(t) => hex_slices_ok(t@),
        None => true,
    }
}

/// Every colour text of `c` can be read without cutting a character.
pub open spec fn colours_ok(c: ThemeColors) -> bool {
    &&& hex_slices_ok(c.base_background@)
    &&& hex_slices_ok(c.body_background@)
    &&& hex_slices_ok(c.modal_background@)
    &&& hex_slices_ok(c.text_primary@)
    &&& hex_slices_ok(c.text_secondary@)
    &&& hex_slices_ok(c.text_labels@)
    &&& opt_ok(c.text_labels_active)
    &&& opt_ok(c.text_active_focus)
    &&& hex_slices_ok(c.modal_labels@)
    &&& hex_slices_ok(c.modal_text@)
    &&& hex_slices_ok(c.selected_background@)
    &&& hex_slices_ok(c.border_default@)
    &&& hex_slices_ok(c.border_active@)
    &&& hex_slices_ok(c.input_border_default@)
    &&& hex_slices_ok(c.input_border_focus@)
    &&& hex_slices_ok(c.input_text_default@)
    &&& hex_slices_ok(c.input_text_focus@)
    &&& opt_ok(c.cursor)
    &&& opt_ok(c.scrollbar)
    &&& opt_ok(c.scrollbar_hover)
    &&& hex_slices_ok(c.success@)
    &&& hex_slices_ok(c.warning@)
    &&& hex_slices_ok(c.error@)
    &&& hex_slices_ok(c.info@)
    &&& opt_ok(c.folders)
    &&& opt_ok(c.files)
    &&& opt_ok(c.links)
}

/// The palette a theme file gives: each colour that reads as one replaces
/// the built-in one. The active-label colour falls back to the focus
/// colour before the built-in one.
pub open spec fn themed(c: ThemeColors) -> Theme {
    let d = default_theme();
    Theme {
        base_background: colour_or(c.base_background@, d.base_background),
        body_background: colour_or(c.body_background@, d.body_background),
        modal_background: colour_or(c.modal_background@, d.modal_background),
        text_primary: colour_or(c.text_primary@, d.text_primary),
        text_secondary: colour_or(c.text_secondary@, d.text_secondary),
        text_labels: colour_or(c.text_labels@, d.text_labels),
        text_labels_active: match opt_colour(c.text_labels_active) {
            Some(x) => x,
            None => opt_colour_or(c.text_active_focus, d.text_labels_active),
        },
        text_active_focus: opt_colour_or(c.text_active_focus, d.text_active_focus),
        modal_labels: colour_or(c.modal_labels@, d.modal_labels),
        modal_text: colour_or(c.modal_text@, d.modal_text),
        selected_background: colour_or(c.selected_background@, d.selected_background),
        border_default: colour_or(c.border_default@, d.border_default),
        border_active: colour_or(c.border_active@, d.border_active),
        input_border_default: colour_or(c.input_border_default@, d.input_border_default),
        input_border_focus: colour_or(c.input_border_focus@, d.input_border_focus),
        input_text_default: colour_or(c.input_text_default@, d.input_text_default),
        input_text_focus: colour_or(c.input_text_focus@, d.input_text_focus),
        cursor: opt_colour_or(c.cursor, d.cursor),
        scrollbar: opt_colour_or(c.scrollbar, d.scrollbar),
        scrollbar_hover: opt_colour_or(c.scrollbar_hover, d.scrollbar_hover),
        success: colour_or(c.success@, d.success),
        warning: colour_or(c.warning@, d.warning),
        error: colour_or(c.error@, d.error),
        info: colour_or(c.info@, d.info),
        folder: opt_colour_or(c.folders, d.folder),
        file: opt_colour_or(c.files, d.file),
        link: opt_colour_or(c.links, d.link),
    }
}

fn colour_or_exec(text: &String, fallback: Rgb) -> (r: Rgb)
    requires
        hex_slices_ok(text@),
    ensures
        r == colour_or(text@, fallback),
{
    match parse_hex(text.as_str()) {
        Some(c) => c,
        None => fallback,
    }
}

fn opt_colour_exec(text: &Option<String>) -> (r: Option<Rgb>)
    requires
        opt_ok(*text),
    ensures
        r == opt_colour(*text),
{
    match text {
        Some(t) => parse_hex(t.as_str()),
        None => None,
    }
}

fn opt_colour_or_exec(text: &Option<String>, fallback: Rgb) -> (r: Rgb)
    requires
        opt_ok(*text),
    ensures
        r == opt_colour_or(*text, fallback),
{
    match opt_colour_exec(text) {
        Some(c) => c,
        None => fallback,
    }
}

fn opt_safe(text: &Option<String>) -> (r: bool)
    ensures
        r == opt_ok(*text),
{
    match text {
        Some(t) => hex_slices_safe(t.as_str()),
        None => true,
    }
}

/// Whether every colour text of `c` can be read without cutting a character.
pub fn colours_safe(c: &ThemeColors) -> (r: bool)
    ensures
        r == colours_ok(*c),
{
    hex_slices_safe(c.base_background.as_str()) && hex_slices_safe(c.body_background.as_str())
        && hex_slices_safe(c.modal_background.as_str()) && hex_slices_safe(c.text_primary.as_str())
        && hex_slices_safe(c.text_secondary.as_str()) && hex_slices_safe(c.text_labels.as_str())
        && opt_safe(&c.text_labels_active) && opt_safe(&c.text_active_focus)
        && hex_slices_safe(c.modal_labels.as_str()) && hex_slices_safe(c.modal_text.as_str())
        && hex_slices_safe(c.selected_background.as_str()) && hex_slices_safe(c.border_default.as_str())
        && hex_slices_safe(c.border_active.as_str()) && hex_slices_safe(c.input_border_default.as_str())
        && hex_slices_safe(c.input_border_focus.as_str()) && hex_slices_safe(c.input_text_default.as_str())
        && hex_slices_safe(c.input_text_focus.as_str()) && opt_safe(&c.cursor) && opt_safe(&c.scrollbar)
        && opt_safe(&c.scrollbar_hover) && hex_slices_safe(c.success.as_str())
        && hex_slices_safe(c.warning.as_str()) && hex_slices_safe(c.error.as_str())
        && hex_slices_safe(c.info.as_str()) && opt_safe(&c.folders) && opt_safe(&c.files)
        && opt_safe(&c.links)
}

/// The palette the colours of a theme file give.
pub fn map_theme(c: &ThemeColors) -> (r: Theme)
    requires
        colours_ok(*c),
    ensures
        r == themed(*c),
{
    let d = builtin_theme();
    let text_labels_active = match opt_colour_exec(&c.text_labels_active) {
        Some(x) => x,
        None => opt_colour_or_exec(&c.text_active_focus, d.text_labels_active),
    };
    Theme {
        base_background: colour_or_exec(&c.base_background, d.base_background),
        body_background: colour_or_exec(&c.body_background, d.body_background),
        modal_background: colour_or_exec(&c.modal_background, d.modal_background),
        text_primary: colour_or_exec(&c.text_primary, d.text_primary),
        text_secondary: colour_or_exec(&c.text_secondary, d.text_secondary),
        text_labels: colour_or_exec(&c.text_labels, d.text_labels),
        text_labels_active,
        text_active_focus: opt_colour_or_exec(&c.text_active_focus, d.text_active_focus),
        modal_labels: colour_or_exec(&c.modal_labels, d.modal_labels),
        modal_text: colour_or_exec(&c.modal_text, d.modal_text),
        selected_background: colour_or_exec(&c.selected_background, d.selected_background),
        border_default: colour_or_exec(&c.border_default, d.border_default),
        border_active: colour_or_exec(&c.border_active, d.border_active),
        input_border_default: colour_or_exec(&c.input_border_default, d.input_border_default),
        input_border_focus: colour_or_exec(&c.input_border_focus, d.input_border_focus),
        input_text_default: colour_or_exec(&c.input_text_default, d.input_text_default),
        input_text_focus: colour_or_exec(&c.input_text_focus, d.input_text_focus),
        cursor: opt_colour_or_exec(&c.cursor, d.cursor),
        scrollbar: opt_colour_or_exec(&c.scrollbar, d.scrollbar),
        scrollbar_hover: opt_colour_or_exec(&c.scrollbar_hover, d.scrollbar_hover),
        success: colour_or_exec(&c.success, d.success),
        warning: colour_or_exec(&c.warning, d.warning),
        error: colour_or_exec(&c.error, d.error),
        info: colour_or_exec(&c.info, d.info),
        folder: opt_colour_or_exec(&c.folders, d.folder),
        file: opt_colour_or_exec(&c.files, d.file),
        link: opt_colour_or_exec(&c.links, d.link),
    }
}

/// `s` without leading and trailing `"` (`str::trim_matches('"')`).
pub open spec fn trim_quotes(s: Seq<char>) -> Seq<char> {
    trim_end_char(trim_start_char(s, '"'), '"')
}

/// The `key: value` pair a line of the plain theme format holds: blank
/// lines, `#` comments and the `colors:` heading hold none; the value has
/// surrounding whitespace and quotes removed.
pub open spec fn theme_entry(line: Seq<char>) -> Option<(Seq<char>, Seq<char>)> {
    let l = trim_ws(line);
    if l.len() == 0 || l[0] == '#' || l == "colors:"@ {
        None
    } else {
        match split_once(l, ':') {
            Some((k, v)) => Some((trim_ws(k), trim_quotes(trim_ws(v)))),
            None => None,
        }
    }
}

/// The pairs of `lines`, in order.
pub open spec fn entries_of(lines: Seq<Seq<char>>) -> Seq<(Seq<char>, Seq<char>)>
    decreases lines.len(),
{
    if lines.len() == 0 {
        Seq::empty()
    } else {
        let es = entries_of(lines.drop_last());
        match theme_entry(lines.last()) {
            Some(e) => es.push(e),
            None => es,
        }
    }
}

/// The pairs of a plain theme text, line by line.
pub open spec fn theme_entries(content: Seq<char>) -> Seq<(Seq<char>, Seq<char>)> {
    entries_of(pieces(content, Sep::Char('\n')))
}

/// The value of `key`: the last pair that names it wins.
pub open spec fn lookup(es: Seq<(Seq<char>, Seq<char>)>, key: Seq<char>) -> Option<Seq<char>>
    decreases es.len(),
{
    if es.len() == 0 {
        None
    } else if es.last().0 == key {
        Some(es.last().1)
    } else {
        lookup(es.drop_last(), key)
    }
}

/// The keys a plain theme text must have, in the order they are asked for.
pub open spec fn required_key(i: int) -> Seq<char> {
    if i == 0 {
        "base_background"@
    } else if i == 1 {
        "body_background"@
    } else if i == 2 {
        "modal_background"@
    } else if i == 3 {
        "text_primary"@
    } else if i == 4 {
        "text_secondary"@
    } else if i == 5 {
        "text_labels"@
    } else if i == 6 {
        "modal_labels"@
    } else if i == 7 {
        "modal_text"@
    } else if i == 8 {
        "selected_background"@
    } else if i == 9 {
        "border_default"@
    } else if i == 10 {
        "border_active"@
    } else if i == 11 {
        "input_border_default"@
    } else if i == 12 {
        "input_border_focus"@
    } else if i == 13 {
        "input_text_default"@
    } else if i == 14 {
        "input_text_focus"@
    } else if i == 15 {
        "success"@
    } else if i == 16 {
        "warning"@
    } else if i == 17 {
        "error"@
    } else {
        "info"@
    }
}

/// How many keys are required.
pub const REQUIRED_KEYS: usize = 19;

fn required_key_name(i: usize) -> (r: &'static str)
    ensures
        r@ == required_key(i as int),
{
    if i == 0 {
        "base_background"
    } else if i == 1 {
        "body_background"
    } else if i == 2 {
        "modal_background"
    } else if i == 3 {
        "text_primary"
    } else if i == 4 {
        "text_secondary"
    } else if i == 5 {
        "text_labels"
    } else if i == 6 {
        "modal_labels"
    } else if i == 7 {
        "modal_text"
    } else if i == 8 {
        "selected_background"
    } else if i == 9 {
        "border_default"
    } else if i == 10 {
        "border_active"
    } else if i == 11 {
        "input_border_default"
    } else if i == 12 {
        "input_border_focus"
    } else if i == 13 {
        "input_text_default"
    } else if i == 14 {
        "input_text_focus"
    } else if i == 15 {
        "success"
    } else if i == 16 {
        "warning"
    } else if i == 17 {
        "error"
    } else {
        "info"
    }
}

/// The first required key, from the `i`-th on, that has no value.
pub open spec fn missing_from(es: Seq<(Seq<char>, Seq<char>)>, i: int) -> Option<Seq<char>>
    decreases REQUIRED_KEYS - i,
{
    if i < 0 || i >= REQUIRED_KEYS {
        None
    } else if lookup(es, required_key(i)) is None {
        Some(required_key(i))
    } else {
        missing_from(es, i + 1)
    }
}

/// An optional colour field holding the value of `key`, if any.
pub open spec fn opt_field(f: Option<String>, v: Option<Seq<char>>) -> bool {
    match (f, v) {
        (Some(a), Some(b)) => a@ == b,
        (None, None) => true,
        _ => false,
    }
}

/// `c` holds the values the pairs `es` give each colour.
pub open spec fn colours_from(c: ThemeColors, es: Seq<(Seq<char>, Seq<char>)>) -> bool {
    &&& lookup(es, "base_background"@) == Some(c.base_background@)
    &&& lookup(es, "body_background"@) == Some(c.body_background@)
    &&& lookup(es, "modal_background"@) == Some(c.modal_background@)
    &&& lookup(es, "text_primary"@) == Some(c.text_primary@)
    &&& lookup(es, "text_secondary"@) == Some(c.text_secondary@)
    &&& lookup(es, "text_labels"@) == Some(c.text_labels@)
    &&& opt_field(c.text_labels_active, lookup(es, "text_labels_active"@))
    &&& opt_field(c.text_active_focus, lookup(es, "text_active_focus"@))
    &&& lookup(es, "modal_labels"@) == Some(c.modal_labels@)
    &&& lookup(es, "modal_text"@) == Some(c.modal_text@)
    &&& lookup(es, "selected_background"@) == Some(c.selected_background@)
    &&& lookup(es, "border_default"@) == Some(c.border_default@)
    &&& lookup(es, "border_active"@) == Some(c.border_active@)
    &&& lookup(es, "input_border_default"@) == Some(c.input_border_default@)
    &&& lookup(es, "input_border_focus"@) == Some(c.input_border_focus@)
    &&& lookup(es, "input_text_default"@) == Some(c.input_text_default@)
    &&& lookup(es, "input_text_focus"@) == Some(c.input_text_focus@)
    &&& opt_field(c.cursor, lookup(es, "cursor"@))
    &&& opt_field(c.scrollbar, lookup(es, "scrollbar"@))
    &&& opt_field(c.scrollbar_hover, lookup(es, "scrollbar_hover"@))
    &&& lookup(es, "success"@) == Some(c.success@)
    &&& lookup(es, "warning"@) == Some(c.warning@)
    &&& lookup(es, "error"@) == Some(c.error@)
    &&& lookup(es, "info"@) == Some(c.info@)
    &&& opt_field(c.folders, lookup(es, "folders"@))
    &&& opt_field(c.files, lookup(es, "files"@))
    &&& opt_field(c.links, lookup(es, "links"@))
}

/// The pair one line holds.
fn theme_entry_exec(line: &[char]) -> (r: Option<(Vec<char>, Vec<char>)>)
    ensures
        match theme_entry(line@) {
            Some((k, v)) => r matches Some((a, b)) && a@ == k && b@ == v,
            None => r is None,
        },
{
    let l = trim_ws_exec(line);
    let heading = chars_of("colors:");
    if l.len() == 0 || l[0] == '#' || seq_eq(&l, &heading) {
        return None;
    }
    match split_once_exec(&l, ':') {
        Some((k, v)) => {
            let key = trim_ws_exec(&k);
            let v1 = trim_ws_exec(&v);
            let v2 = trim_start_char_exec(&v1, '"');
            let v3 = trim_end_char_exec(&v2, '"');
            Some((key, v3))
        },
        None => None,
    }
}

/// Index of the pair that gives `key` its value, when one does.
fn lookup_exec(keys: &Vec<Vec<char>>, vals: &Vec<Vec<char>>, key: &[char], es: Ghost<Seq<(Seq<char>, Seq<char>)>>) -> (r: Option<usize>)
    requires
        keys@.len() == vals@.len(),
        keys@.len() == es@.len(),
        forall|j: int| 0 <= j < es@.len() ==> (#[trigger] keys@[j])@ == es@[j].0 && vals@[j]@ == es@[j].1,
    ensures
        match lookup(es@, key@) {
            Some(v) => r matches Some(j) && j < vals@.len() && vals@[j as int]@ == v,
            None => r is None,
        },
{
    let mut j = keys.len();
    proof {
        assert(es@.take(j as int) =~= es@);
    }
    while j > 0
        invariant
            j <= keys@.len(),
            keys@.len() == vals@.len(),
            keys@.len() == es@.len(),
            forall|m: int| 0 <= m < es@.len() ==> (#[trigger] keys@[m])@ == es@[m].0 && vals@[m]@ == es@[m].1,
            lookup(es@, key@) == lookup(es@.take(j as int), key@),
        decreases j,
    {
        j = j - 1;
        proof {
            assert(es@.take(j + 1).drop_last() =~= es@.take(j as int));
            assert(es@.take(j + 1).last() == es@[j as int]);
            assert(keys@[j as int]@ == es@[j as int].0);
        }
        if seq_eq(&keys[j], key) {
            return Some(j);
        }
    }
    None
}

fn optional_value(keys: &Vec<Vec<char>>, vals: &Vec<Vec<char>>, key: &str, es: Ghost<Seq<(Seq<char>, Seq<char>)>>) -> (r: Option<String>)
    requires
        keys@.len() == vals@.len(),
        keys@.len() == es@.len(),
        forall|j: int| 0 <= j < es@.len() ==> (#[trigger] keys@[j])@ == es@[j].0 && vals@[j]@ == es@[j].1,
    ensures
        opt_field(r, lookup(es@, key@)),
{
    let k = chars_of(key);
    match lookup_exec(keys, vals, &k, es) {
        Some(j) => Some(string_of(&vals[j])),
        None => None,
    }
}

/// The colours of a plain `key: value` theme text (a `colors:` heading,
/// blank lines and `#` comments are skipped; for a repeated key the last
/// line wins). Fails on the first required key that has no value.
pub fn parse_theme_text(content: &str) -> (r: Result<ThemeColors, String>)
    ensures
        match missing_from(theme_entries(content@), 0) {
            Some(k) => r matches Err(e) && e@ == "missing theme key: "@ + k,
            None => r matches Ok(c) && colours_from(c, theme_entries(content@)),
        },
{
    let cs = chars_of(content);
    let lines = split_pieces(&cs, Sep::Char('\n'));
    let ghost ls = pieces(cs@, Sep::Char('\n'));
    let mut keys: Vec<Vec<char>> = Vec::new();
    let mut vals: Vec<Vec<char>> = Vec::new();
    let ghost mut es: Seq<(Seq<char>, Seq<char>)> = Seq::empty();
    let mut i: usize = 0;
    proof {
        assert(ls.take(0) =~= Seq::<Seq<char>>::empty());
    }
    while i < lines.len()
        invariant
            lines@.len() == ls.len(),
            forall|m: int| 0 <= m < lines@.len() ==> #[trigger] lines@[m]@ == ls[m],
            i <= lines@.len(),
            es == entries_of(ls.take(i as int)),
            keys@.len() == vals@.len(),
            keys@.len() == es.len(),
            forall|j: int| 0 <= j < es.len() ==> (#[trigger] keys@[j])@ == es[j].0,
            forall|j: int| 0 <= j < es.len() ==> (#[trigger] vals@[j])@ == es[j].1,
        decreases lines@.len() - i,
    {
        proof {
            assert(ls.take(i + 1).drop_last() =~= ls.take(i as int));
            assert(ls.take(i + 1).last() == ls[i as int]);
            assert(lines@[i as int]@ == ls[i as int]);
        }
        let ghost old_keys = keys;
        let ghost old_vals = vals;
        match theme_entry_exec(&lines[i]) {
            Some((k, v)) => {
                proof {
                    es = es.push((k@, v@));
                }
                keys.push(k);
                vals.push(v);
                proof {
                    assert forall|j: int| 0 <= j < es.len() implies (#[trigger] keys@[j])@ == es[j].0
                        && (vals@[j])@ == es[j].1 by {
                        if j + 1 < es.len() {
                            assert(keys@[j] == old_keys@[j]);
                            assert(vals@[j] == old_vals@[j]);
                        } else {
                            assert(keys@[j]@ == es[j].0);
                            assert(vals@[j]@ == es[j].1);
                        }
                    }
                }
            },
            None => {},
        }
        i = i + 1;
    }
    proof {
        assert(ls.take(lines@.len() as int) =~= ls);
        assert(es == theme_entries(content@));
    }
    let mut got: Vec<String> = Vec::new();
    let mut q: usize = 0;
    while q < REQUIRED_KEYS
        invariant
            es == theme_entries(content@),
            keys@.len() == vals@.len(),
            keys@.len() == es.len(),
            forall|j: int| 0 <= j < es.len() ==> (#[trigger] keys@[j])@ == es[j].0 && vals@[j]@ == es[j].1,
            q <= REQUIRED_KEYS,
            got@.len() == q,
            forall|m: int| 0 <= m < q ==> lookup(es, required_key(m)) == Some((#[trigger] got@[m])@),
            missing_from(es, 0) == missing_from(es, q as int),
        decreases REQUIRED_KEYS - q,
    {
        let name = required_key_name(q);
        let k = chars_of(name);
        match lookup_exec(&keys, &vals, &k, Ghost(es)) {
            Some(j) => {
                got.push(string_of(&vals[j]));
            },
            None => {
                return Err(concat2("missing theme key: ", name));
            },
        }
        q = q + 1;
    }
    proof {
        assert(missing_from(es, REQUIRED_KEYS as int) is None);
        reveal_strlit("base_background");
    }
    let c = ThemeColors {
        base_background: got[0].clone(),
        body_background: got[1].clone(),
        modal_background: got[2].clone(),
        text_primary: got[3].clone(),
        text_secondary: got[4].clone(),
        text_labels: got[5].clone(),
        text_labels_active: optional_value(&keys, &vals, "text_labels_active", Ghost(es)),
        text_active_focus: optional_value(&keys, &vals, "text_active_focus", Ghost(es)),
        modal_labels: got[6].clone(),
        modal_text: got[7].clone(),
        selected_background: got[8].clone(),
        border_default: got[9].clone(),
        border_active: got[10].clone(),
        input_border_default: got[11].clone(),
        input_border_focus: got[12].clone(),
        input_text_default: got[13].clone(),
        input_text_focus: got[14].clone(),
        cursor: optional_value(&keys, &vals, "cursor", Ghost(es)),
        scrollbar: optional_value(&keys, &vals, "scrollbar", Ghost(es)),
        scrollbar_hover: optional_value(&keys, &vals, "scrollbar_hover", Ghost(es)),
        success: got[15].clone(),
        warning: got[16].clone(),
        error: got[17].clone(),
        info: got[18].clone(),
        folders: optional_value(&keys, &vals, "folders", Ghost(es)),
        files: optional_value(&keys, &vals, "files", Ghost(es)),
        links: optional_value(&keys, &vals, "links", Ghost(es)),
    };
    proof {
        assert(lookup(es, required_key(0)) == Some(got@[0]@));
        assert(lookup(es, required_key(1)) == Some(got@[1]@));
        assert(lookup(es, required_key(2)) == Some(got@[2]@));
        assert(lookup(es, required_key(3)) == Some(got@[3]@));
        assert(lookup(es, required_key(4)) == Some(got@[4]@));
        assert(lookup(es, required_key(5)) == Some(got@[5]@));
        assert(lookup(es, required_key(6)) == Some(got@[6]@));
        assert(lookup(es, required_key(7)) == Some(got@[7]@));
        assert(lookup(es, required_key(8)) == Some(got@[8]@));
        assert(lookup(es, required_key(9)) == Some(got@[9]@));
        assert(lookup(es, required_key(10)) == Some(got@[10]@));
        assert(lookup(es, required_key(11)) == Some(got@[11]@));
        assert(lookup(es, required_key(12)) == Some(got@[12]@));
        assert(lookup(es, required_key(13)) == Some(got@[13]@));
        assert(lookup(es, required_key(14)) == Some(got@[14]@));
        assert(lookup(es, required_key(15)) == Some(got@[15]@));
        assert(lookup(es, required_key(16)) == Some(got@[16]@));
        assert(lookup(es, required_key(17)) == Some(got@[17]@));
        assert(lookup(es, required_key(18)) == Some(got@[18]@));
    }
    Ok(c)
}

} // verus!
