//! Parser for FTP `LIST` output: Unix `ls -l` lines are read field by field;
//! other lines keep only a best-effort name.
use vstd::prelude::*;
use crate::model::{EntryKind, EntryView, FileEntry, Timestamp, now_utc, entry_views};
use crate::text::{
    chars_of, string_of, words, split_words, join_with, join_range, trim_ws, trim_ws_exec,
    eq_ignore_ascii_case, chars_eq_ignore_ascii_case, occurs_at, occurs_at_exec, slice_range,
    trim_end_char, trim_end_char_exec, concat3, is_dot_name, is_dot_or_dotdot_chars, is_digit,
    push_char, string_views,
};

verus! {

/// Value of a run of ASCII digits.
pub open spec fn digits_value(d: Seq<char>) -> int
    decreases d.len(),
{
    if d.len() == 0 {
        0
    } else {
        digits_value(d.drop_last()) * 10 + ((d.last() as u32) - ('0' as u32))
    }
}

/// All characters are ASCII digits.
pub open spec fn all_digits(d: Seq<char>) -> bool {
    forall|i: int| 0 <= i < d.len() ==> is_digit(#[trigger] d[i])
}

/// The digits after an optional leading `+`.
pub open spec fn unsigned_digits(s: Seq<char>) -> Seq<char> {
    if s.len() > 0 && s[0] == '+' {
        s.drop_first()
    } else {
        s
    }
}

/// The value `str::parse` gives an unsigned integer no larger than `max`:
/// an optional `+`, then one or more ASCII digits.
pub open spec fn parse_unsigned(s: Seq<char>, max: int) -> Option<int> {
    let d = unsigned_digits(s);
    if d.len() > 0 && all_digits(d) && digits_value(d) <= max {
        Some(digits_value(d))
    } else {
        None
    }
}

proof fn lemma_digits_value_nonneg(d: Seq<char>)
    requires
        all_digits(d),
    ensures
        digits_value(d) >= 0,
    decreases d.len(),
{
    if d.len() > 0 {
        assert(all_digits(d.drop_last())) by {
            assert forall|i: int| 0 <= i < d.drop_last().len() implies is_digit(
                #[trigger] d.drop_last()[i],
            ) by {
                assert(d.drop_last()[i] == d[i]);
            }
        }
        lemma_digits_value_nonneg(d.drop_last());
        assert(is_digit(d[d.len() - 1]));
    }
}

/// Parses an unsigned decimal no larger than `max` (`u64`/`u32`/`u16` `FromStr`).
pub fn parse_unsigned_exec(cs: &[char], max: u64) -> (r: Option<u64>)
    ensures
        r matches Some(v) ==> parse_unsigned(cs@, max as int) == Some(v as int) && v <= max,
        r is None ==> parse_unsigned(cs@, max as int) is None,
{
    let start: usize = if cs.len() > 0 && cs[0] == '+' {
        1
    } else {
        0
    };
    let ghost d = unsigned_digits(cs@);
    proof {
        assert(d =~= cs@.subrange(start as int, cs@.len() as int));
    }
    if start >= cs.len() {
        return None;
    }
    let mut v: u64 = 0;
    let mut i = start;
    let mut overflow = false;
    proof {
        assert(cs@.subrange(start as int, start as int) =~= Seq::<char>::empty());
    }
    while i < cs.len()
        invariant
            start <= i <= cs@.len(),
            start < cs@.len(),
            d == unsigned_digits(cs@),
            d == cs@.subrange(start as int, cs@.len() as int),
            all_digits(cs@.subrange(start as int, i as int)),
            !overflow ==> v as int == digits_value(cs@.subrange(start as int, i as int)) && v
                <= max,
            overflow ==> digits_value(cs@.subrange(start as int, i as int)) > max,
        decreases cs@.len() - i,
    {
        let c = cs[i];
        let ghost pre = cs@.subrange(start as int, i as int);
        let ghost nxt = cs@.subrange(start as int, i + 1);
        proof {
            assert(nxt.drop_last() =~= pre);
            assert(nxt.last() == c);
        }
        if !('0' <= c && c <= '9') {
            proof {
                assert(d[i - start] == c);
                assert(!is_digit(d[i - start]));
                assert(!all_digits(d));
                assert(parse_unsigned(cs@, max as int) is None);
            }
            return None;
        }
        proof {
            assert(all_digits(nxt)) by {
                assert forall|k: int| 0 <= k < nxt.len() implies is_digit(#[trigger] nxt[k]) by {
                    if k < nxt.len() - 1 {
                        assert(nxt[k] == pre[k]);
                    }
                }
            }
            lemma_digits_value_nonneg(pre);
        }
        let digit = (c as u32 - '0' as u32) as u64;
        proof {
            assert(digits_value(nxt) == digits_value(pre) * 10 + digit);
        }
        if !overflow {
            let nv: u128 = v as u128 * 10 + digit as u128;
            if nv > max as u128 {
                overflow = true;
            } else {
                v = nv as u64;
            }
        }
        i = i + 1;
    }
    proof {
        assert(cs@.subrange(start as int, i as int) == d);
    }
    if overflow {
        None
    } else {
        Some(v)
    }
}

/// First position at or after `i` where `p` occurs in `s`.
pub open spec fn find_from(s: Seq<char>, p: Seq<char>, i: int) -> Option<int>
    decreases s.len() + 1 - i,
{
    if i < 0 || i > s.len() {
        None
    } else if occurs_at(s, p, i) {
        Some(i)
    } else {
        find_from(s, p, i + 1)
    }
}

/// First position where `p` occurs in `cs`.
pub fn find_exec(cs: &[char], p: &[char]) -> (r: Option<usize>)
    ensures
        match r {
            Some(i) => find_from(cs@, p@, 0) == Some(i as int),
            None => find_from(cs@, p@, 0) is None,
        },
{
    let mut i: usize = 0;
    while i < cs.len()
        invariant
            i <= cs@.len(),
            find_from(cs@, p@, 0) == find_from(cs@, p@, i as int),
        decreases cs@.len() - i,
    {
        if occurs_at_exec(cs, p, i) {
            return Some(i);
        }
        i = i + 1;
    }
    if occurs_at_exec(cs, p, cs.len()) {
        return Some(cs.len());
    }
    assert(find_from(cs@, p@, cs@.len() as int + 1) is None);
    None
}

/// The text before the first ` -> ` when that text is not empty; else the whole name.
pub open spec fn before_arrow(name: Seq<char>) -> Seq<char> {
    match find_from(name, seq![' ', '-', '>', ' '], 0) {
        Some(i) => if i > 0 {
            name.subrange(0, i)
        } else {
            name
        },
        None => name,
    }
}

/// Executable form of [`before_arrow`].
fn strip_link_target(name: Vec<char>) -> (r: Vec<char>)
    ensures
        r@ == before_arrow(name@),
{
    let arrow: Vec<char> = vec![' ', '-', '>', ' '];
    proof {
        assert(arrow@ =~= seq![' ', '-', '>', ' ']);
    }
    let found = find_exec(&name, &arrow);
    proof {
        lemma_find_bounds(name@, arrow@, 0);
        assert(find_from(name@, arrow@, 0) == find_from(name@, seq![' ', '-', '>', ' '], 0));
    }
    match found {
        Some(i) => {
            if i > 0 {
                let r = slice_range(&name, 0, i);
                assert(find_from(name@, arrow@, 0) == Some(i as int));
                assert(r@ == name@.subrange(0, i as int));
                r
            } else {
                name
            }
        },
        None => name,
    }
}

proof fn lemma_find_bounds(s: Seq<char>, p: Seq<char>, i: int)
    ensures
        match find_from(s, p, i) {
            Some(k) => i <= k <= s.len() && k + p.len() <= s.len(),
            None => true,
        },
    decreases s.len() + 1 - i,
{
    if 0 <= i <= s.len() && !occurs_at(s, p, i) {
        lemma_find_bounds(s, p, i + 1);
    }
}

/// The best-effort name of a listing line: the words from the ninth (or the
/// eighth) on, joined by single spaces, or the whole line when it has fewer
/// words; a symlink target after ` -> ` is dropped.
pub open spec fn filename_of_line(line: Seq<char>) -> Seq<char> {
    let parts = words(line);
    let name = if parts.len() >= 9 {
        join_with(parts.subrange(8, parts.len() as int), seq![' '])
    } else if parts.len() >= 8 {
        join_with(parts.subrange(7, parts.len() as int), seq![' '])
    } else {
        line
    };
    before_arrow(name)
}

/// The words of `parts[from..]` joined by single spaces.
fn join_words_from(parts: &Vec<Vec<char>>, from: usize) -> (r: Vec<char>)
    requires
        from <= parts@.len(),
    ensures
        r@ == join_with(parts@.subrange(from as int, parts@.len() as int).map_values(|p: Vec<char>| p@), seq![' ']),
{
    let sp: Vec<char> = vec![' '];
    proof {
        assert(sp@ =~= seq![' ']);
    }
    join_range(parts, from, &sp)
}

/// The views of a list of character vectors.
pub open spec fn views_of(v: Seq<Vec<char>>) -> Seq<Seq<char>> {
    v.map_values(|p: Vec<char>| p@)
}

/// Best-effort file name of a listing line.
pub fn extract_filename_from_list_line(line: &str) -> (r: String)
    ensures
        r@ == filename_of_line(line@),
{
    let cs = chars_of(line);
    let parts = split_words(&cs);
    let ghost w = words(line@);
    proof {
        assert(views_of(parts@) =~= w);
    }
    let name = if parts.len() >= 9 {
        let n = join_words_from(&parts, 8);
        proof {
            assert(parts@.subrange(8, parts@.len() as int).map_values(|p: Vec<char>| p@) =~= w.subrange(8, w.len() as int));
        }
        n
    } else if parts.len() >= 8 {
        let n = join_words_from(&parts, 7);
        proof {
            assert(parts@.subrange(7, parts@.len() as int).map_values(|p: Vec<char>| p@) =~= w.subrange(7, w.len() as int));
        }
        n
    } else {
        cs
    };
    string_of(&strip_link_target(name))
}

/// Remote `name` under listing directory `base`.
pub open spec fn ftp_path(base: Seq<char>, name: Seq<char>) -> Seq<char> {
    let b = if base.len() == 0 {
        seq!['/']
    } else {
        base
    };
    if b == seq!['/'] {
        seq!['/'] + name
    } else {
        trim_end_char(b, '/') + seq!['/'] + name
    }
}

/// Joins a listed `name` onto the listed directory `base`.
pub fn join_ftp_path(base: &str, name: &str) -> (r: String)
    ensures
        r@ == ftp_path(base@, name@),
{
    proof {
        reveal_strlit("/");
        reveal_strlit("");
        assert("/"@ =~= seq!['/']);
        assert(""@ =~= Seq::<char>::empty());
    }
    let bc0 = chars_of(base);
    let bc: Vec<char> = if bc0.len() == 0 {
        vec!['/']
    } else {
        bc0
    };
    if bc.len() == 1 && bc[0] == '/' {
        proof {
            assert(bc@ =~= seq!['/']);
        }
        concat3("", "/", name)
    } else {
        proof {
            assert(bc@ != seq!['/']) by {
                if bc@ == seq!['/'] {
                    assert(bc@.len() == 1 && bc@[0] == '/');
                }
            }
        }
        let t = trim_end_char_exec(&bc, '/');
        let ts = string_of(&t);
        concat3(ts.as_str(), "/", name)
    }
}

/// Number of bytes the UTF-8 encoding of `c` takes.
pub open spec fn utf8_width(c: char) -> nat {
    let u = c as u32;
    if u < 0x80 {
        1
    } else if u < 0x800 {
        2
    } else if u < 0x10000 {
        3
    } else {
        4
    }
}

/// Length in bytes of the UTF-8 encoding of `s` (`str::len`).
pub open spec fn utf8_len(s: Seq<char>) -> nat
    decreases s.len(),
{
    if s.len() == 0 {
        0
    } else {
        utf8_len(s.drop_last()) + utf8_width(s.last())
    }
}

/// The type letters an `ls -l` mode field may start with.
pub open spec fn perm_type_char(c: char) -> bool {
    c == 'd' || c == '-' || c == 'l' || c == 'b' || c == 'c' || c == 'p' || c == 's'
}

/// At least ten bytes of UTF-8, starting with one of `d - l b c p s`.
pub open spec fn unix_perm(s: Seq<char>) -> bool {
    utf8_len(s) >= 10 && s.len() > 0 && perm_type_char(s[0])
}

/// `utf8_len(s) >= 10`, computed without overflow.
fn utf8_len_at_least_ten(cs: &[char]) -> (r: bool)
    ensures
        r == (utf8_len(cs@) >= 10),
{
    let mut n: usize = 0;
    let mut i: usize = 0;
    proof {
        assert(cs@.take(0) =~= Seq::<char>::empty());
    }
    while i < cs.len()
        invariant
            i <= cs@.len(),
            n == utf8_len(cs@.take(i as int)),
            n < 10,
        decreases cs@.len() - i,
    {
        let u = cs[i] as u32;
        let w: usize = if u < 0x80 {
            1
        } else if u < 0x800 {
            2
        } else if u < 0x10000 {
            3
        } else {
            4
        };
        proof {
            assert(cs@.take(i + 1).drop_last() =~= cs@.take(i as int));
        }
        n = n + w;
        i = i + 1;
        if n >= 10 {
            proof {
                lemma_utf8_len_prefix(cs@, i as int);
            }
            return true;
        }
    }
    proof {
        assert(cs@.take(cs@.len() as int) =~= cs@);
    }
    false
}

proof fn lemma_utf8_len_prefix(s: Seq<char>, i: int)
    requires
        0 <= i <= s.len(),
    ensures
        utf8_len(s.take(i)) <= utf8_len(s),
    decreases s.len() - i,
{
    if i < s.len() {
        lemma_utf8_len_prefix(s, i + 1);
        assert(s.take(i + 1).drop_last() =~= s.take(i));
    } else {
        assert(s.take(i) =~= s);
    }
}

/// Executable form of [`unix_perm`] on characters.
fn unix_perm_chars(cs: &[char]) -> (r: bool)
    ensures
        r == unix_perm(cs@),
{
    cs.len() > 0 && (cs[0] == 'd' || cs[0] == '-' || cs[0] == 'l' || cs[0] == 'b' || cs[0] == 'c'
        || cs[0] == 'p' || cs[0] == 's') && utf8_len_at_least_ten(cs)
}

/// Whether `s` looks like a Unix permission field such as `drwxr-xr-x`: at
/// least ten bytes, the first a file-type letter.
pub fn is_unix_perm(s: &str) -> (r: bool)
    ensures
        r == unix_perm(s@),
{
    let cs = chars_of(s);
    unix_perm_chars(&cs)
}

/// Octal digits of `n`, most significant first (`format!("{:o}")`).
pub open spec fn octal(n: nat) -> Seq<char>
    decreases n,
{
    if n < 8 {
        seq![(('0' as u32) + n) as char]
    } else {
        octal(n / 8).push((('0' as u32) + (n % 8)) as char)
    }
}

fn octal_digit(d: u32) -> (r: char)
    requires
        d < 8,
    ensures
        r == (('0' as u32) + d) as char,
{
    let b = (48 + d) as u8;
    b as char
}

/// Octal text of `n`.
pub fn u32_to_octal(n: u32) -> (r: String)
    ensures
        r@ == octal(n as nat),
    decreases n,
{
    if n < 8 {
        let mut s = String::new();
        push_char(&mut s, octal_digit(n));
        assert(s@ =~= seq![(('0' as u32) + n) as char]);
        s
    } else {
        let mut s = u32_to_octal(n / 8);
        push_char(&mut s, octal_digit(n % 8));
        s
    }
}

/// Bits of one `rwx` triad: `unit` times 4, 2 and 1 for `r`, `w` and `x`;
/// the execute slot may instead hold `set` (execute plus `special`) or
/// `set_only` (`special` alone).
#[verifier::opaque]
pub open spec fn triad_bits(r: char, w: char, x: char, unit: nat, set: char, set_only: char, special: nat) -> nat {
    (if r == 'r' { 4 * unit } else { 0 }) + (if w == 'w' { 2 * unit } else { 0 }) + (if x == 'x' {
        unit
    } else if x == set {
        special + unit
    } else if x == set_only {
        special
    } else {
        0
    })
}

/// Permission bits of a 10-character `ls -l` mode field: owner, group and
/// other triads, with set-user-id, set-group-id and sticky bits.
pub open spec fn mode_bits(c: Seq<char>) -> nat {
    triad_bits(c[1], c[2], c[3], 0o100, 's', 'S', 0o4000) + triad_bits(c[4], c[5], c[6], 0o010, 's', 'S', 0o2000)
        + triad_bits(c[7], c[8], c[9], 0o001, 't', 'T', 0o1000)
}

/// Executable form of [`triad_bits`].
fn triad_exec(r: char, w: char, x: char, unit: u32, set: char, set_only: char, special: u32) -> (b: u32)
    requires
        unit <= 0o100,
        special <= 0o4000,
    ensures
        b == triad_bits(r, w, x, unit as nat, set, set_only, special as nat),
        b <= 7 * unit + special,
{
    reveal(triad_bits);
    let mut b: u32 = 0;
    if r == 'r' {
        b = b + 4 * unit;
    }
    if w == 'w' {
        b = b + 2 * unit;
    }
    if x == 'x' {
        b = b + unit;
    } else if x == set {
        b = b + special + unit;
    } else if x == set_only {
        b = b + special;
    }
    b
}

/// Octal mode text of an `ls -l` mode field, when it has at least ten characters.
pub open spec fn mode_octal(c: Seq<char>) -> Option<Seq<char>> {
    if c.len() < 10 {
        None
    } else {
        Some(octal(mode_bits(c)))
    }
}

/// Octal permission string of a Unix mode field such as `rwxr-xr-x` with its type char.
pub fn unix_mode_octal(perm: &str) -> (r: Option<String>)
    ensures
        match mode_octal(perm@) {
            Some(m) => r matches Some(s) && s@ == m,
            None => r.is_none(),
        },
{
    let c = chars_of(perm);
    mode_octal_chars(&c)
}

/// Executable form of [`mode_octal`] on characters.
fn mode_octal_chars(c: &[char]) -> (r: Option<String>)
    ensures
        match mode_octal(c@) {
            Some(m) => r matches Some(s) && s@ == m,
            None => r.is_none(),
        },
{
    if c.len() < 10 {
        return None;
    }
    let owner = triad_exec(c[1], c[2], c[3], 0o100, 's', 'S', 0o4000);
    let group = triad_exec(c[4], c[5], c[6], 0o010, 's', 'S', 0o2000);
    let other = triad_exec(c[7], c[8], c[9], 0o001, 't', 'T', 0o1000);
    let mode = owner + group + other;
    assert(mode == mode_bits(c@));
    Some(u32_to_octal(mode))
}

/// Seconds since the epoch of the UTC civil time `year-month-day hour:minute:00`,
/// as `chrono::NaiveDate::from_ymd_opt(..).and_hms_opt(..)` computes it, or
/// `None` when chrono rejects the date or time.
pub uninterp spec fn civil_timestamp(year: i32, month: u32, day: u32, hour: u32, minute: u32) -> Option<i64>;

/// The UTC calendar year of the instant `secs` seconds after the epoch, as
/// `chrono::DateTime::<Utc>::from_timestamp(secs, 0)` and `Datelike::year`
/// give it; `None` where chrono cannot represent the instant.
pub uninterp spec fn utc_year(secs: i64) -> Option<i32>;

/// `chrono::NaiveDate::from_ymd_opt(year, month, day)?.and_hms_opt(hour, minute, 0)`
/// taken as UTC: its timestamp, or `None` for an invalid date or time. The
/// contract names the result; the calendar rules are chrono's.
#[verifier::external_body]
fn utc_civil(year: i32, month: u32, day: u32, hour: u32, minute: u32) -> (r: Option<i64>)
    ensures
        r == civil_timestamp(year, month, day, hour, minute),
{
    let naive = chrono::NaiveDate::from_ymd_opt(year, month, day)?.and_hms_opt(hour, minute, 0)?;
    Some(chrono::DateTime::<chrono::Utc>::from_naive_utc_and_offset(naive, chrono::Utc).timestamp())
}

/// `chrono::DateTime::<Utc>::from_timestamp(secs, 0)` and `Datelike::year`:
/// the calendar year of that instant, `None` where chrono refuses the instant.
/// The contract names the result and states chrono's year range
/// (`MIN_YEAR..=MAX_YEAR`, that is `-262143..=262142`).
#[verifier::external_body]
fn utc_year_of(secs: i64) -> (r: Option<i32>)
    ensures
        r == utc_year(secs),
        r matches Some(y) ==> -262143 <= y <= 262142,
{
    let dt = chrono::DateTime::<chrono::Utc>::from_timestamp(secs, 0)?;
    Some(chrono::Datelike::year(&dt))
}

/// 1-based month number of an English three-letter abbreviation, ignoring ASCII case.
pub open spec fn month_number(m: Seq<char>) -> Option<u32> {
    if eq_ignore_ascii_case(m, seq!['J', 'a', 'n']) {
        Some(1)
    } else if eq_ignore_ascii_case(m, seq!['F', 'e', 'b']) {
        Some(2)
    } else if eq_ignore_ascii_case(m, seq!['M', 'a', 'r']) {
        Some(3)
    } else if eq_ignore_ascii_case(m, seq!['A', 'p', 'r']) {
        Some(4)
    } else if eq_ignore_ascii_case(m, seq!['M', 'a', 'y']) {
        Some(5)
    } else if eq_ignore_ascii_case(m, seq!['J', 'u', 'n']) {
        Some(6)
    } else if eq_ignore_ascii_case(m, seq!['J', 'u', 'l']) {
        Some(7)
    } else if eq_ignore_ascii_case(m, seq!['A', 'u', 'g']) {
        Some(8)
    } else if eq_ignore_ascii_case(m, seq!['S', 'e', 'p']) {
        Some(9)
    } else if eq_ignore_ascii_case(m, seq!['O', 'c', 't']) {
        Some(10)
    } else if eq_ignore_ascii_case(m, seq!['N', 'o', 'v']) {
        Some(11)
    } else if eq_ignore_ascii_case(m, seq!['D', 'e', 'c']) {
        Some(12)
    } else {
        None
    }
}

/// `m` equals the three letters `a b c`, ignoring ASCII case.
fn is_month(m: &[char], a: char, b: char, c: char) -> (r: bool)
    ensures
        r == eq_ignore_ascii_case(m@, seq![a, b, c]),
{
    let name: [char; 3] = [a, b, c];
    proof {
        assert(name@ =~= seq![a, b, c]);
    }
    chars_eq_ignore_ascii_case(m, &name)
}

fn month_number_exec(m: &[char]) -> (r: Option<u32>)
    ensures
        r == month_number(m@),
{
    if is_month(m, 'J', 'a', 'n') {
        Some(1)
    } else if is_month(m, 'F', 'e', 'b') {
        Some(2)
    } else if is_month(m, 'M', 'a', 'r') {
        Some(3)
    } else if is_month(m, 'A', 'p', 'r') {
        Some(4)
    } else if is_month(m, 'M', 'a', 'y') {
        Some(5)
    } else if is_month(m, 'J', 'u', 'n') {
        Some(6)
    } else if is_month(m, 'J', 'u', 'l') {
        Some(7)
    } else if is_month(m, 'A', 'u', 'g') {
        Some(8)
    } else if is_month(m, 'S', 'e', 'p') {
        Some(9)
    } else if is_month(m, 'O', 'c', 't') {
        Some(10)
    } else if is_month(m, 'N', 'o', 'v') {
        Some(11)
    } else if is_month(m, 'D', 'e', 'c') {
        Some(12)
    } else {
        None
    }
}

/// Value `i32::from_str` gives: an optional sign, then one or more ASCII
/// digits, within range.
pub open spec fn parse_i32(s: Seq<char>) -> Option<int> {
    if s.len() > 0 && s[0] == '-' {
        let d = s.drop_first();
        if d.len() > 0 && all_digits(d) && digits_value(d) <= 0x8000_0000 {
            Some(-digits_value(d))
        } else {
            None
        }
    } else {
        parse_unsigned(s, 0x7fff_ffff)
    }
}

/// Executable form of [`parse_i32`].
pub fn parse_i32_exec(cs: &[char]) -> (r: Option<i32>)
    ensures
        r matches Some(v) ==> parse_i32(cs@) == Some(v as int),
        r is None ==> parse_i32(cs@) is None,
{
    if cs.len() > 0 && cs[0] == '-' {
        let rest = slice_range(cs, 1, cs.len());
        proof {
            assert(rest@ =~= cs@.drop_first());
        }
        if rest.len() > 0 && rest[0] == '+' {
            proof {
                assert(!is_digit(rest@[0]));
            }
            return None;
        }
        proof {
            assert(unsigned_digits(rest@) == rest@);
        }
        match parse_unsigned_exec(&rest, 0x8000_0000) {
            Some(v) => {
                assert(v <= 0x8000_0000);
                let w: i64 = v as i64;
                let n: i64 = -w;
                Some(n as i32)
            },
            None => None,
        }
    } else {
        match parse_unsigned_exec(cs, 0x7fff_ffff) {
            Some(v) => Some(v as i32),
            None => None,
        }
    }
}

/// Whether the first two words of `line` are `total` (any ASCII case) and a `u64`.
pub open spec fn total_header(line: Seq<char>) -> bool {
    let w = words(line);
    w.len() >= 2 && eq_ignore_ascii_case(w[0], seq!['t', 'o', 't', 'a', 'l']) && parse_unsigned(
        w[1],
        0xffff_ffff_ffff_ffff,
    ) is Some
}

fn total_header_chars(cs: &[char]) -> (r: bool)
    ensures
        r == total_header(cs@),
{
    let w = split_words(cs);
    if w.len() < 2 {
        return false;
    }
    let total: [char; 5] = ['t', 'o', 't', 'a', 'l'];
    proof {
        assert(total@ =~= seq!['t', 'o', 't', 'a', 'l']);
    }
    chars_eq_ignore_ascii_case(&w[0], &total) && parse_unsigned_exec(&w[1], 0xffff_ffff_ffff_ffff).is_some()
}

/// Whether `line` is a `total N` header of an `ls -l` listing.
pub fn is_total_header(line: &str) -> (r: bool)
    ensures
        r == total_header(line@),
{
    let cs = chars_of(line);
    total_header_chars(&cs)
}

/// The part of `s` before the first `c`, and the part after it.
pub open spec fn split_once(s: Seq<char>, c: char) -> Option<(Seq<char>, Seq<char>)> {
    match find_from(s, seq![c], 0) {
        Some(k) => Some((s.subrange(0, k), s.subrange(k + 1, s.len() as int))),
        None => None,
    }
}

/// Executable form of [`split_once`].
pub(crate) fn split_once_exec(cs: &[char], c: char) -> (r: Option<(Vec<char>, Vec<char>)>)
    ensures
        match split_once(cs@, c) {
            Some((a, b)) => r matches Some((x, y)) && x@ == a && y@ == b,
            None => r.is_none(),
        },
{
    let pat: Vec<char> = vec![c];
    proof {
        assert(pat@ =~= seq![c]);
    }
    let n = cs.len();
    match find_exec(cs, &pat) {
        Some(k) => {
            proof {
                lemma_find_bounds(cs@, pat@, 0);
                assert(find_from(cs@, pat@, 0) == Some(k as int));
                assert(k + 1 <= cs@.len());
            }
            let a = slice_range(cs, 0, k);
            let b = slice_range(cs, k + 1, n);
            Some((a, b))
        },
        None => None,
    }
}

/// The instant `year-month-day hour:minute` UTC, whole seconds.
pub open spec fn civil_instant(year: i32, month: u32, day: u32, hour: u32, minute: u32) -> Option<Timestamp> {
    match civil_timestamp(year, month, day, hour, minute) {
        Some(t) => Some(Timestamp { secs: t, nanos: 0 }),
        None => None,
    }
}

/// The modification time of an `ls -l` date (`Jan  2 12:00` or `Jan  2  2025`).
/// A time of day without a year is taken in the current year (the year of
/// `now`), or in the year before when that would lie after `now`.
pub open spec fn ls_date(month: Seq<char>, day: Seq<char>, yot: Seq<char>, now: Timestamp) -> Option<Timestamp> {
    match month_number(month) {
        None => None,
        Some(mn) => match parse_unsigned(day, 0xffff_ffff) {
            None => None,
            Some(d) => match split_once(yot, ':') {
                Some((h, rest)) => {
                    let mtext = match split_once(rest, ':') {
                        Some((m, _)) => m,
                        None => rest,
                    };
                    match (parse_unsigned(h, 0xffff_ffff), parse_unsigned(mtext, 0xffff_ffff)) {
                        (Some(hh), Some(mm)) => match utc_year(now.secs) {
                            None => None,
                            Some(y) => match civil_instant(y, mn, d as u32, hh as u32, mm as u32) {
                                None => None,
                                Some(t) => if t.secs > now.secs {
                                    civil_instant((y - 1) as i32, mn, d as u32, hh as u32, mm as u32)
                                } else {
                                    Some(t)
                                },
                            },
                        },
                        _ => None,
                    }
                },
                None => match parse_i32(yot) {
                    Some(y) => civil_instant(y as i32, mn, d as u32, 0, 0),
                    None => None,
                },
            },
        },
    }
}

fn civil_instant_exec(year: i32, month: u32, day: u32, hour: u32, minute: u32) -> (r: Option<Timestamp>)
    ensures
        r == civil_instant(year, month, day, hour, minute),
{
    match utc_civil(year, month, day, hour, minute) {
        Some(t) => Some(Timestamp { secs: t, nanos: 0 }),
        None => None,
    }
}

fn ls_date_chars(month: &[char], day: &[char], yot: &[char], now: Timestamp) -> (r: Option<Timestamp>)
    ensures
        r == ls_date(month@, day@, yot@, now),
{
    let mn = match month_number_exec(month) {
        Some(m) => m,
        None => return None,
    };
    let d = match parse_unsigned_exec(day, 0xffff_ffff) {
        Some(v) => v as u32,
        None => return None,
    };
    match split_once_exec(yot, ':') {
        Some((h, rest)) => {
            let mtext = match split_once_exec(&rest, ':') {
                Some((m, _)) => m,
                None => rest,
            };
            let hh = match parse_unsigned_exec(&h, 0xffff_ffff) {
                Some(v) => v as u32,
                None => return None,
            };
            let mm = match parse_unsigned_exec(&mtext, 0xffff_ffff) {
                Some(v) => v as u32,
                None => return None,
            };
            let y = match utc_year_of(now.secs) {
                Some(y) => y,
                None => return None,
            };
            match civil_instant_exec(y, mn, d, hh, mm) {
                None => None,
                Some(t) => {
                    if t.secs > now.secs {
                        civil_instant_exec(y - 1, mn, d, hh, mm)
                    } else {
                        Some(t)
                    }
                },
            }
        },
        None => match parse_i32_exec(yot) {
            Some(y) => civil_instant_exec(y, mn, d, 0, 0),
            None => None,
        },
    }
}

/// Modification time of the `ls -l` date fields `month`, `day` and
/// `year_or_time`, with `now` as the current time.
pub fn parse_ls_date(month: &str, day: &str, year_or_time: &str, now: Timestamp) -> (r: Option<Timestamp>)
    ensures
        r == ls_date(month@, day@, year_or_time@, now),
{
    let m = chars_of(month);
    let d = chars_of(day);
    let y = chars_of(year_or_time);
    ls_date_chars(&m, &d, &y, now)
}

/// Entry kind from the first character of a mode field or listing line.
pub open spec fn kind_of(s: Seq<char>) -> EntryKind {
    if s.len() > 0 && s[0] == 'd' {
        EntryKind::Directory
    } else if s.len() > 0 && s[0] == 'l' {
        EntryKind::Symlink
    } else {
        EntryKind::File
    }
}

fn kind_of_exec(s: &[char]) -> (r: EntryKind)
    ensures
        r == kind_of(s@),
{
    if s.len() > 0 && s[0] == 'd' {
        EntryKind::Directory
    } else if s.len() > 0 && s[0] == 'l' {
        EntryKind::Symlink
    } else {
        EntryKind::File
    }
}

/// The entry an `ls -l` line describes: mode, links, owner, group, size,
/// month, day, year or time, then the name (a symlink's target dropped).
/// `None` when the line has fewer than nine words, does not start with a mode
/// field, or its size is not a number.
pub open spec fn unix_entry(base: Seq<char>, line: Seq<char>, now: Timestamp) -> Option<EntryView> {
    let parts = words(line);
    if parts.len() < 9 || !unix_perm(parts[0]) {
        None
    } else {
        match parse_unsigned(parts[4], 0xffff_ffff_ffff_ffff) {
            None => None,
            Some(size) => {
                let name = before_arrow(join_with(parts.subrange(8, parts.len() as int), seq![' ']));
                if name.len() == 0 {
                    None
                } else {
                    Some(
                        EntryView {
                            name: name,
                            path: ftp_path(base, name),
                            kind: kind_of(parts[0]),
                            size: size as u64,
                            modified: ls_date(parts[5], parts[6], parts[7], now),
                            permissions: mode_octal(parts[0]),
                        },
                    )
                }
            },
        }
    }
}

/// The name-only entry of a line in no known format.
pub open spec fn unparsed_entry(base: Seq<char>, line: Seq<char>) -> EntryView {
    let name = filename_of_line(line);
    EntryView {
        name: name,
        path: ftp_path(base, name),
        kind: kind_of(line),
        size: 0,
        modified: None,
        permissions: None,
    }
}

/// The entry of one raw listing line: `None` for a blank line, a `total`
/// header, `.` and `..`.
pub open spec fn list_line(base: Seq<char>, line: Seq<char>, now: Timestamp) -> Option<EntryView> {
    let t = trim_ws(line);
    if t.len() == 0 || total_header(t) {
        None
    } else {
        let e = match unix_entry(base, t, now) {
            Some(e) => e,
            None => unparsed_entry(base, t),
        };
        if is_dot_name(e.name) {
            None
        } else {
            Some(e)
        }
    }
}

/// The entries of a whole listing, in line order.
pub open spec fn list_entries(base: Seq<char>, lines: Seq<Seq<char>>, now: Timestamp) -> Seq<EntryView>
    decreases lines.len(),
{
    if lines.len() == 0 {
        Seq::empty()
    } else {
        let prev = list_entries(base, lines.drop_last(), now);
        match list_line(base, lines.last(), now) {
            Some(e) => prev.push(e),
            None => prev,
        }
    }
}

/// Parses one `ls -l` line, with `now` as the current time.
pub fn parse_unix_list_line(base_path: &str, line: &str, now: Timestamp) -> (r: Option<FileEntry>)
    ensures
        match unix_entry(base_path@, line@, now) {
            Some(e) => r matches Some(x) && x@ == e,
            None => r.is_none(),
        },
{
    let cs = chars_of(line);
    let parts = split_words(&cs);
    let ghost w = words(line@);
    proof {
        assert(views_of(parts@) =~= w);
    }
    if parts.len() < 9 || !unix_perm_chars(&parts[0]) {
        return None;
    }
    let size = match parse_unsigned_exec(&parts[4], 0xffff_ffff_ffff_ffff) {
        Some(v) => v,
        None => return None,
    };
    let modified = ls_date_chars(&parts[5], &parts[6], &parts[7], now);
    let joined = join_words_from(&parts, 8);
    proof {
        assert(parts@.subrange(8, parts@.len() as int).map_values(|p: Vec<char>| p@) =~= w.subrange(8, w.len() as int));
    }
    let name = strip_link_target(joined);
    if name.len() == 0 {
        return None;
    }
    let name_s = string_of(&name);
    let path = join_ftp_path(base_path, name_s.as_str());
    let kind = kind_of_exec(&parts[0]);
    let permissions = mode_octal_chars(&parts[0]);
    Some(FileEntry { name: name_s, path, kind, size, modified, permissions })
}

/// The name-only entry of a line in no known format.
pub fn parse_unparsed_list_line(base_path: &str, line: &str) -> (r: FileEntry)
    ensures
        r@ == unparsed_entry(base_path@, line@),
{
    let name = extract_filename_from_list_line(line);
    let path = join_ftp_path(base_path, name.as_str());
    let cs = chars_of(line);
    let kind = kind_of_exec(&cs);
    FileEntry { name, path, kind, size: 0, modified: None, permissions: None }
}

/// The entry of one raw listing line, with `now` as the current time.
pub fn parse_list_line(base_path: &str, line: &str, now: Timestamp) -> (r: Option<FileEntry>)
    ensures
        match list_line(base_path@, line@, now) {
            Some(e) => r matches Some(x) && x@ == e,
            None => r.is_none(),
        },
{
    let cs = chars_of(line);
    let t = trim_ws_exec(&cs);
    if t.len() == 0 || total_header_chars(&t) {
        return None;
    }
    let ts = string_of(&t);
    let entry = match parse_unix_list_line(base_path, ts.as_str(), now) {
        Some(e) => e,
        None => parse_unparsed_list_line(base_path, ts.as_str()),
    };
    let name = chars_of(entry.name.as_str());
    if is_dot_or_dotdot_chars(&name) {
        return None;
    }
    Some(entry)
}

/// The entries of a listing of `base_path`, with `now` as the current time.
pub fn parse_list_entries_at(base_path: &str, lines: &Vec<String>, now: Timestamp) -> (r: Vec<FileEntry>)
    ensures
        entry_views(r@) == list_entries(base_path@, string_views(lines@), now),
{
    let ghost ls = string_views(lines@);
    let mut out: Vec<FileEntry> = Vec::new();
    let mut i: usize = 0;
    proof {
        assert(ls.take(0) =~= Seq::<Seq<char>>::empty());
    }
    while i < lines.len()
        invariant
            i <= lines@.len(),
            ls == string_views(lines@),
            entry_views(out@) == list_entries(base_path@, ls.take(i as int), now),
        decreases lines@.len() - i,
    {
        proof {
            assert(ls.take(i + 1).drop_last() =~= ls.take(i as int));
            assert(ls.take(i + 1).last() == lines@[i as int]@);
        }
        match parse_list_line(base_path, lines[i].as_str(), now) {
            Some(e) => {
                let ghost before = out@;
                out.push(e);
                proof {
                    assert(entry_views(out@) =~= entry_views(before).push(e@));
                }
            },
            None => {},
        }
        i = i + 1;
    }
    proof {
        assert(ls.take(lines@.len() as int) =~= ls);
    }
    out
}

/// The entries of a listing of `base_path`; undated times of day are placed
/// by the current clock.
pub fn parse_list_entries(base_path: &str, lines: Vec<String>) -> (r: Vec<FileEntry>)
    ensures
        exists|now: Timestamp|
            entry_views(r@) == #[trigger] list_entries(base_path@, string_views(lines@), now),
{
    let now = now_utc();
    parse_list_entries_at(base_path, &lines, now)
}

/// Bit `p` (a power of two) of `low + p * b + 2 * p * high`, where `low`
/// is below `p`, is `b`.
proof fn lemma_bit_of(low: int, b: int, high: int, p: int)
    requires
        0 <= low < p,
        b == 0 || b == 1,
        high >= 0,
    ensures
        ((low + p * b + 2 * p * high) / p) % 2 == b,
{
    let x = low + p * b + 2 * p * high;
    assert(x == (b + 2 * high) * p + low) by (nonlinear_arith)
        requires
            x == low + p * b + 2 * p * high,
    ;
    vstd::arithmetic::div_mod::lemma_fundamental_div_mod_converse(x, p, b + 2 * high, low);
}

/// 1 when `c` holds, else 0.
#[verifier::opaque]
pub open spec fn bit(c: bool) -> int {
    if c {
        1
    } else {
        0
    }
}

/// A triad's bits, one term per slot.
proof fn lemma_triad(r: char, w: char, x: char, unit: nat, set: char, set_only: char, special: nat)
    requires
        set != 'x' && set_only != 'x' && set != set_only,
    ensures
        triad_bits(r, w, x, unit, set, set_only, special) == 4 * unit * bit(r == 'r') + 2 * unit * bit(w == 'w')
            + unit * bit(x == 'x' || x == set) + special * bit(x == set || x == set_only),
{
    reveal(bit);
    reveal(triad_bits);
}

/// A bit is 0 or 1.
proof fn lemma_bit_range(c: bool)
    ensures
        0 <= bit(c) <= 1,
{
    reveal(bit);
}

/// Each slot of an `ls -l` mode field sets its own permission bit, and
/// nothing else does: read, write and execute for owner, group and others
/// (`r`, `w`, and `x` or the special letter), and the set-user-id,
/// set-group-id and sticky bits (lower- or upper-case `s`, `s`, `t`).
pub proof fn law_mode_slots_set_their_bits(c: Seq<char>)
    requires
        c.len() >= 10,
    ensures
        (mode_bits(c) / 0o400) % 2 == bit(c[1] == 'r'),
        (mode_bits(c) / 0o200) % 2 == bit(c[2] == 'w'),
        (mode_bits(c) / 0o100) % 2 == bit(c[3] == 'x' || c[3] == 's'),
        (mode_bits(c) / 0o040) % 2 == bit(c[4] == 'r'),
        (mode_bits(c) / 0o020) % 2 == bit(c[5] == 'w'),
        (mode_bits(c) / 0o010) % 2 == bit(c[6] == 'x' || c[6] == 's'),
        (mode_bits(c) / 0o004) % 2 == bit(c[7] == 'r'),
        (mode_bits(c) / 0o002) % 2 == bit(c[8] == 'w'),
        (mode_bits(c) / 0o001) % 2 == bit(c[9] == 'x' || c[9] == 't'),
        (mode_bits(c) / 0o4000) % 2 == bit(c[3] == 's' || c[3] == 'S'),
        (mode_bits(c) / 0o2000) % 2 == bit(c[6] == 's' || c[6] == 'S'),
        (mode_bits(c) / 0o1000) % 2 == bit(c[9] == 't' || c[9] == 'T'),
        mode_bits(c) < 0o10000,
{
    lemma_mode_sum(c);
    lemma_bit_range(c[9] == 'x' || c[9] == 't');
    lemma_bit_range(c[8] == 'w');
    lemma_bit_range(c[7] == 'r');
    lemma_bit_range(c[6] == 'x' || c[6] == 's');
    lemma_bit_range(c[5] == 'w');
    lemma_bit_range(c[4] == 'r');
    lemma_bit_range(c[3] == 'x' || c[3] == 's');
    lemma_bit_range(c[2] == 'w');
    lemma_bit_range(c[1] == 'r');
    lemma_bit_range(c[9] == 't' || c[9] == 'T');
    lemma_bit_range(c[6] == 's' || c[6] == 'S');
    lemma_bit_range(c[3] == 's' || c[3] == 'S');
    lemma_sum_bits(
        bit(c[9] == 'x' || c[9] == 't'),
        bit(c[8] == 'w'),
        bit(c[7] == 'r'),
        bit(c[6] == 'x' || c[6] == 's'),
        bit(c[5] == 'w'),
        bit(c[4] == 'r'),
        bit(c[3] == 'x' || c[3] == 's'),
        bit(c[2] == 'w'),
        bit(c[1] == 'r'),
        bit(c[9] == 't' || c[9] == 'T'),
        bit(c[6] == 's' || c[6] == 'S'),
        bit(c[3] == 's' || c[3] == 'S'),
    );
}

/// A mode field's bits, one term per slot.
proof fn lemma_mode_sum(c: Seq<char>)
    requires
        c.len() >= 10,
    ensures
        mode_bits(c) as int == sum_of_bits(
            bit(c[9] == 'x' || c[9] == 't'),
            bit(c[8] == 'w'),
            bit(c[7] == 'r'),
            bit(c[6] == 'x' || c[6] == 's'),
            bit(c[5] == 'w'),
            bit(c[4] == 'r'),
            bit(c[3] == 'x' || c[3] == 's'),
            bit(c[2] == 'w'),
            bit(c[1] == 'r'),
            bit(c[9] == 't' || c[9] == 'T'),
            bit(c[6] == 's' || c[6] == 'S'),
            bit(c[3] == 's' || c[3] == 'S'),
        ),
{
    lemma_triad(c[1], c[2], c[3], 0o100, 's', 'S', 0o4000);
    lemma_triad(c[4], c[5], c[6], 0o010, 's', 'S', 0o2000);
    lemma_triad(c[7], c[8], c[9], 0o001, 't', 'T', 0o1000);
}

/// Twelve bits put together, bit `k` worth `2^k`.
pub open spec fn sum_of_bits(
    b0: int,
    b1: int,
    b2: int,
    b3: int,
    b4: int,
    b5: int,
    b6: int,
    b7: int,
    b8: int,
    b9: int,
    b10: int,
    b11: int,
) -> int {
    b0 + 2 * b1 + 4 * b2 + 8 * b3 + 16 * b4 + 32 * b5 + 64 * b6 + 128 * b7 + 256 * b8 + 512 * b9 + 1024 * b10 + 2048
        * b11
}

/// Each bit of twelve bits put together reads back.
proof fn lemma_sum_bits(b0: int, b1: int, b2: int, b3: int, b4: int, b5: int, b6: int, b7: int, b8: int, b9: int, b10: int, b11: int)
    requires
        0 <= b0 <= 1 && 0 <= b1 <= 1 && 0 <= b2 <= 1 && 0 <= b3 <= 1 && 0 <= b4 <= 1 && 0 <= b5 <= 1,
        0 <= b6 <= 1 && 0 <= b7 <= 1 && 0 <= b8 <= 1 && 0 <= b9 <= 1 && 0 <= b10 <= 1 && 0 <= b11 <= 1,
    ensures
        ({
            let m = sum_of_bits(b0, b1, b2, b3, b4, b5, b6, b7, b8, b9, b10, b11);
            &&& (m / 1) % 2 == b0
            &&& (m / 2) % 2 == b1
            &&& (m / 4) % 2 == b2
            &&& (m / 8) % 2 == b3
            &&& (m / 16) % 2 == b4
            &&& (m / 32) % 2 == b5
            &&& (m / 64) % 2 == b6
            &&& (m / 128) % 2 == b7
            &&& (m / 256) % 2 == b8
            &&& (m / 512) % 2 == b9
            &&& (m / 1024) % 2 == b10
            &&& (m / 2048) % 2 == b11
            &&& m < 4096
        }),
{
    lemma_bit_of(0, b0, b1 + 2 * b2 + 4 * b3 + 8 * b4 + 16 * b5 + 32 * b6 + 64 * b7 + 128 * b8 + 256 * b9 + 512 * b10 + 1024 * b11, 1);
    lemma_bit_of(b0, b1, b2 + 2 * b3 + 4 * b4 + 8 * b5 + 16 * b6 + 32 * b7 + 64 * b8 + 128 * b9 + 256 * b10 + 512 * b11, 2);
    lemma_bit_of(b0 + 2 * b1, b2, b3 + 2 * b4 + 4 * b5 + 8 * b6 + 16 * b7 + 32 * b8 + 64 * b9 + 128 * b10 + 256 * b11, 4);
    lemma_bit_of(b0 + 2 * b1 + 4 * b2, b3, b4 + 2 * b5 + 4 * b6 + 8 * b7 + 16 * b8 + 32 * b9 + 64 * b10 + 128 * b11, 8);
    lemma_bit_of(b0 + 2 * b1 + 4 * b2 + 8 * b3, b4, b5 + 2 * b6 + 4 * b7 + 8 * b8 + 16 * b9 + 32 * b10 + 64 * b11, 16);
    lemma_bit_of(b0 + 2 * b1 + 4 * b2 + 8 * b3 + 16 * b4, b5, b6 + 2 * b7 + 4 * b8 + 8 * b9 + 16 * b10 + 32 * b11, 32);
    lemma_bit_of(b0 + 2 * b1 + 4 * b2 + 8 * b3 + 16 * b4 + 32 * b5, b6, b7 + 2 * b8 + 4 * b9 + 8 * b10 + 16 * b11, 64);
    lemma_bit_of(b0 + 2 * b1 + 4 * b2 + 8 * b3 + 16 * b4 + 32 * b5 + 64 * b6, b7, b8 + 2 * b9 + 4 * b10 + 8 * b11, 128);
    lemma_bit_of(b0 + 2 * b1 + 4 * b2 + 8 * b3 + 16 * b4 + 32 * b5 + 64 * b6 + 128 * b7, b8, b9 + 2 * b10 + 4 * b11, 256);
    lemma_bit_of(b0 + 2 * b1 + 4 * b2 + 8 * b3 + 16 * b4 + 32 * b5 + 64 * b6 + 128 * b7 + 256 * b8, b9, b10 + 2 * b11, 512);
    lemma_bit_of(b0 + 2 * b1 + 4 * b2 + 8 * b3 + 16 * b4 + 32 * b5 + 64 * b6 + 128 * b7 + 256 * b8 + 512 * b9, b10, b11, 1024);
    lemma_bit_of(
        b0 + 2 * b1 + 4 * b2 + 8 * b3 + 16 * b4 + 32 * b5 + 64 * b6 + 128 * b7 + 256 * b8 + 512 * b9 + 1024 * b10,
        b11,
        0,
        2048,
    );
}

} // verus!
