//! Character-level string helpers shared by the editor model, path logic and
//! listing parser. Strings are reasoned about through their `Seq<char>` view.
use vstd::prelude::*;

verus! {

/// Unicode lower-case mapping of a character sequence, as `str::to_lowercase`
/// computes it.
pub uninterp spec fn lowercase_chars(s: Seq<char>) -> Seq<char>;

/// `str::to_lowercase`: the Unicode lower-case form of `s`. The contract names
/// the result; the Unicode tables behind it are not restated here, except
/// what they give ASCII text: each letter `A`-`Z` becomes `a`-`z` and every
/// other ASCII character stays.
#[verifier::external_body]
pub(crate) fn to_lower(s: &str) -> (r: String)
    ensures
        r@ == lowercase_chars(s@),
        (forall|i: int| 0 <= i < s@.len() ==> (#[trigger] s@[i] as u32) < 0x80) ==> r@ == s@.map_values(
            |c: char| ascii_lower(c),
        ),
{
    s.to_lowercase()
}

/// `String::push`: appends one character.
#[verifier::external_body]
pub(crate) fn push_char(s: &mut String, c: char)
    ensures
        final(s)@ == old(s)@.push(c),
{
    s.push(c);
}

/// The character sequences of a list of strings.
pub open spec fn string_views(v: Seq<String>) -> Seq<Seq<char>> {
    v.map_values(|s: String| s@)
}

/// The characters of `s`, in order.
pub fn chars_of(s: &str) -> (r: Vec<char>)
    ensures
        r@ == s@,
{
    let mut out: Vec<char> = Vec::new();
    for c in it: s.chars()
        invariant
            out@ == it.seq().take(it.index() as int),
            it.seq() == s@,
    {
        out.push(c);
    }
    out
}

/// A string holding exactly the characters of `cs`.
pub fn string_of(cs: &[char]) -> (r: String)
    ensures
        r@ == cs@,
{
    let mut out = String::new();
    let mut i: usize = 0;
    while i < cs.len()
        invariant
            i <= cs@.len(),
            out@ == cs@.take(i as int),
        decreases cs@.len() - i,
    {
        push_char(&mut out, cs[i]);
        proof {
            assert(cs@.take(i + 1) =~= cs@.take(i as int).push(cs@[i as int]));
        }
        i = i + 1;
    }
    proof {
        assert(cs@.take(cs@.len() as int) =~= cs@);
    }
    out
}

/// A string holding the characters `cs[lo..hi]`.
pub fn string_of_range(cs: &[char], lo: usize, hi: usize) -> (r: String)
    requires
        lo <= hi <= cs@.len(),
    ensures
        r@ == cs@.subrange(lo as int, hi as int),
{
    let mut out = String::new();
    let mut i: usize = lo;
    while i < hi
        invariant
            lo <= i <= hi <= cs@.len(),
            out@ == cs@.subrange(lo as int, i as int),
        decreases hi - i,
    {
        push_char(&mut out, cs[i]);
        proof {
            assert(cs@.subrange(lo as int, i + 1) =~= cs@.subrange(lo as int, i as int).push(
                cs@[i as int],
            ));
        }
        i = i + 1;
    }
    out
}

/// `a` followed by `b`.
pub fn concat2(a: &str, b: &str) -> (r: String)
    ensures
        r@ == a@ + b@,
{
    let s = String::from_str(a);
    s.concat(b)
}

/// `a`, `b` and `c` in sequence.
pub fn concat3(a: &str, b: &str, c: &str) -> (r: String)
    ensures
        r@ == a@ + b@ + c@,
{
    let s = String::from_str(a);
    let s = s.concat(b);
    s.concat(c)
}

/// Character-wise equality of two strings.
pub fn str_eq(a: &str, b: &str) -> (r: bool)
    ensures
        r == (a@ == b@),
{
    let ac = chars_of(a);
    let bc = chars_of(b);
    seq_eq(&ac, &bc)
}

/// Element-wise equality of two character slices.
pub fn seq_eq(a: &[char], b: &[char]) -> (r: bool)
    ensures
        r == (a@ == b@),
{
    if a.len() != b.len() {
        return false;
    }
    let mut i: usize = 0;
    while i < a.len()
        invariant
            a@.len() == b@.len(),
            i <= a@.len(),
            forall|k: int| 0 <= k < i ==> a@[k] == b@[k],
        decreases a@.len() - i,
    {
        if a[i] != b[i] {
            return false;
        }
        i = i + 1;
    }
    proof {
        assert(a@ =~= b@);
    }
    true
}

/// Whether `s` is exactly the one-character string `c`.
pub open spec fn is_single(s: Seq<char>, c: char) -> bool {
    s.len() == 1 && s[0] == c
}

/// Whether `s` is `.` or `..`.
pub open spec fn is_dot_name(s: Seq<char>) -> bool {
    (s.len() == 1 && s[0] == '.') || (s.len() == 2 && s[0] == '.' && s[1] == '.')
}

/// `s` is `.` or `..`.
pub fn is_dot_or_dotdot_chars(s: &[char]) -> (r: bool)
    ensures
        r == is_dot_name(s@),
{
    (s.len() == 1 && s[0] == '.') || (s.len() == 2 && s[0] == '.' && s[1] == '.')
}

/// The Unicode `White_Space` property, as `char::is_whitespace` defines it.
pub open spec fn is_ws(c: char) -> bool {
    let u = c as u32;
    (0x09 <= u <= 0x0d) || u == 0x20 || u == 0x85 || u == 0xa0 || u == 0x1680 || (0x2000 <= u
        <= 0x200a) || u == 0x2028 || u == 0x2029 || u == 0x202f || u == 0x205f || u == 0x3000
}

/// Executable form of [`is_ws`].
pub fn char_is_ws(c: char) -> (r: bool)
    ensures
        r == is_ws(c),
{
    let u = c as u32;
    (0x09 <= u && u <= 0x0d) || u == 0x20 || u == 0x85 || u == 0xa0 || u == 0x1680 || (0x2000 <= u
        && u <= 0x200a) || u == 0x2028 || u == 0x2029 || u == 0x202f || u == 0x205f || u == 0x3000
}

/// ASCII decimal digit.
pub open spec fn is_digit(c: char) -> bool {
    '0' <= c <= '9'
}

/// ASCII letter or digit.
pub open spec fn is_alnum(c: char) -> bool {
    ('0' <= c <= '9') || ('a' <= c <= 'z') || ('A' <= c <= 'Z')
}

/// ASCII lower-case folding of one character (`char::to_ascii_lowercase`).
pub open spec fn ascii_lower(c: char) -> char {
    if 'A' <= c <= 'Z' {
        ((c as u32) + 32) as char
    } else {
        c
    }
}

/// Executable form of [`ascii_lower`].
pub fn char_ascii_lower(c: char) -> (r: char)
    ensures
        r == ascii_lower(c),
{
    if 'A' <= c && c <= 'Z' {
        let u = (c as u32) + 32;
        assert(0x61 <= u <= 0x7a);
        // lower-case ASCII letters are valid scalar values
        char_from_ascii_letter(u)
    } else {
        c
    }
}

/// The character with code point `u`, for a lower-case ASCII letter.
fn char_from_ascii_letter(u: u32) -> (r: char)
    requires
        0x61 <= u <= 0x7a,
    ensures
        r == u as char,
        r as u32 == u,
{
    let b = u as u8;
    b as char
}

/// ASCII case-insensitive equality (`str::eq_ignore_ascii_case`).
pub open spec fn eq_ignore_ascii_case(a: Seq<char>, b: Seq<char>) -> bool {
    a.len() == b.len() && forall|i: int| 0 <= i < a.len() ==> ascii_lower(a[i]) == ascii_lower(b[i])
}

/// Executable form of [`eq_ignore_ascii_case`].
pub fn chars_eq_ignore_ascii_case(a: &[char], b: &[char]) -> (r: bool)
    ensures
        r == eq_ignore_ascii_case(a@, b@),
{
    if a.len() != b.len() {
        return false;
    }
    let mut i: usize = 0;
    while i < a.len()
        invariant
            a@.len() == b@.len(),
            i <= a@.len(),
            forall|k: int| 0 <= k < i ==> ascii_lower(a@[k]) == ascii_lower(b@[k]),
        decreases a@.len() - i,
    {
        if char_ascii_lower(a[i]) != char_ascii_lower(b[i]) {
            return false;
        }
        i = i + 1;
    }
    true
}

/// `needle` occurs in `hay` starting at position `i`.
pub open spec fn occurs_at(hay: Seq<char>, needle: Seq<char>, i: int) -> bool {
    0 <= i && i + needle.len() <= hay.len() && hay.subrange(i, i + needle.len()) == needle
}

/// `needle` is a contiguous part of `hay` (`str::contains`).
pub open spec fn contains_seq(hay: Seq<char>, needle: Seq<char>) -> bool {
    exists|i: int| occurs_at(hay, needle, i)
}

/// Whether `needle` occurs in `hay` at `i`.
pub fn occurs_at_exec(hay: &[char], needle: &[char], i: usize) -> (r: bool)
    ensures
        r == occurs_at(hay@, needle@, i as int),
{
    if i > hay.len() || needle.len() > hay.len() - i {
        return false;
    }
    let mut k: usize = 0;
    while k < needle.len()
        invariant
            i + needle@.len() <= hay@.len(),
            i <= hay@.len(),
            hay@.len() == hay.len(),
            k <= needle@.len(),
            forall|j: int| 0 <= j < k ==> hay@[i + j] == needle@[j],
        decreases needle@.len() - k,
    {
        if hay[i + k] != needle[k] {
            assert(hay@.subrange(i as int, i + needle@.len())[k as int] != needle@[k as int]);
            return false;
        }
        k = k + 1;
    }
    assert(hay@.subrange(i as int, i + needle@.len()) =~= needle@);
    true
}

/// Whether `needle` occurs anywhere in `hay`.
pub fn contains_chars(hay: &[char], needle: &[char]) -> (r: bool)
    ensures
        r == contains_seq(hay@, needle@),
{
    let mut i: usize = 0;
    while i < hay.len()
        invariant
            i <= hay@.len(),
            forall|j: int| 0 <= j < i ==> !occurs_at(hay@, needle@, j),
        decreases hay@.len() - i,
    {
        if occurs_at_exec(hay, needle, i) {
            return true;
        }
        i = i + 1;
    }
    if occurs_at_exec(hay, needle, hay.len()) {
        return true;
    }
    assert forall|j: int| !occurs_at(hay@, needle@, j) by {
        if 0 <= j && j + needle@.len() <= hay@.len() {
            assert(j <= hay@.len());
        }
    }
    false
}

/// `s` starts with `p`.
pub open spec fn starts_with(s: Seq<char>, p: Seq<char>) -> bool {
    p.len() <= s.len() && s.subrange(0, p.len() as int) == p
}

/// Executable form of [`starts_with`].
pub fn chars_start_with(s: &[char], p: &[char]) -> (r: bool)
    ensures
        r == starts_with(s@, p@),
{
    let r = occurs_at_exec(s, p, 0);
    r
}

/// Whether character `c` occurs in `s`.
pub fn has_char(s: &[char], c: char) -> (r: bool)
    ensures
        r == s@.contains(c),
{
    let mut i: usize = 0;
    while i < s.len()
        invariant
            i <= s@.len(),
            forall|j: int| 0 <= j < i ==> s@[j] != c,
        decreases s@.len() - i,
    {
        if s[i] == c {
            return true;
        }
        i = i + 1;
    }
    false
}

/// Decimal digits of `n`, most significant first, without leading zeros
/// (`0` is the single digit `0`).
pub open spec fn decimal(n: nat) -> Seq<char>
    decreases n,
{
    if n < 10 {
        seq![digit_char(n)]
    } else {
        decimal(n / 10).push(digit_char(n % 10))
    }
}

/// The ASCII digit for `d`, which is below 10.
pub open spec fn digit_char(d: nat) -> char {
    (('0' as u32) + d) as char
}

/// The ASCII digit character for `d`.
fn digit_char_exec(d: u64) -> (r: char)
    requires
        d < 10,
    ensures
        r == digit_char(d as nat),
{
    let b = (48 + d) as u8;
    b as char
}

/// Decimal text of `n` (`u64::to_string`).
pub fn u64_to_decimal(n: u64) -> (r: String)
    ensures
        r@ == decimal(n as nat),
    decreases n,
{
    if n < 10 {
        let mut s = String::new();
        push_char(&mut s, digit_char_exec(n));
        assert(s@ =~= seq![digit_char(n as nat)]);
        s
    } else {
        let mut s = u64_to_decimal(n / 10);
        push_char(&mut s, digit_char_exec(n % 10));
        s
    }
}

/// Lexicographic "less than" on character sequences, comparing code points
/// (the order of `str`'s `Ord`).
pub open spec fn seq_lt(a: Seq<char>, b: Seq<char>) -> bool
    decreases a.len(),
{
    if a.len() == 0 {
        b.len() > 0
    } else if b.len() == 0 {
        false
    } else if a[0] != b[0] {
        (a[0] as u32) < (b[0] as u32)
    } else {
        seq_lt(a.drop_first(), b.drop_first())
    }
}

/// Three-way lexicographic comparison: -1, 0 or 1.
pub open spec fn seq_order(a: Seq<char>, b: Seq<char>) -> int {
    if a == b {
        0
    } else if seq_lt(a, b) {
        -1
    } else {
        1
    }
}

/// Executable three-way comparison of two character slices.
pub fn order_chars(a: &[char], b: &[char]) -> (r: i8)
    ensures
        r as int == seq_order(a@, b@),
{
    let mut i: usize = 0;
    while i < a.len() && i < b.len()
        invariant
            i <= a@.len(),
            i <= b@.len(),
            a@.subrange(0, i as int) == b@.subrange(0, i as int),
        decreases a@.len() - i,
    {
        if a[i] != b[i] {
            proof {
                lemma_seq_lt_at(a@, b@, i as int);
            }
            if (a[i] as u32) < (b[i] as u32) {
                return -1;
            } else {
                return 1;
            }
        }
        proof {
            assert(a@.subrange(0, i + 1) =~= a@.subrange(0, i as int).push(a@[i as int]));
            assert(b@.subrange(0, i + 1) =~= b@.subrange(0, i as int).push(b@[i as int]));
        }
        i = i + 1;
    }
    proof {
        lemma_seq_lt_prefix(a@, b@, i as int);
    }
    if a.len() == b.len() {
        proof {
            assert(a@ =~= a@.subrange(0, i as int));
            assert(b@ =~= b@.subrange(0, i as int));
        }
        0
    } else if a.len() < b.len() {
        -1
    } else {
        1
    }
}

/// When two sequences share a prefix of length `i` and differ at `i`,
/// their order is the order of the characters at `i`.
pub proof fn lemma_seq_lt_at(a: Seq<char>, b: Seq<char>, i: int)
    requires
        0 <= i < a.len(),
        i < b.len(),
        a.subrange(0, i) == b.subrange(0, i),
        a[i] != b[i],
    ensures
        a != b,
        seq_lt(a, b) == ((a[i] as u32) < (b[i] as u32)),
    decreases i,
{
    if i > 0 {
        assert(a[0] == a.subrange(0, i)[0]);
        assert(b[0] == b.subrange(0, i)[0]);
        assert(a.drop_first().subrange(0, i - 1) =~= a.subrange(0, i).drop_first());
        assert(b.drop_first().subrange(0, i - 1) =~= b.subrange(0, i).drop_first());
        lemma_seq_lt_at(a.drop_first(), b.drop_first(), i - 1);
        assert(a.drop_first()[i - 1] == a[i]);
    } else {
    }
    assert(a[i] != b[i]);
}

/// When one sequence is a prefix of the other, the shorter one is smaller.
pub proof fn lemma_seq_lt_prefix(a: Seq<char>, b: Seq<char>, i: int)
    requires
        0 <= i <= a.len(),
        i <= b.len(),
        i == a.len() || i == b.len(),
        a.subrange(0, i) == b.subrange(0, i),
    ensures
        seq_lt(a, b) == (a.len() < b.len()),
    decreases i,
{
    if i > 0 {
        assert(a[0] == a.subrange(0, i)[0]);
        assert(b[0] == b.subrange(0, i)[0]);
        assert(a.drop_first().subrange(0, i - 1) =~= a.subrange(0, i).drop_first());
        assert(b.drop_first().subrange(0, i - 1) =~= b.subrange(0, i).drop_first());
        lemma_seq_lt_prefix(a.drop_first(), b.drop_first(), i - 1);
    }
}

/// `seq_lt` is irreflexive.
pub proof fn lemma_seq_lt_irrefl(a: Seq<char>)
    ensures
        !seq_lt(a, a),
    decreases a.len(),
{
    if a.len() > 0 {
        lemma_seq_lt_irrefl(a.drop_first());
    }
}

/// Two different sequences are ordered one way or the other, never both.
pub proof fn lemma_seq_lt_total(a: Seq<char>, b: Seq<char>)
    ensures
        a != b ==> (seq_lt(a, b) || seq_lt(b, a)),
        !(seq_lt(a, b) && seq_lt(b, a)),
        a == b ==> !seq_lt(a, b),
    decreases a.len(),
{
    if a == b {
        lemma_seq_lt_irrefl(a);
    } else if a.len() > 0 && b.len() > 0 && a[0] == b[0] {
        lemma_seq_lt_total(a.drop_first(), b.drop_first());
        if a.drop_first() == b.drop_first() {
            assert(a =~= seq![a[0]] + a.drop_first());
            assert(b =~= seq![b[0]] + b.drop_first());
        }
    } else if a.len() == 0 && b.len() == 0 {
        assert(a =~= b);
    } else if a.len() > 0 && b.len() > 0 {
        vstd::utf8::char_u32_cast(a[0], a[0] as u32);
        vstd::utf8::char_u32_cast(b[0], b[0] as u32);
    }
}

/// `seq_lt` is transitive.
pub proof fn lemma_seq_lt_trans(a: Seq<char>, b: Seq<char>, c: Seq<char>)
    requires
        seq_lt(a, b),
        seq_lt(b, c),
    ensures
        seq_lt(a, c),
    decreases a.len(),
{
    if a.len() > 0 && b.len() > 0 && c.len() > 0 && a[0] == b[0] && b[0] == c[0] {
        lemma_seq_lt_trans(a.drop_first(), b.drop_first(), c.drop_first());
    }
}

/// `seq_order` is a total order: antisymmetric, transitive, zero exactly on equal sequences.
pub proof fn lemma_seq_order(a: Seq<char>, b: Seq<char>, c: Seq<char>)
    ensures
        seq_order(a, b) == -seq_order(b, a),
        seq_order(a, b) == 0 <==> a == b,
        -1 <= seq_order(a, b) <= 1,
        seq_order(a, b) <= 0 && seq_order(b, c) <= 0 ==> seq_order(a, c) <= 0,
        seq_order(a, b) < 0 && seq_order(b, c) <= 0 ==> seq_order(a, c) < 0,
        seq_order(a, b) <= 0 && seq_order(b, c) < 0 ==> seq_order(a, c) < 0,
{
    lemma_seq_lt_total(a, b);
    lemma_seq_lt_total(b, c);
    lemma_seq_lt_total(a, c);
    if seq_lt(a, b) && seq_lt(b, c) {
        lemma_seq_lt_trans(a, b, c);
    }
}

/// What separates the pieces of a split.
#[derive(Clone, Copy)]
pub enum Sep {
    /// One given character.
    Char(char),
    /// `/` or `\\`.
    Slashes,
    /// Unicode whitespace.
    Ws,
}

/// Whether `c` separates pieces under `sep`.
pub open spec fn is_sep(sep: Sep, c: char) -> bool {
    match sep {
        Sep::Char(x) => c == x,
        Sep::Slashes => c == '/' || c == '\\',
        Sep::Ws => is_ws(c),
    }
}

/// Executable form of [`is_sep`].
pub fn sep_matches(sep: Sep, c: char) -> (r: bool)
    ensures
        r == is_sep(sep, c),
{
    match sep {
        Sep::Char(x) => c == x,
        Sep::Slashes => c == '/' || c == '\\',
        Sep::Ws => char_is_ws(c),
    }
}

/// The pieces of `s` between separators, as `str::split` yields them: one
/// more piece than there are separators, empty pieces included.
pub open spec fn pieces(s: Seq<char>, sep: Sep) -> Seq<Seq<char>>
    decreases s.len(),
{
    if s.len() == 0 {
        seq![Seq::<char>::empty()]
    } else {
        let ps = pieces(s.drop_last(), sep);
        if is_sep(sep, s.last()) {
            ps.push(Seq::<char>::empty())
        } else {
            ps.update(ps.len() - 1, ps.last().push(s.last()))
        }
    }
}

/// There is always at least one piece.
pub proof fn lemma_pieces_nonempty(s: Seq<char>, sep: Sep)
    ensures
        pieces(s, sep).len() >= 1,
    decreases s.len(),
{
    if s.len() > 0 {
        lemma_pieces_nonempty(s.drop_last(), sep);
    }
}

/// The non-empty whitespace-separated words of `s` (`str::split_whitespace`).
pub open spec fn words(s: Seq<char>) -> Seq<Seq<char>> {
    pieces(s, Sep::Ws).filter(|p: Seq<char>| p.len() > 0)
}

/// The pieces of `cs` between separators.
pub fn split_pieces(cs: &[char], sep: Sep) -> (r: Vec<Vec<char>>)
    ensures
        r@.len() == pieces(cs@, sep).len(),
        forall|i: int| 0 <= i < r@.len() ==> #[trigger] r@[i]@ == pieces(cs@, sep)[i],
{
    let mut out: Vec<Vec<char>> = Vec::new();
    let mut cur: Vec<char> = Vec::new();
    let mut i: usize = 0;
    proof {
        assert(cs@.take(0) =~= Seq::<char>::empty());
    }
    while i < cs.len()
        invariant
            i <= cs@.len(),
            out@.len() + 1 == pieces(cs@.take(i as int), sep).len(),
            forall|k: int| 0 <= k < out@.len() ==> #[trigger] out@[k]@ == pieces(cs@.take(i as int), sep)[k],
            cur@ == pieces(cs@.take(i as int), sep).last(),
        decreases cs@.len() - i,
    {
        let c = cs[i];
        proof {
            let t = cs@.take(i + 1);
            assert(t.drop_last() =~= cs@.take(i as int));
            assert(t.last() == c);
            lemma_pieces_nonempty(cs@.take(i as int), sep);
        }
        if sep_matches(sep, c) {
            let done = cur;
            out.push(done);
            cur = Vec::new();
            proof {
                assert(cur@ =~= Seq::<char>::empty());
            }
        } else {
            cur.push(c);
        }
        i = i + 1;
    }
    proof {
        assert(cs@.take(cs@.len() as int) =~= cs@);
        lemma_pieces_nonempty(cs@, sep);
    }
    out.push(cur);
    out
}

/// Keeps the non-empty pieces.
pub fn keep_nonempty(ps: Vec<Vec<char>>) -> (r: Vec<Vec<char>>)
    ensures
        r@.len() == ps@.map_values(|p: Vec<char>| p@).filter(|p: Seq<char>| p.len() > 0).len(),
        forall|i: int| 0 <= i < r@.len() ==> #[trigger] r@[i]@ == ps@.map_values(|p: Vec<char>| p@).filter(|p: Seq<char>| p.len() > 0)[i],
{
    let ghost pred = |p: Seq<char>| p.len() > 0;
    let ghost views = ps@.map_values(|p: Vec<char>| p@);
    let mut out: Vec<Vec<char>> = Vec::new();
    let mut i: usize = 0;
    while i < ps.len()
        invariant
            i <= ps@.len(),
            pred == (|p: Seq<char>| p.len() > 0),
            views == ps@.map_values(|p: Vec<char>| p@),
            out@.len() == views.take(i as int).filter(pred).len(),
            forall|k: int| 0 <= k < out@.len() ==> #[trigger] out@[k]@ == views.take(i as int).filter(pred)[k],
        decreases ps@.len() - i,
    {
        proof {
            assert(views.take(i + 1) =~= views.take(i as int).push(views[i as int]));
            views.take(i as int).lemma_filter_push(views[i as int], pred);
        }
        if ps[i].len() > 0 {
            out.push(ps[i].clone());
            proof {
                assert(out@.last()@ == ps@[i as int]@);
            }
        }
        i = i + 1;
    }
    proof {
        assert(views.take(ps@.len() as int) =~= views);
    }
    out
}

/// The whitespace-separated words of `cs`.
pub fn split_words(cs: &[char]) -> (r: Vec<Vec<char>>)
    ensures
        r@.len() == words(cs@).len(),
        forall|i: int| 0 <= i < r@.len() ==> #[trigger] r@[i]@ == words(cs@)[i],
{
    let ps = split_pieces(cs, Sep::Ws);
    proof {
        assert(ps@.map_values(|p: Vec<char>| p@) =~= pieces(cs@, Sep::Ws));
    }
    keep_nonempty(ps)
}

/// `s` without leading characters equal to `c` (`str::trim_start_matches`).
pub open spec fn trim_start_char(s: Seq<char>, c: char) -> Seq<char>
    decreases s.len(),
{
    if s.len() > 0 && s[0] == c {
        trim_start_char(s.drop_first(), c)
    } else {
        s
    }
}

/// `s` without trailing characters equal to `c` (`str::trim_end_matches`).
pub open spec fn trim_end_char(s: Seq<char>, c: char) -> Seq<char>
    decreases s.len(),
{
    if s.len() > 0 && s.last() == c {
        trim_end_char(s.drop_last(), c)
    } else {
        s
    }
}

/// `s` without leading whitespace.
pub open spec fn trim_start_ws(s: Seq<char>) -> Seq<char>
    decreases s.len(),
{
    if s.len() > 0 && is_ws(s[0]) {
        trim_start_ws(s.drop_first())
    } else {
        s
    }
}

/// `s` without trailing whitespace.
pub open spec fn trim_end_ws(s: Seq<char>) -> Seq<char>
    decreases s.len(),
{
    if s.len() > 0 && is_ws(s.last()) {
        trim_end_ws(s.drop_last())
    } else {
        s
    }
}

/// `s` without leading and trailing whitespace (`str::trim`).
pub open spec fn trim_ws(s: Seq<char>) -> Seq<char> {
    trim_end_ws(trim_start_ws(s))
}

/// Index of the first character of `cs[from..]` that is not a separator under `sep`.
fn skip_seps(cs: &[char], sep: Sep, from: usize) -> (r: usize)
    requires
        from <= cs@.len(),
    ensures
        from <= r <= cs@.len(),
        forall|k: int| from <= k < r ==> is_sep(sep, #[trigger] cs@[k]),
        r < cs@.len() ==> !is_sep(sep, cs@[r as int]),
{
    let mut i = from;
    while i < cs.len() && sep_matches(sep, cs[i])
        invariant
            from <= i <= cs@.len(),
            forall|k: int| from <= k < i ==> is_sep(sep, #[trigger] cs@[k]),
        decreases cs@.len() - i,
    {
        i = i + 1;
    }
    i
}

/// `cs` without leading `c`.
pub fn trim_start_char_exec(cs: &[char], c: char) -> (r: Vec<char>)
    ensures
        r@ == trim_start_char(cs@, c),
{
    let mut i: usize = 0;
    proof {
        assert(cs@.subrange(0, cs@.len() as int) =~= cs@);
    }
    while i < cs.len() && cs[i] == c
        invariant
            i <= cs@.len(),
            trim_start_char(cs@, c) == trim_start_char(cs@.subrange(i as int, cs@.len() as int), c),
        decreases cs@.len() - i,
    {
        proof {
            assert(cs@.subrange(i + 1, cs@.len() as int) =~= cs@.subrange(i as int, cs@.len() as int).drop_first());
        }
        i = i + 1;
    }
    proof {
        assert(cs@.subrange(0, cs@.len() as int) =~= cs@);
    }
    let mut out: Vec<char> = Vec::new();
    let mut j = i;
    while j < cs.len()
        invariant
            i <= j <= cs@.len(),
            out@ == cs@.subrange(i as int, j as int),
        decreases cs@.len() - j,
    {
        out.push(cs[j]);
        proof {
            assert(cs@.subrange(i as int, j + 1) =~= cs@.subrange(i as int, j as int).push(cs@[j as int]));
        }
        j = j + 1;
    }
    out
}

/// `cs` without trailing `c`.
pub fn trim_end_char_exec(cs: &[char], c: char) -> (r: Vec<char>)
    ensures
        r@ == trim_end_char(cs@, c),
{
    let mut n: usize = cs.len();
    proof {
        assert(cs@.subrange(0, cs@.len() as int) =~= cs@);
    }
    while n > 0 && cs[n - 1] == c
        invariant
            n <= cs@.len(),
            trim_end_char(cs@, c) == trim_end_char(cs@.subrange(0, n as int), c),
        decreases n,
    {
        proof {
            assert(cs@.subrange(0, n - 1) =~= cs@.subrange(0, n as int).drop_last());
        }
        n = n - 1;
    }
    let mut out: Vec<char> = Vec::new();
    let mut j: usize = 0;
    while j < n
        invariant
            j <= n <= cs@.len(),
            out@ == cs@.subrange(0, j as int),
        decreases n - j,
    {
        out.push(cs[j]);
        proof {
            assert(cs@.subrange(0, j + 1) =~= cs@.subrange(0, j as int).push(cs@[j as int]));
        }
        j = j + 1;
    }
    out
}

/// `cs` without leading and trailing whitespace.
pub fn trim_ws_exec(cs: &[char]) -> (r: Vec<char>)
    ensures
        r@ == trim_ws(cs@),
{
    let mut i: usize = 0;
    proof {
        assert(cs@.subrange(0, cs@.len() as int) =~= cs@);
    }
    while i < cs.len() && char_is_ws(cs[i])
        invariant
            i <= cs@.len(),
            trim_start_ws(cs@) == trim_start_ws(cs@.subrange(i as int, cs@.len() as int)),
        decreases cs@.len() - i,
    {
        proof {
            assert(cs@.subrange(i + 1, cs@.len() as int) =~= cs@.subrange(i as int, cs@.len() as int).drop_first());
        }
        i = i + 1;
    }
    proof {
        assert(cs@.subrange(0, cs@.len() as int) =~= cs@);
    }
    let ghost rest = cs@.subrange(i as int, cs@.len() as int);
    assert(trim_start_ws(cs@) == rest);
    let mut n: usize = cs.len();
    proof {
        assert(cs@.subrange(i as int, n as int) =~= rest);
    }
    while n > i && char_is_ws(cs[n - 1])
        invariant
            i <= n <= cs@.len(),
            trim_end_ws(rest) == trim_end_ws(cs@.subrange(i as int, n as int)),
        decreases n,
    {
        proof {
            assert(cs@.subrange(i as int, n - 1) =~= cs@.subrange(i as int, n as int).drop_last());
        }
        n = n - 1;
    }
    let mut out: Vec<char> = Vec::new();
    let mut j: usize = i;
    while j < n
        invariant
            i <= j <= n <= cs@.len(),
            out@ == cs@.subrange(i as int, j as int),
        decreases n - j,
    {
        out.push(cs[j]);
        proof {
            assert(cs@.subrange(i as int, j + 1) =~= cs@.subrange(i as int, j as int).push(cs@[j as int]));
        }
        j = j + 1;
    }
    out
}

/// A copy of `cs[lo..hi]`.
pub fn slice_range(cs: &[char], lo: usize, hi: usize) -> (r: Vec<char>)
    requires
        lo <= hi <= cs@.len(),
    ensures
        r@ == cs@.subrange(lo as int, hi as int),
{
    let mut out: Vec<char> = Vec::new();
    let mut j: usize = lo;
    while j < hi
        invariant
            lo <= j <= hi <= cs@.len(),
            out@ == cs@.subrange(lo as int, j as int),
        decreases hi - j,
    {
        out.push(cs[j]);
        proof {
            assert(cs@.subrange(lo as int, j + 1) =~= cs@.subrange(lo as int, j as int).push(cs@[j as int]));
        }
        j = j + 1;
    }
    out
}

/// Index of the last occurrence of `c` in `s`, if any.
pub open spec fn last_index_of(s: Seq<char>, c: char) -> Option<int>
    decreases s.len(),
{
    if s.len() == 0 {
        None
    } else if s.last() == c {
        Some(s.len() - 1)
    } else {
        last_index_of(s.drop_last(), c)
    }
}

/// Executable form of [`last_index_of`].
pub fn rfind_char(cs: &[char], c: char) -> (r: Option<usize>)
    ensures
        match last_index_of(cs@, c) {
            Some(k) => r == Some(k as usize),
            None => r.is_none(),
        },
{
    let mut n: usize = cs.len();
    proof {
        assert(cs@.subrange(0, cs@.len() as int) =~= cs@);
    }
    while n > 0
        invariant
            n <= cs@.len(),
            last_index_of(cs@, c) == last_index_of(cs@.subrange(0, n as int), c),
        decreases n,
    {
        if cs[n - 1] == c {
            return Some(n - 1);
        }
        proof {
            assert(cs@.subrange(0, n - 1) =~= cs@.subrange(0, n as int).drop_last());
        }
        n = n - 1;
    }
    None
}

/// Joins `parts` with `sep` in between (`[&str]::join`).
pub open spec fn join_with(parts: Seq<Seq<char>>, sep: Seq<char>) -> Seq<char>
    decreases parts.len(),
{
    if parts.len() == 0 {
        Seq::empty()
    } else if parts.len() == 1 {
        parts[0]
    } else {
        join_with(parts.drop_last(), sep) + sep + parts.last()
    }
}

/// Executable form of [`join_with`] for `parts[from..]`.
pub fn join_range(parts: &Vec<Vec<char>>, from: usize, sep: &[char]) -> (r: Vec<char>)
    requires
        from <= parts@.len(),
    ensures
        r@ == join_with(parts@.subrange(from as int, parts@.len() as int).map_values(|p: Vec<char>| p@), sep@),
{
    let ghost views = parts@.map_values(|p: Vec<char>| p@);
    let mut out: Vec<char> = Vec::new();
    let mut i: usize = from;
    proof {
        assert(views.subrange(from as int, from as int) =~= Seq::<Seq<char>>::empty());
        assert(parts@.subrange(from as int, from as int).map_values(|p: Vec<char>| p@) =~= views.subrange(from as int, from as int));
    }
    while i < parts.len()
        invariant
            from <= i <= parts@.len(),
            views == parts@.map_values(|p: Vec<char>| p@),
            out@ == join_with(views.subrange(from as int, i as int), sep@),
        decreases parts@.len() - i,
    {
        let ghost before = views.subrange(from as int, i as int);
        if i > from {
            let mut k: usize = 0;
            let ghost start = out@;
            while k < sep.len()
                invariant
                    k <= sep@.len(),
                    out@ == start + sep@.subrange(0, k as int),
                decreases sep@.len() - k,
            {
                out.push(sep[k]);
                proof {
                    assert(sep@.subrange(0, k + 1) =~= sep@.subrange(0, k as int).push(sep@[k as int]));
                }
                k = k + 1;
            }
            proof {
                assert(sep@.subrange(0, sep@.len() as int) =~= sep@);
            }
        }
        let piece = &parts[i];
        let ghost mid = out@;
        let mut k: usize = 0;
        while k < piece.len()
            invariant
                k <= piece@.len(),
                out@ == mid + piece@.subrange(0, k as int),
            decreases piece@.len() - k,
        {
            out.push(piece[k]);
            proof {
                assert(piece@.subrange(0, k + 1) =~= piece@.subrange(0, k as int).push(piece@[k as int]));
            }
            k = k + 1;
        }
        proof {
            assert(piece@.subrange(0, piece@.len() as int) =~= piece@);
            let after = views.subrange(from as int, i + 1);
            assert(after.drop_last() =~= before);
            assert(after.last() == piece@);
            if i == from {
                assert(after.len() == 1);
                assert(out@ =~= after[0]);
            } else {
                assert(out@ =~= join_with(before, sep@) + sep@ + piece@);
            }
        }
        i = i + 1;
    }
    proof {
        assert(parts@.subrange(from as int, parts@.len() as int).map_values(|p: Vec<char>| p@) =~= views.subrange(from as int, parts@.len() as int));
    }
    out
}

} // verus!
