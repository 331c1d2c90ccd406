//! Which entries a file pane shows, and in what order: the filter, the
//! dotfile switch and the stable sort by name, size or date.
use vstd::prelude::*;
use crate::model::{EntryKind, FileEntry, Timestamp};
use crate::text::{
    lowercase_chars, contains_seq, contains_chars, to_lower, chars_of, is_dot_name,
    is_dot_or_dotdot_chars, seq_order, order_chars, lemma_seq_order,
};

verus! {

/// Listing sort key. One global key for both panes.
#[derive(Debug, Clone, Copy, PartialEq, Eq, Structural)]
pub enum SortKey {
    Name,
    Size,
    Date,
}

/// The key after `k`, wrapping around.
pub open spec fn key_after(k: SortKey) -> SortKey {
    match k {
        SortKey::Name => SortKey::Size,
        SortKey::Size => SortKey::Date,
        SortKey::Date => SortKey::Name,
    }
}

/// The word a sort key is shown as.
pub open spec fn sort_label(k: SortKey) -> Seq<char> {
    match k {
        SortKey::Name => "name"@,
        SortKey::Size => "size"@,
        SortKey::Date => "date"@,
    }
}

impl SortKey {
    pub fn next(self) -> (r: Self)
        ensures
            r == key_after(self),
    {
        match self {
            SortKey::Name => SortKey::Size,
            SortKey::Size => SortKey::Date,
            SortKey::Date => SortKey::Name,
        }
    }

    pub fn label(self) -> (r: &'static str)
        ensures
            r@ == sort_label(self),
    {
        match self {
            SortKey::Name => "name",
            SortKey::Size => "size",
            SortKey::Date => "date",
        }
    }
}

impl Default for SortKey {
    /// Sort by name.
    fn default() -> (r: Self)
        ensures
            r == SortKey::Name,
    {
        SortKey::Name
    }
}

/// Case-insensitive filter: an empty pattern matches everything.
pub open spec fn name_matches(name: Seq<char>, pattern: Seq<char>) -> bool {
    pattern.len() == 0 || contains_seq(lowercase_chars(name), lowercase_chars(pattern))
}

/// A dotfile hidden by the switch (`.` and `..` always stay).
pub open spec fn hidden_dotfile(name: Seq<char>, dots_off: bool) -> bool {
    dots_off && name.len() > 0 && name[0] == '.' && !is_dot_name(name)
}

/// Whether the pane shows `e`.
pub open spec fn shown(e: FileEntry, pattern: Seq<char>, dots_off: bool) -> bool {
    name_matches(e.name@, pattern) && !hidden_dotfile(e.name@, dots_off)
}

/// `.` sorts first, `..` second, everything else after them.
pub open spec fn rank(name: Seq<char>) -> int {
    if name == seq!['.'] {
        0
    } else if name == seq!['.', '.'] {
        1
    } else {
        2
    }
}

/// Three-way comparison of integers: -1, 0 or 1.
pub open spec fn order_int(x: int, y: int) -> int {
    if x < y {
        -1
    } else if x == y {
        0
    } else {
        1
    }
}

/// Lexicographic combination: `a`, or `b` where `a` ties.
pub open spec fn then(a: int, b: int) -> int {
    if a != 0 {
        a
    } else {
        b
    }
}

/// Modification times compared; a missing time sorts first.
pub open spec fn date_order(a: Option<Timestamp>, b: Option<Timestamp>) -> int {
    match (a, b) {
        (None, None) => 0,
        (None, Some(_)) => -1,
        (Some(_), None) => 1,
        (Some(x), Some(y)) => then(order_int(x.secs as int, y.secs as int), order_int(x.nanos as int, y.nanos as int)),
    }
}

/// 1 for a directory, 0 otherwise.
pub open spec fn dir_flag(e: FileEntry) -> int {
    if e.kind == EntryKind::Directory {
        1
    } else {
        0
    }
}

/// The pane order of two entries: `.` first, `..` second. Then, by name:
/// directories before files, then names case-insensitively, the names
/// reversed when descending. By size or by date: that value, the name
/// breaking ties, the whole reversed when descending.
pub open spec fn entry_order(a: FileEntry, b: FileEntry, key: SortKey, asc: bool) -> int {
    let names = seq_order(lowercase_chars(a.name@), lowercase_chars(b.name@));
    then(
        order_int(rank(a.name@), rank(b.name@)),
        match key {
            SortKey::Name => then(order_int(dir_flag(b), dir_flag(a)), if asc {
                names
            } else {
                -names
            }),
            SortKey::Size => {
                let o = then(order_int(a.size as int, b.size as int), names);
                if asc {
                    o
                } else {
                    -o
                }
            },
            SortKey::Date => {
                let o = then(date_order(a.modified, b.modified), names);
                if asc {
                    o
                } else {
                    -o
                }
            },
        },
    )
}

/// Entry `i` of `es` is listed before entry `j`: it orders first, or ties
/// and came first (the sort is stable).
pub open spec fn comes_before(es: Seq<FileEntry>, i: int, j: int, key: SortKey, asc: bool) -> bool {
    let c = entry_order(es[i], es[j], key, asc);
    c < 0 || (c == 0 && i < j)
}

/// `idx` lists, by position in `es`, exactly the shown entries, each once,
/// in pane order.
pub open spec fn is_listing(es: Seq<FileEntry>, pattern: Seq<char>, dots_off: bool, key: SortKey, asc: bool, idx: Seq<usize>) -> bool {
    &&& forall|k: int| 0 <= k < idx.len() ==> #[trigger] idx[k] < es.len() && shown(es[idx[k] as int], pattern, dots_off)
    &&& forall|i: int| 0 <= i < es.len() && shown(#[trigger] es[i], pattern, dots_off) ==> idx.contains(i as usize)
    &&& forall|k1: int, k2: int|
        0 <= k1 < k2 < idx.len() ==> comes_before(es, #[trigger] idx[k1] as int, #[trigger] idx[k2] as int, key, asc)
}

/// The pane listing of `es`: positions of the shown entries in pane order.
#[verifier::opaque]
pub open spec fn listing(es: Seq<FileEntry>, pattern: Seq<char>, dots_off: bool, key: SortKey, asc: bool) -> Seq<usize> {
    choose|idx: Seq<usize>| is_listing(es, pattern, dots_off, key, asc, idx)
}

/// The shown entries themselves, in pane order.
pub open spec fn visible(es: Seq<FileEntry>, pattern: Seq<char>, dots_off: bool, key: SortKey, asc: bool) -> Seq<FileEntry> {
    listing(es, pattern, dots_off, key, asc).map_values(|i: usize| es[i as int])
}

proof fn lemma_date_order(a: Option<Timestamp>, b: Option<Timestamp>, c: Option<Timestamp>)
    ensures
        date_order(a, b) == -date_order(b, a),
        date_order(a, a) == 0,
        -1 <= date_order(a, b) <= 1,
        date_order(a, b) <= 0 && date_order(b, c) <= 0 ==> date_order(a, c) <= 0,
        date_order(a, b) < 0 && date_order(b, c) <= 0 ==> date_order(a, c) < 0,
        date_order(a, b) <= 0 && date_order(b, c) < 0 ==> date_order(a, c) < 0,
{
}

/// `entry_order` is a total preorder: antisymmetric, reflexive and transitive.
pub proof fn lemma_entry_order(a: FileEntry, b: FileEntry, c: FileEntry, key: SortKey, asc: bool)
    ensures
        entry_order(a, b, key, asc) == -entry_order(b, a, key, asc),
        entry_order(a, a, key, asc) == 0,
        entry_order(a, b, key, asc) <= 0 && entry_order(b, c, key, asc) <= 0 ==> entry_order(a, c, key, asc) <= 0,
        entry_order(a, b, key, asc) < 0 && entry_order(b, c, key, asc) <= 0 ==> entry_order(a, c, key, asc) < 0,
        entry_order(a, b, key, asc) <= 0 && entry_order(b, c, key, asc) < 0 ==> entry_order(a, c, key, asc) < 0,
{
    let la = lowercase_chars(a.name@);
    let lb = lowercase_chars(b.name@);
    let lc = lowercase_chars(c.name@);
    lemma_seq_order(la, lb, lc);
    lemma_seq_order(lb, la, lc);
    lemma_seq_order(la, lc, lb);
    lemma_seq_order(lb, lc, la);
    lemma_seq_order(lc, la, lb);
    lemma_seq_order(lc, lb, la);
    lemma_seq_order(la, la, la);
    lemma_date_order(a.modified, b.modified, c.modified);
    lemma_date_order(b.modified, a.modified, c.modified);
    lemma_date_order(a.modified, a.modified, a.modified);
}

/// `comes_before` is a strict total order on the positions of `es`.
pub proof fn lemma_comes_before(es: Seq<FileEntry>, i: int, j: int, k: int, key: SortKey, asc: bool)
    requires
        0 <= i < es.len(),
        0 <= j < es.len(),
        0 <= k < es.len(),
    ensures
        !comes_before(es, i, i, key, asc),
        i != j ==> (comes_before(es, i, j, key, asc) <==> !comes_before(es, j, i, key, asc)),
        comes_before(es, i, j, key, asc) && comes_before(es, j, k, key, asc) ==> comes_before(es, i, k, key, asc),
{
    lemma_entry_order(es[i], es[j], es[k], key, asc);
    lemma_entry_order(es[i], es[i], es[i], key, asc);
}

/// A listing has no position twice.
proof fn lemma_listing_distinct(es: Seq<FileEntry>, pattern: Seq<char>, dots_off: bool, key: SortKey, asc: bool, idx: Seq<usize>, k1: int, k2: int)
    requires
        is_listing(es, pattern, dots_off, key, asc, idx),
        0 <= k1 < k2 < idx.len(),
    ensures
        idx[k1] != idx[k2],
{
    assert(comes_before(es, idx[k1] as int, idx[k2] as int, key, asc));
    let _ = idx[k1] < es.len();
    let _ = idx[k2] < es.len();
    lemma_comes_before(es, idx[k1] as int, idx[k1] as int, idx[k1] as int, key, asc);
}

/// Two listings agree on their first `n` positions.
proof fn lemma_listing_prefix(es: Seq<FileEntry>, pattern: Seq<char>, dots_off: bool, key: SortKey, asc: bool, a: Seq<usize>, b: Seq<usize>, n: int)
    requires
        is_listing(es, pattern, dots_off, key, asc, a),
        is_listing(es, pattern, dots_off, key, asc, b),
        0 <= n <= a.len(),
        n <= b.len(),
    ensures
        forall|j: int| 0 <= j < n ==> a[j] == b[j],
    decreases n,
{
    if n > 0 {
        lemma_listing_prefix(es, pattern, dots_off, key, asc, a, b, n - 1);
        let k = n - 1;
        assert(a[k] < es.len() && shown(es[a[k] as int], pattern, dots_off));
        assert(b[k] < es.len() && shown(es[b[k] as int], pattern, dots_off));
        assert(b.contains(a[k]));
        assert(a.contains(b[k]));
        let m = choose|m: int| 0 <= m < b.len() && b[m] == a[k];
        let p = choose|p: int| 0 <= p < a.len() && a[p] == b[k];
        if m < k {
            assert(b[m] == a[m]);
            lemma_listing_distinct(es, pattern, dots_off, key, asc, a, m, k);
        }
        if p < k {
            assert(a[p] == b[p]);
            lemma_listing_distinct(es, pattern, dots_off, key, asc, b, p, k);
        }
        if m > k && p > k {
            assert(comes_before(es, b[k] as int, b[m] as int, key, asc));
            assert(comes_before(es, a[k] as int, a[p] as int, key, asc));
            lemma_comes_before(es, a[k] as int, b[k] as int, a[k] as int, key, asc);
            lemma_listing_distinct(es, pattern, dots_off, key, asc, b, k, m);
        }
    }
}

/// The listing is unique: two sequences that both list `es` are equal.
pub proof fn lemma_listing_unique(es: Seq<FileEntry>, pattern: Seq<char>, dots_off: bool, key: SortKey, asc: bool, a: Seq<usize>, b: Seq<usize>)
    requires
        is_listing(es, pattern, dots_off, key, asc, a),
        is_listing(es, pattern, dots_off, key, asc, b),
    ensures
        a == b,
{
    let n = if a.len() <= b.len() {
        a.len() as int
    } else {
        b.len() as int
    };
    lemma_listing_prefix(es, pattern, dots_off, key, asc, a, b, n);
    if a.len() > b.len() {
        let x = a[n];
        assert(x < es.len() && shown(es[x as int], pattern, dots_off));
        assert(b.contains(x));
        let m = choose|m: int| 0 <= m < b.len() && b[m] == x;
        assert(a[m] == b[m]);
        lemma_listing_distinct(es, pattern, dots_off, key, asc, a, m, n);
    } else if b.len() > a.len() {
        let x = b[n];
        assert(x < es.len() && shown(es[x as int], pattern, dots_off));
        assert(a.contains(x));
        let m = choose|m: int| 0 <= m < a.len() && a[m] == x;
        assert(a[m] == b[m]);
        lemma_listing_distinct(es, pattern, dots_off, key, asc, b, m, n);
    }
    assert(a =~= b);
}

/// Once some sequence lists `es`, `listing` is that sequence.
pub proof fn lemma_listing_is(es: Seq<FileEntry>, pattern: Seq<char>, dots_off: bool, key: SortKey, asc: bool, idx: Seq<usize>)
    requires
        is_listing(es, pattern, dots_off, key, asc, idx),
    ensures
        listing(es, pattern, dots_off, key, asc) == idx,
{
    let l = listing(es, pattern, dots_off, key, asc);
    reveal(listing);
    assert(is_listing(es, pattern, dots_off, key, asc, l));
    lemma_listing_unique(es, pattern, dots_off, key, asc, l, idx);
}

/// Case-insensitive filter on a name.
pub fn entry_visible(name: &str, pattern: &str) -> (r: bool)
    ensures
        r == name_matches(name@, pattern@),
{
    if pattern.is_empty() {
        proof {
            assert(pattern@.len() == 0);
        }
        return true;
    }
    let ln = chars_of(to_lower(name).as_str());
    let lp = chars_of(to_lower(pattern).as_str());
    contains_chars(&ln, &lp)
}

fn hide_dotfile(name: &[char], dots_off: bool) -> (r: bool)
    ensures
        r == hidden_dotfile(name@, dots_off),
{
    dots_off && name.len() > 0 && name[0] == '.' && !is_dot_or_dotdot_chars(name)
}

fn rank_exec(name: &[char]) -> (r: u8)
    ensures
        r as int == rank(name@),
{
    if name.len() == 1 && name[0] == '.' {
        assert(name@ =~= seq!['.']);
        0
    } else if name.len() == 2 && name[0] == '.' && name[1] == '.' {
        assert(name@ =~= seq!['.', '.']);
        1
    } else {
        assert(name@ != seq!['.']) by {
            if name@ == seq!['.'] {
                assert(name@.len() == 1 && name@[0] == '.');
            }
        }
        assert(name@ != seq!['.', '.']) by {
            if name@ == seq!['.', '.'] {
                assert(name@.len() == 2 && name@[0] == '.' && name@[1] == '.');
            }
        }
        2
    }
}

fn order_u64(x: u64, y: u64) -> (r: i8)
    ensures
        r as int == order_int(x as int, y as int),
{
    if x < y {
        -1
    } else if x == y {
        0
    } else {
        1
    }
}

fn order_i64(x: i64, y: i64) -> (r: i8)
    ensures
        r as int == order_int(x as int, y as int),
{
    if x < y {
        -1
    } else if x == y {
        0
    } else {
        1
    }
}

fn date_order_exec(a: Option<Timestamp>, b: Option<Timestamp>) -> (r: i8)
    ensures
        r as int == date_order(a, b),
{
    match (a, b) {
        (None, None) => 0,
        (None, Some(_)) => -1,
        (Some(_), None) => 1,
        (Some(x), Some(y)) => {
            let s = order_i64(x.secs, y.secs);
            if s != 0 {
                s
            } else {
                order_u64(x.nanos as u64, y.nanos as u64)
            }
        },
    }
}

/// What the comparator needs of one entry, precomputed.
struct SortItem {
    rank: u8,
    dir: u8,
    lower: Vec<char>,
}

spec fn item_ok(it: SortItem, e: FileEntry) -> bool {
    &&& it.rank as int == rank(e.name@)
    &&& it.dir as int == dir_flag(e)
    &&& it.lower@ == lowercase_chars(e.name@)
}

fn sort_item(e: &FileEntry) -> (r: SortItem)
    ensures
        item_ok(r, *e),
{
    let name = chars_of(e.name.as_str());
    let rank = rank_exec(&name);
    let dir: u8 = if e.kind == EntryKind::Directory {
        1
    } else {
        0
    };
    let lower = chars_of(to_lower(e.name.as_str()).as_str());
    SortItem { rank, dir, lower }
}

fn entry_order_exec(a: &FileEntry, ia: &SortItem, b: &FileEntry, ib: &SortItem, key: SortKey, asc: bool) -> (r: i8)
    requires
        item_ok(*ia, *a),
        item_ok(*ib, *b),
    ensures
        r as int == entry_order(*a, *b, key, asc),
{
    let special = order_u64(ia.rank as u64, ib.rank as u64);
    if special != 0 {
        return special;
    }
    let names = order_chars(&ia.lower, &ib.lower);
    match key {
        SortKey::Name => {
            let dirs = order_u64(ib.dir as u64, ia.dir as u64);
            if dirs != 0 {
                dirs
            } else if asc {
                names
            } else {
                -names
            }
        },
        SortKey::Size => {
            let s = order_u64(a.size, b.size);
            let o = if s != 0 {
                s
            } else {
                names
            };
            if asc {
                o
            } else {
                -o
            }
        },
        SortKey::Date => {
            let d = date_order_exec(a.modified, b.modified);
            let o = if d != 0 {
                d
            } else {
                names
            };
            if asc {
                o
            } else {
                -o
            }
        },
    }
}

/// `out` lists, in pane order, exactly the shown entries among the first `i`.
spec fn partial_listing(es: Seq<FileEntry>, pattern: Seq<char>, dots_off: bool, key: SortKey, asc: bool, out: Seq<usize>, i: int) -> bool {
    &&& forall|k: int| 0 <= k < out.len() ==> #[trigger] out[k] < i && shown(es[out[k] as int], pattern, dots_off)
    &&& forall|t: int| 0 <= t < i && shown(#[trigger] es[t], pattern, dots_off) ==> out.contains(t as usize)
    &&& forall|k1: int, k2: int|
        0 <= k1 < k2 < out.len() ==> comes_before(es, #[trigger] out[k1] as int, #[trigger] out[k2] as int, key, asc)
}

proof fn lemma_skip(es: Seq<FileEntry>, pattern: Seq<char>, dots_off: bool, key: SortKey, asc: bool, out: Seq<usize>, i: int)
    requires
        0 <= i < es.len(),
        partial_listing(es, pattern, dots_off, key, asc, out, i),
        !shown(es[i], pattern, dots_off),
    ensures
        partial_listing(es, pattern, dots_off, key, asc, out, i + 1),
{
}

#[verifier::rlimit(80)]
#[verifier::spinoff_prover]
proof fn lemma_insert(es: Seq<FileEntry>, pattern: Seq<char>, dots_off: bool, key: SortKey, asc: bool, old_out: Seq<usize>, i: int, p: int)
    requires
        0 <= i < es.len(),
        i < usize::MAX,
        partial_listing(es, pattern, dots_off, key, asc, old_out, i),
        shown(es[i], pattern, dots_off),
        0 <= p <= old_out.len(),
        forall|q: int| 0 <= q < p ==> entry_order(es[i], es[#[trigger] old_out[q] as int], key, asc) >= 0,
        p < old_out.len() ==> entry_order(es[i], es[old_out[p] as int], key, asc) < 0,
    ensures
        partial_listing(es, pattern, dots_off, key, asc, old_out.insert(p, i as usize), i + 1),
{
    let out = old_out.insert(p, i as usize);
    assert forall|k: int| 0 <= k < out.len() implies #[trigger] out[k] < i + 1 && shown(es[out[k] as int], pattern, dots_off) by {
        if k < p {
            assert(out[k] == old_out[k]);
        } else if k > p {
            assert(out[k] == old_out[k - 1]);
        }
    }
    assert forall|t: int| 0 <= t < i + 1 && shown(#[trigger] es[t], pattern, dots_off) implies out.contains(t as usize) by {
        if t < i {
            assert(old_out.contains(t as usize));
            let m = choose|m: int| 0 <= m < old_out.len() && old_out[m] == t as usize;
            if m < p {
                assert(out[m] == t as usize);
            } else {
                assert(out[m + 1] == t as usize);
            }
        } else {
            assert(out[p] == i as usize);
        }
    }
    assert forall|k1: int, k2: int| 0 <= k1 < k2 < out.len() implies comes_before(es, #[trigger] out[k1] as int, #[trigger] out[k2] as int, key, asc) by {
        if k1 < p && k2 < p {
            assert(out[k1] == old_out[k1] && out[k2] == old_out[k2]);
            assert(comes_before(es, old_out[k1] as int, old_out[k2] as int, key, asc));
        } else if k1 > p && k2 > p {
            assert(out[k1] == old_out[k1 - 1] && out[k2] == old_out[k2 - 1]);
            assert(comes_before(es, old_out[k1 - 1] as int, old_out[k2 - 1] as int, key, asc));
        } else if k1 < p && k2 > p {
            assert(out[k1] == old_out[k1] && out[k2] == old_out[k2 - 1]);
            assert(comes_before(es, old_out[k1] as int, old_out[k2 - 1] as int, key, asc));
        } else if k1 < p && k2 == p {
            let x = old_out[k1] as int;
            assert(out[k1] as int == x);
            assert(out[k2] as int == i);
            assert(entry_order(es[i], es[x], key, asc) >= 0);
            assert(x < i && shown(es[x], pattern, dots_off));
            lemma_entry_order(es[i], es[x], es[x], key, asc);
        } else {
            assert(k1 == p && k2 > p);
            assert(out[k1] as int == i);
            let y = old_out[p] as int;
            let z = old_out[k2 - 1] as int;
            assert(out[k2] as int == z);
            assert(y < i && shown(es[y], pattern, dots_off));
            assert(z < i && shown(es[z], pattern, dots_off));
            assert(entry_order(es[i], es[y], key, asc) < 0);
            if k2 - 1 > p {
                assert(comes_before(es, y, z, key, asc));
                lemma_comes_before(es, i, y, z, key, asc);
            }
        }
    }
}

/// The position in `out` where entry `i` belongs: after every listed entry
/// that does not order after it.
fn insertion_point(entries: &Vec<FileEntry>, items: &Vec<SortItem>, out: &Vec<usize>, i: usize, key: SortKey, asc: bool) -> (p: usize)
    requires
        i < entries@.len(),
        items@.len() == entries@.len(),
        forall|t: int| 0 <= t < entries@.len() ==> item_ok(#[trigger] items@[t], entries@[t]),
        forall|k: int| 0 <= k < out@.len() ==> #[trigger] out@[k] < i,
    ensures
        p <= out@.len(),
        forall|q: int| 0 <= q < p ==> entry_order(entries@[i as int], entries@[#[trigger] out@[q] as int], key, asc) >= 0,
        p < out@.len() ==> entry_order(entries@[i as int], entries@[out@[p as int] as int], key, asc) < 0,
{
    let mut p: usize = 0;
    while p < out.len()
        invariant
            i < entries@.len(),
            items@.len() == entries@.len(),
            forall|t: int| 0 <= t < entries@.len() ==> item_ok(#[trigger] items@[t], entries@[t]),
            forall|k: int| 0 <= k < out@.len() ==> #[trigger] out@[k] < i,
            p <= out@.len(),
            forall|q: int| 0 <= q < p ==> entry_order(entries@[i as int], entries@[#[trigger] out@[q] as int], key, asc) >= 0,
        decreases out@.len() - p,
    {
        let x = out[p];
        assert(x < i);
        if entry_order_exec(&entries[i], &items[i], &entries[x], &items[x], key, asc) < 0 {
            return p;
        }
        p = p + 1;
    }
    p
}

/// Positions of the shown entries of `entries`, in pane order.
pub fn visible_indices(entries: &Vec<FileEntry>, pattern: &str, hide_dotfiles: bool, sort_key: SortKey, sort_asc: bool) -> (r: Vec<usize>)
    ensures
        is_listing(entries@, pattern@, hide_dotfiles, sort_key, sort_asc, r@),
        r@ == listing(entries@, pattern@, hide_dotfiles, sort_key, sort_asc),
{
    let ghost es = entries@;
    let n = entries.len();
    let mut items: Vec<SortItem> = Vec::new();
    let mut shows: Vec<bool> = Vec::new();
    let mut j: usize = 0;
    while j < n
        invariant
            n == es.len(),
            es == entries@,
            j <= n,
            items@.len() == j,
            shows@.len() == j,
            forall|t: int| 0 <= t < j ==> item_ok(#[trigger] items@[t], es[t]),
            forall|t: int| 0 <= t < j ==> #[trigger] shows@[t] == shown(es[t], pattern@, hide_dotfiles),
        decreases n - j,
    {
        let e = &entries[j];
        items.push(sort_item(e));
        let name = chars_of(e.name.as_str());
        let v = entry_visible(e.name.as_str(), pattern) && !hide_dotfile(&name, hide_dotfiles);
        shows.push(v);
        j = j + 1;
    }
    let mut out: Vec<usize> = Vec::new();
    let mut i: usize = 0;
    while i < n
        invariant
            n == es.len(),
            es == entries@,
            i <= n,
            items@.len() == n,
            shows@.len() == n,
            forall|t: int| 0 <= t < n ==> item_ok(#[trigger] items@[t], es[t]),
            forall|t: int| 0 <= t < n ==> #[trigger] shows@[t] == shown(es[t], pattern@, hide_dotfiles),
            partial_listing(es, pattern@, hide_dotfiles, sort_key, sort_asc, out@, i as int),
        decreases n - i,
    {
        if shows[i] {
            let p = insertion_point(entries, &items, &out, i, sort_key, sort_asc);
            let ghost old_out = out@;
            out.insert(p, i);
            proof {
                lemma_insert(es, pattern@, hide_dotfiles, sort_key, sort_asc, old_out, i as int, p as int);
            }
        } else {
            proof {
                lemma_skip(es, pattern@, hide_dotfiles, sort_key, sort_asc, out@, i as int);
            }
        }
        i = i + 1;
    }
    proof {
        lemma_listing_is(es, pattern@, hide_dotfiles, sort_key, sort_asc, out@);
    }
    out
}

/// Sorting by date puts older entries first (newer first when
/// descending), whatever their names: fewer whole seconds orders first; at
/// equal seconds, fewer nanoseconds; an entry without a time before one
/// with a time. `.` and `..` keep their places at the top.
pub proof fn law_older_first_by_date(a: FileEntry, b: FileEntry)
    requires
        a.name@ != seq!['.'] && a.name@ != seq!['.', '.'],
        b.name@ != seq!['.'] && b.name@ != seq!['.', '.'],
    ensures
        (a.modified matches Some(x) && b.modified matches Some(y) && x.secs < y.secs) ==> entry_order(
            a,
            b,
            SortKey::Date,
            true,
        ) < 0 && entry_order(b, a, SortKey::Date, true) > 0 && entry_order(a, b, SortKey::Date, false) > 0,
        (a.modified matches Some(x) && b.modified matches Some(y) && x.secs == y.secs && x.nanos < y.nanos)
            ==> entry_order(a, b, SortKey::Date, true) < 0 && entry_order(a, b, SortKey::Date, false) > 0,
        (a.modified is None && b.modified is Some) ==> entry_order(a, b, SortKey::Date, true) < 0,
{
}

/// Sorting by size puts smaller entries first (larger first when
/// descending), whatever their names.
pub proof fn law_smaller_first_by_size(a: FileEntry, b: FileEntry)
    requires
        a.name@ != seq!['.'] && a.name@ != seq!['.', '.'],
        b.name@ != seq!['.'] && b.name@ != seq!['.', '.'],
        a.size < b.size,
    ensures
        entry_order(a, b, SortKey::Size, true) < 0,
        entry_order(a, b, SortKey::Size, false) > 0,
{
}

/// Sorting by name puts folders before files, whatever their names; among
/// entries of the same kind, a name that comes first case-insensitively
/// comes first ascending and last descending.
pub proof fn law_folders_first_then_names(a: FileEntry, b: FileEntry, asc: bool)
    requires
        a.name@ != seq!['.'] && a.name@ != seq!['.', '.'],
        b.name@ != seq!['.'] && b.name@ != seq!['.', '.'],
    ensures
        (a.kind == EntryKind::Directory && b.kind != EntryKind::Directory) ==> entry_order(a, b, SortKey::Name, asc) < 0,
        ((a.kind == EntryKind::Directory) == (b.kind == EntryKind::Directory) && crate::text::seq_lt(
            lowercase_chars(a.name@),
            lowercase_chars(b.name@),
        )) ==> entry_order(a, b, SortKey::Name, true) < 0 && entry_order(a, b, SortKey::Name, false) > 0,
{
    crate::text::lemma_seq_lt_total(lowercase_chars(a.name@), lowercase_chars(b.name@));
}

} // verus!
