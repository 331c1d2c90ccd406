//! Local and remote path building with escape guards. Remote paths are
//! `/`-separated; local paths follow Unix `Path::join` rules.
use vstd::prelude::*;
use crate::text::{
    Sep, chars_of, concat2, concat3, has_char, is_dot_name, is_dot_or_dotdot_chars, is_sep,
    last_index_of, lemma_pieces_nonempty, pieces, rfind_char, slice_range, split_pieces,
    starts_with, chars_start_with, string_of, trim_end_char, trim_end_char_exec, trim_start_char,
    trim_start_char_exec, decimal, u64_to_decimal, is_alnum, seq_eq,
};

verus! {

/// A name that would leave its directory.
#[derive(Debug, Clone, Copy, PartialEq, Eq, Structural)]
pub enum PathError {
    EscapesDirectory,
}

/// The one-character literals used in paths.
proof fn lemma_lits()
    ensures
        "/"@ == seq!['/'],
        "_"@ == seq!['_'],
        "file"@ == seq!['f', 'i', 'l', 'e'],
{
    reveal_strlit("/");
    reveal_strlit("_");
    reveal_strlit("file");
    assert("/"@ =~= seq!['/']);
    assert("_"@ =~= seq!['_']);
    assert("file"@ =~= seq!['f', 'i', 'l', 'e']);
}

/// A single, plain path component: not empty, not `.` or `..`, and without
/// `/` or `\`.
pub open spec fn safe_component(n: Seq<char>) -> bool {
    n.len() > 0 && !is_dot_name(n) && !n.contains('/') && !n.contains('\\')
}

/// Executable form of [`safe_component`].
pub fn is_safe_component(name: &str) -> (r: bool)
    ensures
        r == safe_component(name@),
{
    let cs = chars_of(name);
    if cs.len() == 0 || is_dot_or_dotdot_chars(&cs) {
        return false;
    }
    if has_char(&cs, '/') || has_char(&cs, '\\') {
        return false;
    }
    true
}

/// Remote `child` under `base` (an absolute `child` stands for itself).
pub open spec fn join_remote(base: Seq<char>, child: Seq<char>) -> Seq<char> {
    if child.len() > 0 && child[0] == '/' {
        child
    } else {
        let b = if base.len() == 0 {
            seq!['/']
        } else {
            base
        };
        if b == seq!['/'] {
            seq!['/'] + trim_start_char(child, '/')
        } else {
            trim_end_char(b, '/') + seq!['/'] + trim_start_char(child, '/')
        }
    }
}

/// Joins a remote `child` onto `base`.
pub fn join_remote_path(base: &str, child: &str) -> (r: String)
    ensures
        r@ == join_remote(base@, child@),
{
    proof {
        lemma_lits();
    }
    let cc = chars_of(child);
    if cc.len() > 0 && cc[0] == '/' {
        return String::from_str(child);
    }
    let bc0 = chars_of(base);
    let bc: Vec<char> = if bc0.len() == 0 {
        let mut v = Vec::new();
        v.push('/');
        v
    } else {
        bc0
    };
    let child_t = trim_start_char_exec(&cc, '/');
    if bc.len() == 1 && bc[0] == '/' {
        proof {
            assert(bc@ =~= seq!['/']);
        }
        let mut out = Vec::new();
        out.push('/');
        let mut all = out;
        let mut k: usize = 0;
        let ghost start = all@;
        while k < child_t.len()
            invariant
                k <= child_t@.len(),
                all@ == start + child_t@.subrange(0, k as int),
            decreases child_t@.len() - k,
        {
            all.push(child_t[k]);
            proof {
                assert(child_t@.subrange(0, k + 1) =~= child_t@.subrange(0, k as int).push(child_t@[k as int]));
            }
            k = k + 1;
        }
        proof {
            assert(child_t@.subrange(0, child_t@.len() as int) =~= child_t@);
            assert(start =~= seq!['/']);
        }
        string_of(&all)
    } else {
        proof {
            assert(bc@ != seq!['/']) by {
                if bc@ == seq!['/'] {
                    assert(bc@.len() == 1 && bc@[0] == '/');
                }
            }
        }
        let bt = trim_end_char_exec(&bc, '/');
        let s1 = string_of(&bt);
        let s2 = string_of(&child_t);
        concat3(s1.as_str(), "/", s2.as_str())
    }
}

/// Remote `name` under `cwd`, or `None` when `name` is not a single plain component.
pub open spec fn remote_child(cwd: Seq<char>, name: Seq<char>) -> Option<Seq<char>> {
    if safe_component(name) {
        Some(join_remote(cwd, name))
    } else {
        None
    }
}

/// Join `name` onto remote `cwd`. Rejects empty, `.`, `..`, leading `/`,
/// and any name containing `/` or `\`. Recursive builders call this once per
/// path component.
pub fn safe_remote_child(cwd: &str, name: &str) -> (r: Result<String, PathError>)
    ensures
        match remote_child(cwd@, name@) {
            Some(p) => r matches Ok(s) && s@ == p,
            None => r == Err::<String, PathError>(PathError::EscapesDirectory),
        },
{
    if !is_safe_component(name) {
        return Err(PathError::EscapesDirectory);
    }
    let joined = join_remote_path(cwd, name);
    let jc = chars_of(joined.as_str());
    let cc = chars_of(cwd);
    let cwd_n: Vec<char> = if cc.len() == 0 {
        let mut v = Vec::new();
        v.push('/');
        v
    } else {
        cc
    };
    let prefix = trim_end_char_exec(&cwd_n, '/');
    proof {
        assert(!(name@.len() > 0 && name@[0] == '/')) by {
            if name@.len() > 0 && name@[0] == '/' {
                assert(name@.contains('/'));
            }
        }
        assert(trim_start_char(name@, '/') == name@);
    }
    if prefix.len() == 0 || (prefix.len() == 1 && prefix[0] == '/') {
        if !(jc.len() > 0 && jc[0] == '/') {
            proof {
                if cwd_n@ == seq!['/'] {
                    assert((seq!['/'] + name@)[0] == '/');
                } else {
                    assert((trim_end_char(cwd_n@, '/') + seq!['/'] + name@)[0] == '/');
                }
            }
            return Err(PathError::EscapesDirectory);
        }
        return Ok(joined);
    }
    let mut with_slash = prefix.clone();
    with_slash.push('/');
    proof {
        assert(cwd_n@ != seq!['/']) by {
            if cwd_n@ == seq!['/'] {
                assert(trim_end_char(cwd_n@, '/') =~= trim_end_char(cwd_n@.drop_last(), '/'));
                assert(cwd_n@.drop_last().len() == 0);
            }
        }
        assert(jc@ == prefix@ + seq!['/'] + name@);
        assert(jc@.subrange(0, with_slash@.len() as int) =~= with_slash@);
    }
    if seq_eq(&jc, &prefix) || chars_start_with(&jc, &with_slash) {
        Ok(joined)
    } else {
        Err(PathError::EscapesDirectory)
    }
}

/// Unix `Path::join`: an absolute `child` replaces `base`; otherwise one `/`
/// separates them unless `base` is empty or already ends with `/`.
pub open spec fn path_join(base: Seq<char>, child: Seq<char>) -> Seq<char> {
    if child.len() > 0 && child[0] == '/' {
        child
    } else if base.len() == 0 {
        child
    } else if base.last() == '/' {
        base + child
    } else {
        base + seq!['/'] + child
    }
}

/// Executable form of [`path_join`].
pub fn local_join(base: &str, child: &str) -> (r: String)
    ensures
        r@ == path_join(base@, child@),
{
    proof {
        lemma_lits();
    }
    let cc = chars_of(child);
    if cc.len() > 0 && cc[0] == '/' {
        return String::from_str(child);
    }
    let bc = chars_of(base);
    if bc.len() == 0 {
        String::from_str(child)
    } else if bc[bc.len() - 1] == '/' {
        concat2(base, child)
    } else {
        concat3(base, "/", child)
    }
}

/// Local `name` under `cwd`, or `None` when `name` is not a single plain component.
pub open spec fn local_child(cwd: Seq<char>, name: Seq<char>) -> Option<Seq<char>> {
    if safe_component(name) {
        Some(path_join(cwd, name))
    } else {
        None
    }
}

/// Join `name` onto `cwd` for a *local* create/rename/download destination.
/// Rejects empty, `.`, `..`, absolute names, and any name containing a
/// path separator. A single plain component joined onto `cwd` stays under
/// `cwd` after lexical normalisation, so no further check can fail.
pub fn safe_local_child(cwd: &str, name: &str) -> (r: Result<String, PathError>)
    ensures
        match local_child(cwd@, name@) {
            Some(p) => r matches Ok(s) && s@ == p,
            None => r == Err::<String, PathError>(PathError::EscapesDirectory),
        },
{
    if !is_safe_component(name) {
        return Err(PathError::EscapesDirectory);
    }
    Ok(local_join(cwd, name))
}

/// The parent of a remote path; `/` is its own parent.
pub open spec fn parent_remote(path: Seq<char>) -> Seq<char> {
    let p = if path.len() == 0 {
        seq!['/']
    } else {
        path
    };
    if p == seq!['/'] {
        seq!['/']
    } else {
        let t = trim_end_char(p, '/');
        match last_index_of(t, '/') {
            Some(i) => if i == 0 {
                seq!['/']
            } else {
                t.subrange(0, i)
            },
            None => seq!['/'],
        }
    }
}

proof fn lemma_last_index_bounds(s: Seq<char>, c: char)
    ensures
        match last_index_of(s, c) {
            Some(i) => 0 <= i < s.len() && s[i] == c,
            None => true,
        },
    decreases s.len(),
{
    if s.len() > 0 && s.last() != c {
        lemma_last_index_bounds(s.drop_last(), c);
    }
}

/// The parent directory of remote `path`.
pub fn parent_remote_path(path: &str) -> (r: String)
    ensures
        r@ == parent_remote(path@),
{
    proof {
        lemma_lits();
    }
    let pc0 = chars_of(path);
    let pc: Vec<char> = if pc0.len() == 0 {
        let mut v = Vec::new();
        v.push('/');
        v
    } else {
        pc0
    };
    if pc.len() == 1 && pc[0] == '/' {
        proof {
            assert(pc@ =~= seq!['/']);
        }
        return String::from_str("/");
    }
    proof {
        assert(pc@ != seq!['/']) by {
            if pc@ == seq!['/'] {
                assert(pc@.len() == 1 && pc@[0] == '/');
            }
        }
    }
    let t = trim_end_char_exec(&pc, '/');
    proof {
        lemma_last_index_bounds(t@, '/');
    }
    match rfind_char(&t, '/') {
        None => String::from_str("/"),
        Some(idx) => {
            if idx == 0 {
                String::from_str("/")
            } else {
                let head = slice_range(&t, 0, idx);
                string_of(&head)
            }
        },
    }
}

/// The last `/`-separated piece of `path` (`rsplit('/').next()`).
pub open spec fn basename_of(path: Seq<char>) -> Seq<char> {
    match last_index_of(path, '/') {
        Some(i) => path.subrange(i + 1, path.len() as int),
        None => path,
    }
}

/// The last `/`-separated piece of a remote path.
pub fn remote_basename(path: &str) -> (r: String)
    ensures
        r@ == basename_of(path@),
{
    let pc = chars_of(path);
    proof {
        lemma_last_index_bounds(pc@, '/');
    }
    match rfind_char(&pc, '/') {
        Some(i) => {
            let tail = slice_range(&pc, i + 1, pc.len());
            string_of(&tail)
        },
        None => String::from_str(path),
    }
}

/// The directories to create, outermost first, from `acc` down through `comps`
/// (empty pieces are skipped); `None` when a piece is not a plain component.
pub open spec fn chain_from(acc: Seq<char>, comps: Seq<Seq<char>>) -> Option<Seq<Seq<char>>>
    decreases comps.len(),
{
    if comps.len() == 0 {
        Some(Seq::empty())
    } else if comps[0].len() == 0 {
        chain_from(acc, comps.drop_first())
    } else {
        match remote_child(acc, comps[0]) {
            None => None,
            Some(a) => match chain_from(a, comps.drop_first()) {
                None => None,
                Some(rest) => Some(seq![a] + rest),
            },
        }
    }
}

/// The remote directories that must exist for `dest_parent` under `cwd`,
/// outermost first, or `None` when a component of it is unsafe.
pub open spec fn mkdir_chain(cwd: Seq<char>, dest_parent: Seq<char>) -> Option<Seq<Seq<char>>> {
    if dest_parent == cwd || dest_parent.len() == 0 {
        Some(Seq::empty())
    } else {
        let ct = trim_end_char(cwd, '/');
        let prefix = if ct.len() == 0 {
            seq!['/']
        } else {
            ct
        };
        let stripped = if starts_with(dest_parent, prefix) {
            dest_parent.subrange(prefix.len() as int, dest_parent.len() as int)
        } else {
            dest_parent
        };
        let rel = trim_start_char(stripped, '/');
        if rel.len() == 0 {
            Some(Seq::empty())
        } else {
            chain_from(prefix, pieces(rel, Sep::Char('/')))
        }
    }
}

/// The directories `mkdir` must create, outermost first, so that `dest_parent`
/// exists below `cwd`.
pub fn remote_mkdir_chain(cwd: &str, dest_parent: &str) -> (r: Result<Vec<String>, PathError>)
    ensures
        match mkdir_chain(cwd@, dest_parent@) {
            Some(c) => r matches Ok(v) && v@.len() == c.len() && forall|i: int|
                0 <= i < c.len() ==> #[trigger] v@[i]@ == c[i],
            None => r == Err::<Vec<String>, PathError>(PathError::EscapesDirectory),
        },
{
    let cc = chars_of(cwd);
    let dc = chars_of(dest_parent);
    if seq_eq(&dc, &cc) || dc.len() == 0 {
        return Ok(Vec::new());
    }
    let ct = trim_end_char_exec(&cc, '/');
    let prefix: Vec<char> = if ct.len() == 0 {
        let mut v = Vec::new();
        v.push('/');
        proof {
            assert(v@ =~= seq!['/']);
        }
        v
    } else {
        ct
    };
    let stripped: Vec<char> = if chars_start_with(&dc, &prefix) {
        slice_range(&dc, prefix.len(), dc.len())
    } else {
        dc
    };
    let rel = trim_start_char_exec(&stripped, '/');
    if rel.len() == 0 {
        return Ok(Vec::new());
    }
    let comps = split_pieces(&rel, Sep::Char('/'));
    let ghost cs = pieces(rel@, Sep::Char('/'));
    proof {
        assert(comps@.map_values(|p: Vec<char>| p@) =~= cs);
        assert(dest_parent@ != cwd@);
        assert(mkdir_chain(cwd@, dest_parent@) == chain_from(prefix@, cs));
    }
    let mut acc = string_of(&prefix);
    let mut out: Vec<String> = Vec::new();
    let mut i: usize = 0;
    proof {
        assert(cs.subrange(0, cs.len() as int) =~= cs);
    }
    while i < comps.len()
        invariant
            i <= comps@.len(),
            comps@.len() == cs.len(),
            forall|k: int| 0 <= k < cs.len() ==> #[trigger] comps@[k]@ == cs[k],
            cs == pieces(rel@, Sep::Char('/')),
            mkdir_chain(cwd@, dest_parent@) == chain_from(prefix@, cs),
            match chain_from(acc@, cs.subrange(i as int, cs.len() as int)) {
                None => chain_from(prefix@, cs) is None,
                Some(rest) => chain_from(prefix@, cs) == Some(
                    out@.map_values(|s: String| s@) + rest,
                ),
            },
        decreases comps@.len() - i,
    {
        let ghost tail = cs.subrange(i as int, cs.len() as int);
        proof {
            assert(tail.drop_first() =~= cs.subrange(i + 1, cs.len() as int));
            assert(tail[0] == cs[i as int]);
        }
        if comps[i].len() == 0 {
            i = i + 1;
            continue;
        }
        let comp = string_of(&comps[i]);
        match safe_remote_child(acc.as_str(), comp.as_str()) {
            Err(_) => {
                proof {
                    assert(comp@ == tail[0]);
                    assert(chain_from(acc@, tail) is None);
                }
                return Err(PathError::EscapesDirectory);
            },
            Ok(next) => {
                let ghost before = out@.map_values(|s: String| s@);
                out.push(next.clone());
                acc = next;
                proof {
                    assert(out@.map_values(|s: String| s@) =~= before.push(acc@));
                    match chain_from(acc@, cs.subrange(i + 1, cs.len() as int)) {
                        None => {},
                        Some(rest) => {
                            assert(before + (seq![acc@] + rest) =~= before.push(acc@) + rest);
                        },
                    }
                }
            },
        }
        i = i + 1;
    }
    proof {
        assert(cs.subrange(cs.len() as int, cs.len() as int) =~= Seq::<Seq<char>>::empty());
        assert(out@.map_values(|s: String| s@) + Seq::<Seq<char>>::empty() =~= out@.map_values(|s: String| s@));
    }
    Ok(out)
}

/// A path component made safe for the local edit cache: every character
/// other than ASCII letters, digits, `.`, `-` and `_` becomes `_`; empty,
/// `.` and `..` become `_`.
pub open spec fn sanitized(s: Seq<char>) -> Seq<char> {
    let m = s.map_values(|c: char| if is_alnum(c) || c == '.' || c == '-' || c == '_' { c } else { '_' });
    if m.len() == 0 || is_dot_name(m) {
        seq!['_']
    } else {
        m
    }
}

/// Replaces unsafe characters of one cache path component.
pub fn sanitize_component(s: &str) -> (r: String)
    ensures
        r@ == sanitized(s@),
{
    proof {
        lemma_lits();
    }
    let cs = chars_of(s);
    let ghost m = cs@.map_values(|c: char| if is_alnum(c) || c == '.' || c == '-' || c == '_' { c } else { '_' });
    let mut out: Vec<char> = Vec::new();
    let mut i: usize = 0;
    while i < cs.len()
        invariant
            i <= cs@.len(),
            m == cs@.map_values(|c: char| if is_alnum(c) || c == '.' || c == '-' || c == '_' { c } else { '_' }),
            out@ == m.subrange(0, i as int),
        decreases cs@.len() - i,
    {
        let c = cs[i];
        let keep = ('0' <= c && c <= '9') || ('a' <= c && c <= 'z') || ('A' <= c && c <= 'Z')
            || c == '.' || c == '-' || c == '_';
        if keep {
            out.push(c);
        } else {
            out.push('_');
        }
        proof {
            assert(m.subrange(0, i + 1) =~= m.subrange(0, i as int).push(m[i as int]));
        }
        i = i + 1;
    }
    proof {
        assert(m.subrange(0, cs@.len() as int) =~= m);
    }
    if out.len() == 0 || is_dot_or_dotdot_chars(&out) {
        String::from_str("_")
    } else {
        string_of(&out)
    }
}

/// The pieces of a remote path kept for the cache path: not empty, `.` or `..`.
pub open spec fn cache_parts(ps: Seq<Seq<char>>) -> Seq<Seq<char>> {
    ps.filter(|p: Seq<char>| p.len() > 0 && !is_dot_name(p))
}

/// `base` with each part, sanitised, joined on in turn.
pub open spec fn join_sanitized(base: Seq<char>, parts: Seq<Seq<char>>) -> Seq<char>
    decreases parts.len(),
{
    if parts.len() == 0 {
        base
    } else {
        path_join(join_sanitized(base, parts.drop_last()), sanitized(parts.last()))
    }
}

/// The local cache file for editing `remote_path` of `host:port` under `root`.
pub open spec fn cache_path(root: Seq<char>, host: Seq<char>, port: u16, remote_path: Seq<char>) -> Seq<char> {
    let base = path_join(root, sanitized(host) + seq!['_'] + decimal(port as nat));
    let parts = cache_parts(pieces(remote_path, Sep::Slashes));
    if parts.len() == 0 {
        path_join(base, seq!['f', 'i', 'l', 'e'])
    } else {
        join_sanitized(base, parts)
    }
}

/// Where a remote file is cached for editing: `<root>/<host>_<port>/<parts…>`,
/// every part sanitised, empty / `.` / `..` parts dropped, `file` when none remain.
pub fn edit_cache_path(root: &str, host: &str, port: u16, remote_path: &str) -> (r: String)
    ensures
        r@ == cache_path(root@, host@, port, remote_path@),
{
    proof {
        lemma_lits();
    }
    let h = sanitize_component(host);
    let p = u64_to_decimal(port as u64);
    let dir = concat3(h.as_str(), "_", p.as_str());
    let mut path = local_join(root, dir.as_str());
    let ghost base = path@;
    let rc = chars_of(remote_path);
    let ps = split_pieces(&rc, Sep::Slashes);
    let ghost all = pieces(rc@, Sep::Slashes);
    let ghost pred = |p: Seq<char>| p.len() > 0 && !is_dot_name(p);
    let mut pushed = false;
    let mut i: usize = 0;
    while i < ps.len()
        invariant
            i <= ps@.len(),
            ps@.len() == all.len(),
            forall|k: int| 0 <= k < all.len() ==> #[trigger] ps@[k]@ == all[k],
            pred == (|p: Seq<char>| p.len() > 0 && !is_dot_name(p)),
            path@ == join_sanitized(base, all.take(i as int).filter(pred)),
            pushed == (all.take(i as int).filter(pred).len() > 0),
        decreases ps@.len() - i,
    {
        proof {
            assert(all.take(i + 1) =~= all.take(i as int).push(all[i as int]));
            all.take(i as int).lemma_filter_push(all[i as int], pred);
        }
        let part = &ps[i];
        if part.len() == 0 || is_dot_or_dotdot_chars(part) {
            i = i + 1;
            continue;
        }
        let ps_s = string_of(part);
        let clean = sanitize_component(ps_s.as_str());
        path = local_join(path.as_str(), clean.as_str());
        pushed = true;
        proof {
            let f = all.take(i + 1).filter(pred);
            assert(f.drop_last() == all.take(i as int).filter(pred));
            assert(f.last() == all[i as int]);
        }
        i = i + 1;
    }
    proof {
        assert(all.take(all.len() as int) =~= all);
    }
    if !pushed {
        path = local_join(path.as_str(), "file");
        proof {
            reveal_strlit("file");
            assert("file"@ =~= seq!['f', 'i', 'l', 'e']);
            assert(all.filter(pred) =~= Seq::<Seq<char>>::empty());
        }
    }
    path
}

} // verus!
