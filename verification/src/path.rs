//! Byte-level model of filesystem paths.
//!
//! Every comparison in this crate is keyed on paths held as plain byte
//! strings.  A canonical path is absolute (`/`-rooted) and, except for the
//! root itself, carries no trailing separator, so a component-wise
//! ancestor test reduces to a byte-prefix test followed by a look at the
//! byte just past the prefix.

use vstd::prelude::*;

verus! {

/// The path separator byte, `/`.
pub const SEP: u8 = 47;

/// `q` is a byte-prefix of `p`.
pub open spec fn is_prefix(q: Seq<u8>, p: Seq<u8>) -> bool {
    q.len() <= p.len() && p.subrange(0, q.len() as int) == q
}

/// `p` equals `q` or lies below it in the directory tree: `q` is a byte
/// prefix of `p` and the prefix stops on a component boundary.  The root
/// path (a single separator) is an ancestor of every path it prefixes.
pub open spec fn path_under(p: Seq<u8>, q: Seq<u8>) -> bool {
    is_prefix(q, p)
    && (p.len() == q.len() || p[q.len() as int] == SEP || q == seq![SEP])
}

/// `s` with one trailing separator removed: the canonical form of a
/// directory path that the engine reported with the separator still on
/// it.  The root path, a bare separator, stays as it is.
pub open spec fn strip_sep_spec(s: Seq<u8>) -> Seq<u8> {
    if s.len() > 1 && s[s.len() - 1] == SEP {
        s.drop_last()
    } else {
        s
    }
}

/// Removes one trailing separator, per [`strip_sep_spec`].
pub fn strip_trailing_sep(v: Vec<u8>) -> (r: Vec<u8>)
    ensures
        r@ == strip_sep_spec(v@),
{
    let mut w = v;
    if w.len() > 1 && w[w.len() - 1] == SEP {
        w.pop();
    }
    w
}

/// Every path equals or lies below itself.
pub proof fn lemma_path_under_refl(p: Seq<u8>)
    ensures
        path_under(p, p),
{
    assert(p.subrange(0, p.len() as int) =~= p);
}

/// Whether some element of `s` holds exactly the bytes `p`.
pub open spec fn seq_contains_path(s: Seq<Vec<u8>>, p: Seq<u8>) -> bool {
    exists|i: int| 0 <= i < s.len() && #[trigger] s[i]@ == p
}

/// Whether some element of `v` holds exactly the bytes of `p`, per
/// [`seq_contains_path`].
pub fn contains_path(v: &Vec<Vec<u8>>, p: &Vec<u8>) -> (r: bool)
    ensures
        r == seq_contains_path(v@, p@),
{
    let mut i: usize = 0;
    while i < v.len()
        invariant
            i <= v@.len(),
            forall|j: int| 0 <= j < i ==> #[trigger] v@[j]@ != p@,
        decreases v@.len() - i,
    {
        if bytes_eq(&v[i], p) {
            return true;
        }
        i += 1;
    }
    false
}

/// Byte-string equality, element by element.
pub fn bytes_eq(a: &Vec<u8>, b: &Vec<u8>) -> (r: bool)
    ensures
        r == (a@ == b@),
{
    if a.len() != b.len() {
        assert(a@ != b@);
        return false;
    }
    let mut i: usize = 0;
    while i < a.len()
        invariant
            i <= a.len(),
            a.len() == b.len(),
            forall|j: int| 0 <= j < i ==> a@[j] == b@[j],
        decreases a.len() - i,
    {
        if a[i] != b[i] {
            return false;
        }
        i += 1;
    }
    proof {
        assert(a@ =~= b@);
    }
    true
}

/// Whether `p` equals `q` or is nested under it, per [`path_under`].
pub fn is_under(p: &Vec<u8>, q: &Vec<u8>) -> (r: bool)
    ensures
        r == path_under(p@, q@),
{
    if q.len() > p.len() {
        return false;
    }
    let mut i: usize = 0;
    while i < q.len()
        invariant
            i <= q.len(),
            q.len() <= p.len(),
            forall|j: int| 0 <= j < i ==> p@[j] == q@[j],
        decreases q.len() - i,
    {
        if p[i] != q[i] {
            assert(p@.subrange(0, q@.len() as int)[i as int] != q@[i as int]);
            return false;
        }
        i += 1;
    }
    proof {
        assert(p@.subrange(0, q@.len() as int) =~= q@);
    }
    if p.len() == q.len() {
        true
    } else if p[q.len()] == SEP {
        true
    } else if q.len() == 1 && q[0] == SEP {
        proof {
            assert(q@ =~= seq![SEP]);
        }
        true
    } else {
        proof {
            assert(q@.len() != seq![SEP].len() || q@[0] != seq![SEP][0] ==> q@ != seq![SEP]);
        }
        false
    }
}

/// What joining `path` onto the working directory `cwd` yields: an
/// absolute `path` replaces `cwd`; a relative one is appended behind a
/// separator (none is doubled when `cwd` already ends in one).
pub open spec fn join_spec(cwd: Seq<u8>, path: Seq<u8>) -> Seq<u8> {
    if path.len() > 0 && path[0] == SEP {
        path
    } else if cwd.len() > 0 && cwd[cwd.len() - 1] == SEP {
        cwd + path
    } else {
        cwd + seq![SEP] + path
    }
}

/// Joins `path` onto `cwd`, per [`join_spec`].
pub fn join_cwd(cwd: &Vec<u8>, path: &Vec<u8>) -> (r: Vec<u8>)
    ensures
        r@ == join_spec(cwd@, path@),
{
    if path.len() > 0 && path[0] == SEP {
        let r = path.clone();
        assert(r@ =~= join_spec(cwd@, path@));
        return r;
    }
    let mut r = cwd.clone();
    if !(cwd.len() > 0 && cwd[cwd.len() - 1] == SEP) {
        r.push(SEP);
    }
    let mut i: usize = 0;
    while i < path.len()
        invariant
            i <= path.len(),
            r@ == (if cwd@.len() > 0 && cwd@[cwd@.len() - 1] == SEP {
                cwd@
            } else {
                cwd@ + seq![SEP]
            }) + path@.subrange(0, i as int),
        decreases path.len() - i,
    {
        let b = path[i];
        r.push(b);
        assert(path@.subrange(0, i + 1) =~= path@.subrange(0, i as int) + seq![b]);
        i += 1;
    }
    proof {
        assert(path@.subrange(0, path@.len() as int) =~= path@);
        assert(r@ =~= join_spec(cwd@, path@));
    }
    r
}

/// Canonicalizes a path for comparison against engine-reported paths:
/// `joined` is the query path already joined onto the working directory
/// (see [`join_cwd`]), and `resolved` is the outcome of the caller's
/// attempt to fully resolve that joined path on the filesystem.  A
/// successful resolution wins; a failed one falls back to the joined path
/// rather than failing the lookup.
pub fn reorient(joined: &Vec<u8>, resolved: &Option<Vec<u8>>) -> (r: Vec<u8>)
    ensures
        match resolved {
            Some(c) => r@ == c@,
            None => r@ == joined@,
        },
{
    match resolved {
        Some(c) => c.clone(),
        None => joined.clone(),
    }
}

} // verus!
