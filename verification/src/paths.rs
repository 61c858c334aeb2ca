//! Path arithmetic on plain strings: joining a base directory with a
//! relative path, and taking the base name (the part after the last `/`)
//! of a path.

use vstd::prelude::*;

verus! {

/// The path obtained by resolving `rel` against the directory `base`:
/// `rel` itself when it is absolute or `base` is empty, otherwise
/// `base`, a single separator, and `rel`.
pub open spec fn join_of(base: Seq<char>, rel: Seq<char>) -> Seq<char> {
    if rel.len() > 0 && rel[0] == '/' {
        rel
    } else if base.len() == 0 {
        rel
    } else if base.last() == '/' {
        base + rel
    } else {
        base + seq!['/'] + rel
    }
}

/// The base name of a path: everything after the last `/`, the whole
/// path when it has no `/`, and empty when it ends in `/`.
pub open spec fn basename_of(p: Seq<char>) -> Seq<char>
    decreases p.len(),
{
    if p.len() == 0 {
        p
    } else if p.last() == '/' {
        Seq::<char>::empty()
    } else {
        basename_of(p.drop_last()).push(p.last())
    }
}

/// When no separator occurs at or after position `i`, and `i` is either the
/// start of the path or just past a separator, the base name is exactly the
/// suffix starting at `i`.
proof fn lemma_basename_is_suffix(p: Seq<char>, i: int)
    requires
        0 <= i <= p.len(),
        forall|k: int| i <= k < p.len() ==> p[k] != '/',
        i == 0 || p[i - 1] == '/',
    ensures
        basename_of(p) == p.subrange(i, p.len() as int),
    decreases p.len(),
{
    if p.len() == 0 {
        assert(p.subrange(0, 0) =~= p);
    } else if i == p.len() {
        assert(p.last() == '/');
        assert(p.subrange(i, p.len() as int) =~= Seq::<char>::empty());
    } else {
        assert(p.last() == p[p.len() - 1] && p[p.len() - 1] != '/');
        let q = p.drop_last();
        lemma_basename_is_suffix(q, i);
        assert(q.subrange(i, q.len() as int).push(p.last()) =~= p.subrange(
            i,
            p.len() as int,
        ));
    }
}

/// Joins a relative path onto a base directory, with a single `/` between
/// them; an absolute `rel` or an empty `base` gives `rel` back.
pub fn join_path(base: &str, rel: &str) -> (r: String)
    ensures
        r@ == join_of(base@, rel@),
{
    proof {
        reveal_strlit("/");
    }
    let rel_len = rel.unicode_len();
    if rel_len > 0 && rel.get_char(0) == '/' {
        return String::from_str(rel);
    }
    let base_len = base.unicode_len();
    if base_len == 0 {
        return String::from_str(rel);
    }
    let mut r = String::from_str(base);
    if base.get_char(base_len - 1) != '/' {
        r.append("/");
        assert(r@ =~= base@ + seq!['/']);
    }
    r.append(rel);
    assert(r@ =~= join_of(base@, rel@));
    r
}

/// The base name of a path: everything after the last `/`.
pub fn basename(p: &str) -> (r: String)
    ensures
        r@ == basename_of(p@),
{
    let n = p.unicode_len();
    let mut i = n;
    while i > 0 && p.get_char(i - 1) != '/'
        invariant
            0 <= i <= n,
            n == p@.len(),
            forall|k: int| i <= k < n ==> p@[k] != '/',
        decreases i,
    {
        i = i - 1;
    }
    proof {
        lemma_basename_is_suffix(p@, i as int);
    }
    String::from_str(p.substring_char(i, n))
}

} // verus!
