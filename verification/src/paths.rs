//! Path handling over plain text: a path is a sequence of characters, its
//! segments separated by `/`. Only the split around the last separator
//! matters to the engine: the final segment (the base name) and what stands
//! before it (the parent directory).

use vstd::prelude::*;

verus! {

/// Index of the last `/` in `p`, or `-1` if `p` holds none.
pub open spec fn last_sep(p: Seq<char>) -> int
    decreases p.len(),
{
    if p.len() == 0 {
        -1
    } else if p[p.len() - 1] == '/' {
        p.len() - 1
    } else {
        last_sep(p.drop_last())
    }
}

/// The final segment of `p`: everything after the last `/`, or the whole of
/// `p` when it has no separator. `None` when that segment is empty.
pub open spec fn base_name(p: Seq<char>) -> Option<Seq<char>> {
    let rest = p.subrange(last_sep(p) + 1, p.len() as int);
    if rest.len() == 0 {
        None
    } else {
        Some(rest)
    }
}

/// The directory part of `p`: everything before the last `/`. A path whose
/// only separator is its first character has the root `/` as its parent; a
/// path without a separator has none.
pub open spec fn parent_dir(p: Seq<char>) -> Option<Seq<char>> {
    let i = last_sep(p);
    if i < 0 {
        None
    } else if i == 0 {
        Some(seq!['/'])
    } else {
        Some(p.subrange(0, i))
    }
}

/// `dir` and `name` glued with a single `/` between them.
pub open spec fn joined(dir: Seq<char>, name: Seq<char>) -> Seq<char> {
    dir + seq!['/'] + name
}

/// `last_sep` points at a separator, and nothing after it is one.
pub proof fn lemma_last_sep(p: Seq<char>)
    ensures
        -1 <= last_sep(p) < p.len(),
        last_sep(p) >= 0 ==> p[last_sep(p)] == '/',
        forall|j: int| last_sep(p) < j < p.len() ==> p[j] != '/',
    decreases p.len(),
{
    if p.len() == 0 {
    } else if p[p.len() - 1] == '/' {
    } else {
        lemma_last_sep(p.drop_last());
        assert forall|j: int| last_sep(p) < j < p.len() implies p[j] != '/' by {
            if j < p.len() - 1 {
                assert(p.drop_last()[j] == p[j]);
            }
        }
    }
}

/// A separator with none after it is the last one.
pub proof fn lemma_last_sep_at(p: Seq<char>, k: int)
    requires
        0 <= k < p.len(),
        p[k] == '/',
        forall|j: int| k < j < p.len() ==> p[j] != '/',
    ensures
        last_sep(p) == k,
    decreases p.len(),
{
    if k == p.len() - 1 {
    } else {
        assert forall|j: int| k < j < p.drop_last().len() implies p.drop_last()[j] != '/' by {
            assert(p.drop_last()[j] == p[j]);
        }
        lemma_last_sep_at(p.drop_last(), k);
    }
}

/// A path without any separator has `last_sep` of `-1`.
pub proof fn lemma_last_sep_none(p: Seq<char>)
    requires
        forall|j: int| 0 <= j < p.len() ==> p[j] != '/',
    ensures
        last_sep(p) == -1,
    decreases p.len(),
{
    if p.len() > 0 {
        assert forall|j: int| 0 <= j < p.drop_last().len() implies p.drop_last()[j] != '/' by {
            assert(p.drop_last()[j] == p[j]);
        }
        lemma_last_sep_none(p.drop_last());
    }
}

/// Joining a directory with a separator-free, non-empty name splits back into
/// exactly that name and (for a non-empty directory) that directory.
pub proof fn lemma_joined_splits(dir: Seq<char>, name: Seq<char>)
    requires
        name.len() > 0,
        forall|j: int| 0 <= j < name.len() ==> name[j] != '/',
    ensures
        base_name(joined(dir, name)) == Some(name),
        dir.len() > 0 ==> parent_dir(joined(dir, name)) == Some(dir),
        dir.len() == 0 ==> parent_dir(joined(dir, name)) == Some(seq!['/']),
{
    let p = joined(dir, name);
    assert(p[dir.len() as int] == '/');
    assert forall|j: int| dir.len() < j < p.len() implies p[j] != '/' by {
        assert(p[j] == name[j - dir.len() - 1]);
    }
    lemma_last_sep_at(p, dir.len() as int);
    assert(p.subrange(dir.len() as int + 1, p.len() as int) =~= name);
    if dir.len() > 0 {
        assert(p.subrange(0, dir.len() as int) =~= dir);
    }
}

/// Index of the last `/` in `p`, executable form.
fn last_sep_idx(p: &str) -> (r: Option<usize>)
    ensures
        match r {
            Some(i) => last_sep(p@) == i as int,
            None => last_sep(p@) == -1,
        },
{
    let n = p.unicode_len();
    let mut i: usize = n;
    while i > 0
        invariant
            i <= n,
            n == p@.len(),
            forall|j: int| i <= j < n ==> p@[j] != '/',
        decreases i,
    {
        i = i - 1;
        if p.get_char(i) == '/' {
            proof {
                lemma_last_sep_at(p@, i as int);
            }
            return Some(i);
        }
    }
    proof {
        lemma_last_sep_none(p@);
    }
    None
}

/// The final segment of `path` as fresh text, or `None` when it is empty.
pub fn base_name_of(path: &str) -> (r: Option<String>)
    ensures
        match r {
            Some(s) => base_name(path@) == Some(s@),
            None => base_name(path@) is None,
        },
{
    proof {
        lemma_last_sep(path@);
    }
    let n = path.unicode_len();
    let start: usize = match last_sep_idx(path) {
        Some(i) => i + 1,
        None => 0,
    };
    if start == n {
        None
    } else {
        let s = String::from_str(path.substring_char(start, n));
        Some(s)
    }
}

/// The directory part of `path`, or `None` when it has no separator.
pub fn parent_of(path: &str) -> (r: Option<String>)
    ensures
        match r {
            Some(s) => parent_dir(path@) == Some(s@),
            None => parent_dir(path@) is None,
        },
{
    proof {
        lemma_last_sep(path@);
    }
    match last_sep_idx(path) {
        None => None,
        Some(i) => {
            if i == 0 {
                let root = String::from_str("/");
                proof {
                    reveal_strlit("/");
                    assert(root@ =~= seq!['/']);
                }
                Some(root)
            } else {
                Some(String::from_str(path.substring_char(0, i)))
            }
        },
    }
}

/// `dir` and `name` glued with a single `/` between them.
pub fn join_path(dir: &str, name: &str) -> (r: String)
    ensures
        r@ == joined(dir@, name@),
{
    let mut s = String::from_str(dir);
    s.append("/");
    s.append(name);
    proof {
        reveal_strlit("/");
        assert(s@ =~= joined(dir@, name@));
    }
    s
}

} // verus!
