//! Whole-name wildcard matching. A pattern is the final segment of a mask;
//! each `*` in it stands for zero or more arbitrary characters, every other
//! character stands for itself, and the whole name has to be covered — a
//! match against a mere substring does not count.

use vstd::prelude::*;

verus! {

/// Whether `name` is covered in full by `pattern`, where `*` stands for zero
/// or more arbitrary characters.
pub open spec fn glob_match(pattern: Seq<char>, name: Seq<char>) -> bool
    decreases pattern.len() + name.len(),
{
    if pattern.len() == 0 {
        name.len() == 0
    } else if pattern[0] == '*' {
        glob_match(pattern.skip(1), name) || (name.len() > 0 && glob_match(
            pattern,
            name.skip(1),
        ))
    } else {
        name.len() > 0 && pattern[0] == name[0] && glob_match(pattern.skip(1), name.skip(1))
    }
}

/// Whether `s` holds at least one `*`.
pub open spec fn has_star(s: Seq<char>) -> bool {
    exists|i: int| 0 <= i < s.len() && s[i] == '*'
}

/// The bare pattern `*` covers every name.
pub proof fn lemma_star_matches_all(name: Seq<char>)
    ensures
        glob_match(seq!['*'], name),
    decreases name.len(),
{
    reveal_with_fuel(glob_match, 3);
    let p = seq!['*'];
    assert(p.skip(1) =~= Seq::<char>::empty());
    if name.len() == 0 {
        assert(glob_match(p.skip(1), name));
    } else {
        lemma_star_matches_all(name.skip(1));
    }
}

/// A pattern without any `*` covers exactly one name: itself.
pub proof fn lemma_plain_pattern_is_literal(pattern: Seq<char>, name: Seq<char>)
    requires
        !has_star(pattern),
    ensures
        glob_match(pattern, name) <==> pattern =~= name,
    decreases pattern.len() + name.len(),
{
    if pattern.len() == 0 {
    } else {
        assert(pattern[0] != '*');
        assert(!has_star(pattern.skip(1))) by {
            if has_star(pattern.skip(1)) {
                let i = choose|i: int|
                    0 <= i < pattern.skip(1).len() && pattern.skip(1)[i] == '*';
                assert(pattern[i + 1] == '*');
            }
        }
        if name.len() > 0 {
            let ps = pattern.skip(1);
            let ns = name.skip(1);
            lemma_plain_pattern_is_literal(ps, ns);
            if glob_match(pattern, name) {
                assert forall|k: int| 0 <= k < pattern.len() implies pattern[k] == name[k] by {
                    if k > 0 {
                        assert(ps[k - 1] == ns[k - 1]);
                    }
                }
                assert(pattern =~= name);
            }
            if pattern =~= name {
                assert forall|k: int| 0 <= k < ps.len() implies ps[k] == ns[k] by {
                    assert(pattern[k + 1] == name[k + 1]);
                }
                assert(ps =~= ns);
            }
        }
    }
}

fn chars_of(s: &str) -> (r: Vec<char>)
    ensures
        r@ == s@,
{
    let n = s.unicode_len();
    let mut v: Vec<char> = Vec::new();
    let mut i: usize = 0;
    while i < n
        invariant
            i <= n,
            n == s@.len(),
            v@ =~= s@.take(i as int),
        decreases n - i,
    {
        v.push(s.get_char(i));
        i = i + 1;
    }
    proof {
        assert(v@ =~= s@);
    }
    v
}

fn glob_match_at(pattern: &Vec<char>, name: &Vec<char>, i: usize, j: usize) -> (b: bool)
    requires
        i <= pattern.len(),
        j <= name.len(),
    ensures
        b == glob_match(pattern@.skip(i as int), name@.skip(j as int)),
    decreases pattern@.len() - i + name@.len() - j,
{
    proof {
        if i < pattern@.len() {
            assert(pattern@.skip(i as int)[0] == pattern@[i as int]);
            assert(pattern@.skip(i as int).skip(1) =~= pattern@.skip(i as int + 1));
        }
        if j < name@.len() {
            assert(name@.skip(j as int)[0] == name@[j as int]);
            assert(name@.skip(j as int).skip(1) =~= name@.skip(j as int + 1));
        }
    }
    if i == pattern.len() {
        j == name.len()
    } else if pattern[i] == '*' {
        if glob_match_at(pattern, name, i + 1, j) {
            true
        } else if j < name.len() {
            glob_match_at(pattern, name, i, j + 1)
        } else {
            false
        }
    } else if j < name.len() && pattern[i] == name[j] {
        glob_match_at(pattern, name, i + 1, j + 1)
    } else {
        false
    }
}

/// Whether `name` is covered in full by `pattern`.
pub fn wildcard_match(pattern: &str, name: &str) -> (b: bool)
    ensures
        b == glob_match(pattern@, name@),
{
    let p = chars_of(pattern);
    let n = chars_of(name);
    let b = glob_match_at(&p, &n, 0, 0);
    proof {
        assert(p@.skip(0) =~= pattern@);
        assert(n@.skip(0) =~= name@);
    }
    b
}

/// Whether `s` holds at least one `*`.
pub fn contains_star(s: &str) -> (b: bool)
    ensures
        b == has_star(s@),
{
    let n = s.unicode_len();
    let mut i: usize = 0;
    while i < n
        invariant
            i <= n,
            n == s@.len(),
            forall|j: int| 0 <= j < i ==> s@[j] != '*',
        decreases n - i,
    {
        if s.get_char(i) == '*' {
            return true;
        }
        i = i + 1;
    }
    false
}

} // verus!
