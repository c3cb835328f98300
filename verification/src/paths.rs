//! Unix path text: joining, parents and canonical form, over `String`s.

use vstd::prelude::*;

verus! {

/// A path is absolute when it begins at the root.
pub open spec fn absolute(p: Seq<char>) -> bool {
    p.len() > 0 && p[0] == '/'
}

/// `base` joined with `p`, as `PathBuf::push` does on Unix: an absolute `p`
/// replaces `base`; a relative one is appended, with a `/` in between unless
/// `base` is empty or already ends in one.
pub open spec fn join_spec(base: Seq<char>, p: Seq<char>) -> Seq<char> {
    if absolute(p) {
        p
    } else if base.len() == 0 || base.last() == '/' {
        base + p
    } else {
        base + seq!['/'] + p
    }
}

/// Returns whether `p` starts at the root.
pub fn is_absolute(p: &str) -> (r: bool)
    ensures
        r == absolute(p@),
{
    p.unicode_len() > 0 && p.get_char(0) == '/'
}

/// Joins `p` onto `base` (see `join_spec`).
pub fn join(base: &str, p: &str) -> (r: String)
    ensures
        r@ == join_spec(base@, p@),
{
    if is_absolute(p) {
        return String::from_str(p);
    }
    let n = base.unicode_len();
    if n == 0 || base.get_char(n - 1) == '/' {
        String::from_str(base).concat(p)
    } else {
        proof {
            reveal_strlit("/");
        }
        String::from_str(base).concat("/").concat(p)
    }
}

/// Index of the last occurrence of `c` in `p`, or -1 when there is none.
pub open spec fn last_index_of(p: Seq<char>, c: char) -> int
    decreases p.len(),
{
    if p.len() == 0 {
        -1
    } else if p.last() == c {
        p.len() - 1
    } else {
        last_index_of(p.drop_last(), c)
    }
}

/// Position `i` (from 1) of `p` starts an empty component (`//`) or a `.`
/// component.
pub open spec fn bad_component_at(p: Seq<char>, i: int) -> bool {
    p[i - 1] == '/' && (p[i] == '/' || (p[i] == '.' && (i + 1 == p.len() || p[i + 1] == '/')))
}

/// A canonical path, as `fs::canonicalize` produces it on Unix: absolute, no
/// empty components (no `//`, no trailing `/` but on the root itself) and no
/// `.` components.
pub open spec fn canonical(p: Seq<char>) -> bool {
    &&& absolute(p)
    &&& (p.len() == 1 || p.last() != '/')
    &&& forall|i: int| 1 <= i < p.len() ==> !#[trigger] bad_component_at(p, i)
}

/// The parent of a canonical path, as `Path::parent` gives it: none for the
/// root, the root for a path of one component, else everything before the
/// last `/`.
pub open spec fn parent_spec(p: Seq<char>) -> Option<Seq<char>> {
    if p.len() <= 1 {
        None
    } else if last_index_of(p, '/') == 0 {
        Some(seq!['/'])
    } else {
        Some(p.take(last_index_of(p, '/')))
    }
}

/// The last component of a canonical path, as `Path::file_name` gives it:
/// none for the root.
pub open spec fn file_name_spec(p: Seq<char>) -> Option<Seq<char>> {
    if p.len() <= 1 {
        None
    } else {
        Some(p.skip(last_index_of(p, '/') + 1))
    }
}

/// What `last_index_of` finds: -1 when `c` does not occur, else an index of
/// `c` after which `c` does not occur.
pub proof fn lemma_last_index_of(p: Seq<char>, c: char)
    ensures
        -1 <= last_index_of(p, c) < p.len(),
        last_index_of(p, c) >= 0 ==> p[last_index_of(p, c)] == c,
        forall|j: int| last_index_of(p, c) < j < p.len() ==> p[j] != c,
    decreases p.len(),
{
    if p.len() > 0 && p.last() != c {
        lemma_last_index_of(p.drop_last(), c);
        assert forall|j: int| last_index_of(p, c) < j < p.len() implies p[j] != c by {
            if j < p.len() - 1 {
                assert(p.drop_last()[j] == p[j]);
            }
        }
    }
}

/// Dropping a tail in which `c` does not occur leaves `last_index_of` alone.
proof fn lemma_last_index_of_take(p: Seq<char>, c: char, k: int)
    requires
        0 <= k <= p.len(),
        forall|j: int| k <= j < p.len() ==> p[j] != c,
    ensures
        last_index_of(p, c) == last_index_of(p.take(k), c),
    decreases p.len() - k,
{
    if k < p.len() {
        assert(p.take(k + 1).drop_last() =~= p.take(k));
        lemma_last_index_of_take(p, c, k + 1);
        assert(p.take(k + 1).last() == p[k]);
    } else {
        assert(p.take(k) =~= p);
    }
}

/// Returns whether `p` is canonical (see `canonical`).
pub fn is_canonical(p: &str) -> (r: bool)
    ensures
        r == canonical(p@),
{
    let n = p.unicode_len();
    if n == 0 || p.get_char(0) != '/' {
        return false;
    }
    if n > 1 && p.get_char(n - 1) == '/' {
        return false;
    }
    let mut i: usize = 1;
    while i < n
        invariant
            1 <= i <= n,
            n == p@.len(),
            absolute(p@),
            p@.len() == 1 || p@.last() != '/',
            forall|j: int| 1 <= j < i ==> !#[trigger] bad_component_at(p@, j),
        decreases n - i,
    {
        let prev = p.get_char(i - 1);
        let cur = p.get_char(i);
        if prev == '/' && cur == '/' {
            assert(bad_component_at(p@, i as int));
            return false;
        }
        if prev == '/' && cur == '.' && (i + 1 == n || p.get_char(i + 1) == '/') {
            assert(bad_component_at(p@, i as int));
            return false;
        }
        assert(!bad_component_at(p@, i as int));
        i = i + 1;
    }
    true
}

/// Position of the last `/` of an absolute path.
fn last_slash(p: &str) -> (r: usize)
    requires
        absolute(p@),
    ensures
        r as int == last_index_of(p@, '/'),
        r < p@.len(),
{
    let mut i: usize = p.unicode_len();
    proof {
        assert(p@.take(i as int) =~= p@);
    }
    while i > 0 && p.get_char(i - 1) != '/'
        invariant
            0 <= i <= p@.len(),
            absolute(p@),
            forall|j: int| i <= j < p@.len() ==> p@[j] != '/',
        decreases i,
    {
        i = i - 1;
    }
    proof {
        lemma_last_index_of_take(p@, '/', i as int);
        let q = p@.take(i as int);
        assert(q.len() == i);
        if i == 0 {
            assert(p@[0] == '/');
            assert(false);
        }
        assert(q.last() == '/');
    }
    i - 1
}

/// The parent of a canonical path (see `parent_spec`).
pub fn parent(p: &str) -> (r: Option<String>)
    requires
        canonical(p@),
    ensures
        r matches Some(s) ==> parent_spec(p@) == Some(s@),
        r is None <==> parent_spec(p@) is None,
{
    if p.unicode_len() <= 1 {
        return None;
    }
    let k = last_slash(p);
    if k == 0 {
        proof {
            reveal_strlit("/");
        }
        Some(String::from_str("/"))
    } else {
        Some(String::from_str(p.substring_char(0, k)))
    }
}

/// The last component of a canonical path (see `file_name_spec`).
pub fn file_name(p: &str) -> (r: Option<String>)
    requires
        canonical(p@),
    ensures
        r matches Some(s) ==> file_name_spec(p@) == Some(s@),
        r is None <==> file_name_spec(p@) is None,
{
    let n = p.unicode_len();
    if n <= 1 {
        return None;
    }
    let k = last_slash(p);
    Some(String::from_str(p.substring_char(k + 1, n)))
}

} // verus!
