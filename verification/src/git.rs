//! The git command lines that capture and apply changes.

use vstd::prelude::*;

use crate::error::WtError;

verus! {

/// The texts of a sequence of strings.
pub open spec fn texts(v: Seq<String>) -> Seq<Seq<char>> {
    v.map_values(|s: String| s@)
}

/// The arguments of the git command that captures changes as a binary diff:
/// staged changes with `--cached`, and the pathspecs, when there are any,
/// after `--`.
pub open spec fn diff_args_spec(staged: bool, paths: Seq<Seq<char>>) -> Seq<Seq<char>> {
    seq!["diff"@, "--binary"@] + (if staged {
        seq!["--cached"@]
    } else {
        Seq::empty()
    }) + (if paths.len() > 0 {
        seq!["--"@] + paths
    } else {
        Seq::empty()
    })
}

/// The arguments of the git command that applies a binary diff read from its
/// standard input: to the index too, with `--index`, when staged changes are
/// applied.
pub open spec fn apply_args_spec(staged: bool) -> Seq<Seq<char>> {
    seq!["apply"@, "--binary"@] + (if staged {
        seq!["--index"@]
    } else {
        Seq::empty()
    })
}

/// The environment variables that tie git to one repository; they are
/// cleared for each git command, so that git finds the repository of the
/// directory that it runs in.
pub open spec fn git_repository_env_vars_spec() -> Seq<Seq<char>> {
    seq![
        "GIT_ALTERNATE_OBJECT_DIRECTORIES"@,
        "GIT_OBJECT_DIRECTORY"@,
        "GIT_DIR"@,
        "GIT_WORK_TREE"@,
        "GIT_IMPLICIT_WORK_TREE"@,
        "GIT_INDEX_FILE"@,
        "GIT_PREFIX"@,
        "GIT_SHALLOW_FILE"@,
        "GIT_COMMON_DIR"@,
    ]
}

/// The arguments of the git command that captures staged or unstaged changes
/// under `paths` (see `diff_args_spec`).
pub fn diff(staged: bool, paths: &Vec<String>) -> (r: Vec<String>)
    ensures
        texts(r@) == diff_args_spec(staged, texts(paths@)),
{
    let mut args: Vec<String> = Vec::new();
    args.push(String::from_str("diff"));
    args.push(String::from_str("--binary"));
    if staged {
        args.push(String::from_str("--cached"));
    }
    let ghost head = texts(args@);
    if paths.len() > 0 {
        args.push(String::from_str("--"));
        let ghost with_sep = texts(args@);
        let mut i: usize = 0;
        while i < paths.len()
            invariant
                i <= paths@.len(),
                texts(args@) == with_sep + texts(paths@).take(i as int),
            decreases paths@.len() - i,
        {
            let ghost before = args@;
            args.push(paths[i].clone());
            proof {
                assert(args@ == before.push(paths@[i as int]));
                assert(texts(args@) =~= texts(before).push(paths@[i as int]@));
                assert(texts(args@) =~= with_sep + texts(paths@).take(i + 1));
            }
            i = i + 1;
        }
        proof {
            assert(texts(paths@).take(i as int) =~= texts(paths@));
        }
    }
    proof {
        assert(texts(args@) =~= diff_args_spec(staged, texts(paths@)));
    }
    args
}

/// The arguments of the git command that applies a captured diff (see
/// `apply_args_spec`).
pub fn apply_args(staged: bool) -> (r: Vec<String>)
    ensures
        texts(r@) == apply_args_spec(staged),
{
    let mut args: Vec<String> = Vec::new();
    args.push(String::from_str("apply"));
    args.push(String::from_str("--binary"));
    if staged {
        args.push(String::from_str("--index"));
    }
    proof {
        assert(texts(args@) =~= apply_args_spec(staged));
    }
    args
}

/// The environment variables to clear for each git command (see
/// `git_repository_env_vars_spec`).
pub fn git_repository_env_vars() -> (r: Vec<String>)
    ensures
        texts(r@) == git_repository_env_vars_spec(),
{
    let mut vars: Vec<String> = Vec::new();
    vars.push(String::from_str("GIT_ALTERNATE_OBJECT_DIRECTORIES"));
    vars.push(String::from_str("GIT_OBJECT_DIRECTORY"));
    vars.push(String::from_str("GIT_DIR"));
    vars.push(String::from_str("GIT_WORK_TREE"));
    vars.push(String::from_str("GIT_IMPLICIT_WORK_TREE"));
    vars.push(String::from_str("GIT_INDEX_FILE"));
    vars.push(String::from_str("GIT_PREFIX"));
    vars.push(String::from_str("GIT_SHALLOW_FILE"));
    vars.push(String::from_str("GIT_COMMON_DIR"));
    proof {
        assert(texts(vars@) =~= git_repository_env_vars_spec());
    }
    vars
}

/// Whether `c` is white space, as `char::is_whitespace` has it: the chars of
/// the Unicode White_Space property.
pub open spec fn white_space(c: char) -> bool {
    ||| ('\t' <= c && c <= '\r')
    ||| c == ' '
    ||| c == '\u{85}'
    ||| c == '\u{a0}'
    ||| c == '\u{1680}'
    ||| ('\u{2000}' <= c && c <= '\u{200a}')
    ||| c == '\u{2028}'
    ||| c == '\u{2029}'
    ||| c == '\u{202f}'
    ||| c == '\u{205f}'
    ||| c == '\u{3000}'
}

/// `s` without its leading white space.
pub open spec fn trim_start_spec(s: Seq<char>) -> Seq<char>
    decreases s.len(),
{
    if s.len() > 0 && white_space(s[0]) {
        trim_start_spec(s.drop_first())
    } else {
        s
    }
}

/// `s` without its trailing white space.
pub open spec fn trim_end_spec(s: Seq<char>) -> Seq<char>
    decreases s.len(),
{
    if s.len() > 0 && white_space(s.last()) {
        trim_end_spec(s.drop_last())
    } else {
        s
    }
}

/// `s` without leading and trailing white space, as `str::trim` gives it.
pub open spec fn trim_spec(s: Seq<char>) -> Seq<char> {
    trim_end_spec(trim_start_spec(s))
}

/// Whether `c` is white space (see `white_space`).
pub fn is_white_space(c: char) -> (r: bool)
    ensures
        r == white_space(c),
{
    ('\t' <= c && c <= '\r') || c == ' ' || c == '\u{85}' || c == '\u{a0}' || c == '\u{1680}' || (
    '\u{2000}' <= c && c <= '\u{200a}') || c == '\u{2028}' || c == '\u{2029}' || c == '\u{202f}'
        || c == '\u{205f}' || c == '\u{3000}'
}

/// `s` without leading and trailing white space (see `trim_spec`).
pub fn trim(s: &str) -> (r: String)
    ensures
        r@ == trim_spec(s@),
{
    let n = s.unicode_len();
    let mut lo: usize = 0;
    proof {
        assert(s@.skip(0) =~= s@);
    }
    while lo < n && is_white_space(s.get_char(lo))
        invariant
            lo <= n,
            n == s@.len(),
            trim_start_spec(s@) == trim_start_spec(s@.skip(lo as int)),
        decreases n - lo,
    {
        proof {
            assert(s@.skip(lo as int).drop_first() =~= s@.skip(lo + 1));
        }
        lo = lo + 1;
    }
    proof {
        assert(trim_start_spec(s@) == s@.subrange(lo as int, n as int)) by {
            assert(s@.skip(lo as int) =~= s@.subrange(lo as int, n as int));
        }
    }
    let mut hi: usize = n;
    while hi > lo && is_white_space(s.get_char(hi - 1))
        invariant
            lo <= hi <= n,
            n == s@.len(),
            trim_spec(s@) == trim_end_spec(s@.subrange(lo as int, hi as int)),
        decreases hi,
    {
        proof {
            let t = s@.subrange(lo as int, hi as int);
            assert(t.last() == s@[hi - 1]);
            assert(t.drop_last() =~= s@.subrange(lo as int, hi - 1));
        }
        hi = hi - 1;
    }
    String::from_str(s.substring_char(lo, hi))
}

/// The failure that git reports on its standard error `stderr`: its text
/// without surrounding white space.
pub fn git_failure(stderr: &str) -> (r: WtError)
    ensures
        r matches WtError::Other { message } && message@ == trim_spec(stderr@),
{
    WtError::Other { message: trim(stderr) }
}

} // verus!
