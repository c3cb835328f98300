//! Worktree naming, placement, metadata and listing.

use vstd::prelude::*;

use crate::error::WtError;
use crate::paths::{
    absolute, canonical, file_name, file_name_spec, is_absolute, join, join_spec, parent,
    parent_spec,
};

verus! {

/// The main worktree of a repository, as read from disk.
#[derive(Debug)]
pub struct MainWorktree {
    /// Canonical path of the main worktree.
    pub path: String,
    /// Short name of the branch checked out there; none when HEAD is detached.
    pub branch: Option<String>,
    /// Canonical path of the repository's common git directory.
    pub common_dir: String,
}

/// A linked worktree of a repository, as read from disk.
#[derive(Debug)]
pub struct LinkedWorktree {
    /// Path of the linked worktree's checkout.
    pub base: String,
    /// Canonical path of its administrative directory under `worktrees/`.
    pub admin_dir: String,
    /// Short name of the branch checked out there; none when HEAD is detached.
    pub branch: Option<String>,
}

/// The textual model of a linked worktree.
pub ghost struct LinkedView {
    pub base: Seq<char>,
    pub admin_dir: Seq<char>,
    pub branch: Option<Seq<char>>,
}

/// The view of an optional string.
pub open spec fn opt_view(s: Option<String>) -> Option<Seq<char>> {
    match s {
        Some(s) => Some(s@),
        None => None,
    }
}

impl View for LinkedWorktree {
    type V = LinkedView;

    open spec fn view(&self) -> LinkedView {
        LinkedView { base: self.base@, admin_dir: self.admin_dir@, branch: opt_view(self.branch) }
    }
}

/// The models of a sequence of linked worktrees.
pub open spec fn linked_views(v: Seq<LinkedWorktree>) -> Seq<LinkedView> {
    v.map_values(|w: LinkedWorktree| w@)
}

/// The full name of the local branch `branch`.
pub open spec fn branch_ref_spec(branch: Seq<char>) -> Seq<char> {
    "refs/heads/"@ + branch
}

/// `s` with each `/` replaced by `-`.
pub open spec fn dashed(s: Seq<char>) -> Seq<char> {
    s.map_values(|c: char| if c == '/' { '-' } else { c })
}

/// The full name of the local branch `branch`.
pub fn branch_ref(branch: &str) -> (r: String)
    ensures
        r@ == branch_ref_spec(branch@),
{
    String::from_str("refs/heads/").concat(branch)
}

/// The directory name of a worktree for `branch`: the branch with each `/`
/// replaced by `-`. An empty branch has none.
pub fn worktree_name(branch: &str) -> (r: Result<String, WtError>)
    ensures
        branch@.len() == 0 <==> r is Err,
        r matches Err(e) ==> e is EmptyBranch,
        r matches Ok(name) ==> name@ == dashed(branch@),
{
    let n = branch.unicode_len();
    if n == 0 {
        return Err(WtError::EmptyBranch);
    }
    let mut name = String::new();
    let mut start: usize = 0;
    let mut i: usize = 0;
    while i < n
        invariant
            n == branch@.len(),
            start <= i <= n,
            name@.len() == start,
            forall|j: int| 0 <= j < start ==> #[trigger] name@[j] == dashed(branch@)[j],
            forall|j: int| start <= j < i ==> #[trigger] branch@[j] != '/',
        decreases n - i,
    {
        if branch.get_char(i) == '/' {
            let ghost before = name@;
            name.append(branch.substring_char(start, i));
            name.append("-");
            proof {
                reveal_strlit("-");
                assert forall|j: int| 0 <= j < i + 1 implies #[trigger] name@[j] == dashed(
                    branch@,
                )[j] by {
                    if j < start {
                        assert(name@[j] == before[j]);
                    } else if j < i {
                        assert(name@[j] == branch@[j]);
                    }
                }
            }
            start = i + 1;
        }
        i = i + 1;
    }
    let ghost before = name@;
    name.append(branch.substring_char(start, n));
    proof {
        assert forall|j: int| 0 <= j < n implies #[trigger] name@[j] == dashed(branch@)[j] by {
            if j < start {
                assert(name@[j] == before[j]);
            } else {
                assert(name@[j] == branch@[j]);
            }
        }
        assert(name@ =~= dashed(branch@));
    }
    Ok(name)
}

/// The main worktree's path for a repository whose common git directory is
/// `common_dir`: a common directory that is not named `.git` belongs to a bare
/// repository; otherwise the main worktree is its parent.
pub open spec fn main_worktree_path_spec(common_dir: Seq<char>) -> Result<Seq<char>, WtError> {
    if file_name_spec(common_dir) != Some(".git"@) {
        Err(WtError::BareRepository)
    } else {
        match parent_spec(common_dir) {
            Some(p) => Ok(p),
            None => Err(WtError::UnresolvedMainWorktree),
        }
    }
}

/// The main worktree's path for the canonical common git directory
/// `common_dir` (see `main_worktree_path_spec`).
pub fn main_worktree_path(common_dir: &str) -> (r: Result<String, WtError>)
    requires
        canonical(common_dir@),
    ensures
        r matches Ok(p) ==> main_worktree_path_spec(common_dir@) == Ok::<Seq<char>, WtError>(p@),
        r matches Err(e) ==> main_worktree_path_spec(common_dir@) == Err::<Seq<char>, WtError>(e),
{
    let is_git_dir = match file_name(common_dir) {
        Some(name) => name == String::from_str(".git"),
        None => false,
    };
    if !is_git_dir {
        return Err(WtError::BareRepository);
    }
    match parent(common_dir) {
        Some(p) => Ok(p),
        None => Err(WtError::UnresolvedMainWorktree),
    }
}

/// Whether the main worktree at `main` sits directly in `cwd`.
pub open spec fn is_root_of(cwd: Seq<char>, main: Seq<char>) -> bool {
    parent_spec(main) == Some(cwd)
}

/// Picks the one main worktree, among `mains` (the main worktrees found in the
/// subdirectories of the canonical directory `cwd`), that sits directly in
/// `cwd`: none is an error, and so are two different ones; the same one found
/// twice counts once.
pub fn select_worktree_root(cwd: &str, mains: &Vec<String>) -> (r: Result<String, WtError>)
    requires
        canonical(cwd@),
        forall|i: int| 0 <= i < mains@.len() ==> canonical(#[trigger] mains@[i]@),
    ensures
        r matches Ok(root) ==> {
            &&& exists|i: int| 0 <= i < mains@.len() && #[trigger] mains@[i]@ == root@
            &&& is_root_of(cwd@, root@)
            &&& forall|i: int|
                0 <= i < mains@.len() && is_root_of(cwd@, #[trigger] mains@[i]@) ==> mains@[i]@
                    == root@
        },
        r matches Err(e) ==> {
            ||| e is NotInRepository && forall|i: int|
                0 <= i < mains@.len() ==> !is_root_of(cwd@, #[trigger] mains@[i]@)
            ||| e is MultipleRoots && exists|i: int, j: int|
                0 <= i < mains@.len() && 0 <= j < mains@.len() && is_root_of(
                    cwd@,
                    #[trigger] mains@[i]@,
                ) && is_root_of(cwd@, #[trigger] mains@[j]@) && mains@[i]@ != mains@[j]@
        },
{
    let mut found: Option<usize> = None;
    let mut i: usize = 0;
    while i < mains.len()
        invariant
            i <= mains@.len(),
            canonical(cwd@),
            forall|k: int| 0 <= k < mains@.len() ==> canonical(#[trigger] mains@[k]@),
            found matches Some(f) ==> f < i && is_root_of(cwd@, mains@[f as int]@),
            found matches Some(f) ==> forall|k: int|
                0 <= k < i && is_root_of(cwd@, #[trigger] mains@[k]@) ==> mains@[k]@
                    == mains@[f as int]@,
            found is None ==> forall|k: int|
                0 <= k < i ==> !is_root_of(cwd@, #[trigger] mains@[k]@),
        decreases mains@.len() - i,
    {
        let up = parent(mains[i].as_str());
        let qualifies = match up {
            Some(p) => p == String::from_str(cwd),
            None => false,
        };
        if qualifies {
            match found {
                None => {
                    found = Some(i);
                },
                Some(f) => {
                    if mains[i] != mains[f] {
                        assert(is_root_of(cwd@, mains@[i as int]@));
                        return Err(WtError::MultipleRoots);
                    }
                },
            }
        }
        i = i + 1;
    }
    match found {
        Some(f) => Ok(mains[f].clone()),
        None => Err(WtError::NotInRepository),
    }
}

/// The index of the first worktree in `v` that has `branch` checked out.
pub open spec fn first_with_branch(v: Seq<LinkedView>, branch: Seq<char>) -> Option<int>
    decreases v.len(),
{
    if v.len() == 0 {
        None
    } else {
        match first_with_branch(v.drop_last(), branch) {
            Some(i) => Some(i),
            None => if v.last().branch == Some(branch) {
                Some(v.len() - 1)
            } else {
                None
            },
        }
    }
}

/// What `first_with_branch` finds: an index whose branch is `branch` and
/// before which none is, or none when no worktree has it.
pub proof fn lemma_first_with_branch(v: Seq<LinkedView>, branch: Seq<char>)
    ensures
        first_with_branch(v, branch) matches Some(i) ==> 0 <= i < v.len() && v[i].branch == Some(
            branch,
        ) && forall|j: int| 0 <= j < i ==> v[j].branch != Some(branch),
        first_with_branch(v, branch) is None ==> forall|j: int|
            0 <= j < v.len() ==> v[j].branch != Some(branch),
    decreases v.len(),
{
    if v.len() > 0 {
        lemma_first_with_branch(v.drop_last(), branch);
        assert forall|j: int| 0 <= j < v.len() - 1 implies v[j] == v.drop_last()[j] by {}
    }
}

/// A worktree found in a prefix stays the first one found in the whole.
proof fn lemma_first_with_branch_prefix(v: Seq<LinkedView>, branch: Seq<char>, k: int)
    requires
        0 <= k <= v.len(),
        first_with_branch(v.take(k), branch) is Some,
    ensures
        first_with_branch(v, branch) == first_with_branch(v.take(k), branch),
    decreases v.len() - k,
{
    if k < v.len() {
        assert(v.take(k + 1).drop_last() =~= v.take(k));
        lemma_first_with_branch_prefix(v, branch, k + 1);
    } else {
        assert(v.take(k) =~= v);
    }
}

/// Finds the first linked worktree that has `branch` checked out.
pub fn find_branch(linked: &Vec<LinkedWorktree>, branch: &str) -> (r: Option<usize>)
    ensures
        r matches Some(i) ==> first_with_branch(linked_views(linked@), branch@) == Some(i as int)
            && i < linked@.len(),
        r is None ==> first_with_branch(linked_views(linked@), branch@) is None,
        r matches Some(i) ==> opt_view(linked@[i as int].branch) == Some(branch@) && forall|j: int|
            0 <= j < i ==> opt_view(#[trigger] linked@[j].branch) != Some(branch@),
        r is None ==> forall|j: int|
            0 <= j < linked@.len() ==> opt_view(#[trigger] linked@[j].branch) != Some(branch@),
{
    let ghost views = linked_views(linked@);
    let mut i: usize = 0;
    while i < linked.len()
        invariant
            i <= linked@.len(),
            views == linked_views(linked@),
            first_with_branch(views.take(i as int), branch@) is None,
        decreases linked@.len() - i,
    {
        proof {
            assert(views.take(i + 1).drop_last() =~= views.take(i as int));
            assert(views.take(i + 1).last() == linked@[i as int]@);
        }
        let matches = match &linked[i].branch {
            Some(b) => b.as_str().unicode_len() == branch.unicode_len() && str_equal(b.as_str(), branch),
            None => false,
        };
        if matches {
            proof {
                lemma_first_with_branch_prefix(views, branch@, i + 1);
                lemma_first_with_branch(views, branch@);
                assert(views[i as int].branch == opt_view(linked@[i as int].branch));
                assert forall|j: int| 0 <= j < i implies opt_view(#[trigger] linked@[j].branch)
                    != Some(branch@) by {
                    assert(views[j].branch == opt_view(linked@[j].branch));
                }
            }
            return Some(i);
        }
        i = i + 1;
    }
    proof {
        assert(views.take(i as int) =~= views);
        lemma_first_with_branch(views, branch@);
        assert forall|j: int| 0 <= j < linked@.len() implies opt_view(#[trigger] linked@[j].branch)
            != Some(branch@) by {
            assert(views[j].branch == opt_view(linked@[j].branch));
        }
    }
    None
}

/// Whether `a` and `b` hold the same text.
pub fn str_equal(a: &str, b: &str) -> (r: bool)
    ensures
        r == (a@ == b@),
{
    let n = a.unicode_len();
    if n != b.unicode_len() {
        return false;
    }
    let mut i: usize = 0;
    while i < n
        invariant
            n == a@.len(),
            n == b@.len(),
            i <= n,
            forall|j: int| 0 <= j < i ==> a@[j] == b@[j],
        decreases n - i,
    {
        if a.get_char(i) != b.get_char(i) {
            return false;
        }
        i = i + 1;
    }
    proof {
        assert(a@ =~= b@);
    }
    true
}

/// How a worktree's branch is shown in a listing: its name, or `<detached>`.
pub open spec fn label_spec(branch: Option<Seq<char>>) -> Seq<char> {
    match branch {
        Some(b) => b,
        None => "<detached>"@,
    }
}

/// One listing row: the branch, a tab, the path and a newline.
pub open spec fn row_spec(branch: Option<Seq<char>>, path: Seq<char>) -> Seq<char> {
    label_spec(branch) + "\t"@ + path + "\n"@
}

/// The listing rows of linked worktrees, in their order.
pub open spec fn linked_rows_spec(v: Seq<LinkedView>) -> Seq<char>
    decreases v.len(),
{
    if v.len() == 0 {
        Seq::empty()
    } else {
        linked_rows_spec(v.drop_last()) + row_spec(v.last().branch, v.last().base)
    }
}

/// The listing of a repository: the main worktree's row, then one row for each
/// linked worktree.
pub open spec fn listing_spec(main_branch: Option<Seq<char>>, main_path: Seq<char>, linked: Seq<
    LinkedView,
>) -> Seq<char> {
    row_spec(main_branch, main_path) + linked_rows_spec(linked)
}

/// One listing row (see `row_spec`).
fn row(branch: &Option<String>, path: &str) -> (r: String)
    ensures
        r@ == row_spec(opt_view(*branch), path@),
{
    let label = match branch {
        Some(b) => b.clone(),
        None => String::from_str("<detached>"),
    };
    label.concat("\t").concat(path).concat("\n")
}

/// The listing of a repository: `<branch><tab><path>` for the main worktree,
/// then for each linked worktree (see `listing_spec`).
pub fn write_list(main: &MainWorktree, linked: &Vec<LinkedWorktree>) -> (r: String)
    ensures
        r@ == listing_spec(opt_view(main.branch), main.path@, linked_views(linked@)),
{
    let ghost views = linked_views(linked@);
    let mut out = row(&main.branch, main.path.as_str());
    let ghost head = out@;
    let mut i: usize = 0;
    proof {
        assert(views.take(0) =~= Seq::<LinkedView>::empty());
    }
    while i < linked.len()
        invariant
            i <= linked@.len(),
            views == linked_views(linked@),
            out@ == head + linked_rows_spec(views.take(i as int)),
        decreases linked@.len() - i,
    {
        let line = row(&linked[i].branch, linked[i].base.as_str());
        out.append(line.as_str());
        proof {
            assert(views.take(i + 1).drop_last() =~= views.take(i as int));
            assert(views.take(i + 1).last() == linked@[i as int]@);
            assert(out@ =~= head + linked_rows_spec(views.take(i + 1)));
        }
        i = i + 1;
    }
    proof {
        assert(views.take(i as int) =~= views);
    }
    out
}

/// The files that link a new worktree at `target` to its administrative
/// directory `admin`, as (path, contents) pairs: the worktree's `.git` file
/// points to `admin`; `admin/gitdir` points back to the worktree's `.git`;
/// `admin/commondir` points two levels up to the common directory; and
/// `admin/HEAD` names the branch.
pub open spec fn link_files_spec(target: Seq<char>, admin: Seq<char>, branch_ref: Seq<char>) -> Seq<
    (Seq<char>, Seq<char>),
> {
    seq![
        (join_spec(target, ".git"@), "gitdir: "@ + admin + "\n"@),
        (join_spec(admin, "gitdir"@), join_spec(target, ".git"@) + "\n"@),
        (join_spec(admin, "commondir"@), "../..\n"@),
        (join_spec(admin, "HEAD"@), "ref: "@ + branch_ref + "\n"@),
    ]
}

/// The files that link a new worktree to its administrative directory (see
/// `link_files_spec`).
pub fn link_files(target: &str, admin: &str, branch_ref: &str) -> (r: Vec<(String, String)>)
    ensures
        r@.len() == 4,
        forall|k: int|
            0 <= k < 4 ==> #[trigger] r@[k].0@ == link_files_spec(target@, admin@, branch_ref@)[k].0
                && r@[k].1@ == link_files_spec(target@, admin@, branch_ref@)[k].1,
{
    let dot_git = join(target, ".git");
    let mut files: Vec<(String, String)> = Vec::new();
    files.push(
        (dot_git.clone(), String::from_str("gitdir: ").concat(admin).concat("\n")),
    );
    files.push((join(admin, "gitdir"), dot_git.concat("\n")));
    files.push((join(admin, "commondir"), String::from_str("../..\n")));
    files.push(
        (join(admin, "HEAD"), String::from_str("ref: ").concat(branch_ref).concat("\n")),
    );
    files
}

/// Where a new worktree for `branch` goes: an absolute `dir` as it is, a
/// relative `dir` under `root` (the directory that holds the main worktree),
/// and without `dir`, the worktree's name under `root`. Without `root` only
/// an absolute `dir` has a place.
pub open spec fn target_spec(dir: Option<Seq<char>>, root: Option<Seq<char>>, name: Seq<char>) -> Option<
    Seq<char>,
> {
    match dir {
        Some(d) => if absolute(d) {
            Some(d)
        } else {
            match root {
                Some(r) => Some(join_spec(r, d)),
                None => None,
            }
        },
        None => match root {
            Some(r) => Some(join_spec(r, name)),
            None => None,
        },
    }
}

/// The paths of a new worktree for `branch`: its checkout (see `target_spec`)
/// and its administrative directory `worktrees/<name>` under the common
/// directory. An empty branch is refused first, then a missing `root`.
pub open spec fn plan_paths_spec(
    branch: Seq<char>,
    dir: Option<Seq<char>>,
    main_path: Seq<char>,
    common_dir: Seq<char>,
) -> Result<(Seq<char>, Seq<char>), WtError> {
    if branch.len() == 0 {
        Err(WtError::EmptyBranch)
    } else {
        match target_spec(dir, parent_spec(main_path), dashed(branch)) {
            None => Err(WtError::NoParentDirectory),
            Some(t) => Ok((t, join_spec(join_spec(common_dir, "worktrees"@), dashed(branch)))),
        }
    }
}

/// The paths of a new worktree for `branch` next to the canonical main
/// worktree `main` (see `plan_paths_spec`).
pub fn plan_paths(branch: &str, dir: &Option<String>, main: &MainWorktree) -> (r: Result<
    (String, String),
    WtError,
>)
    requires
        canonical(main.path@),
    ensures
        r matches Ok(p) ==> plan_paths_spec(branch@, opt_view(*dir), main.path@, main.common_dir@)
            == Ok::<(Seq<char>, Seq<char>), WtError>((p.0@, p.1@)),
        r matches Err(e) ==> plan_paths_spec(
            branch@,
            opt_view(*dir),
            main.path@,
            main.common_dir@,
        ) == Err::<(Seq<char>, Seq<char>), WtError>(e),
{
    let name = match worktree_name(branch) {
        Ok(name) => name,
        Err(e) => return Err(e),
    };
    let target = match dir {
        Some(d) => {
            if is_absolute(d.as_str()) {
                d.clone()
            } else {
                match parent(main.path.as_str()) {
                    Some(root) => join(root.as_str(), d.as_str()),
                    None => return Err(WtError::NoParentDirectory),
                }
            }
        },
        None => match parent(main.path.as_str()) {
            Some(root) => join(root.as_str(), name.as_str()),
            None => return Err(WtError::NoParentDirectory),
        },
    };
    let admin = join(join(main.common_dir.as_str(), "worktrees").as_str(), name.as_str());
    Ok((target, admin))
}

/// What is known of a worktree that is about to be created: its branch's full
/// name, where it goes, its administrative directory, and whether the branch
/// must be created at the current HEAD.
#[derive(Debug)]
pub struct CreatePlan {
    pub branch_ref: String,
    pub target_path: String,
    pub admin_dir: String,
    pub create_branch: bool,
}

/// The directories made while a worktree is created, to be removed again
/// unless creation is committed.
#[derive(Debug)]
pub struct PendingWorktree {
    pub target_path: Option<String>,
    pub admin_dir: Option<String>,
    pub committed: bool,
}

/// The directories to remove when creation stops: none once committed, else
/// the recorded checkout and then the recorded administrative directory.
pub open spec fn leftovers_spec(p: PendingWorktree) -> Seq<String> {
    if p.committed {
        Seq::empty()
    } else {
        (match p.target_path {
            Some(t) => seq![t],
            None => Seq::empty(),
        }) + (match p.admin_dir {
            Some(a) => seq![a],
            None => Seq::empty(),
        })
    }
}

impl PendingWorktree {
    /// Nothing made yet, nothing committed.
    pub fn new() -> (r: Self)
        ensures
            r.target_path is None,
            r.admin_dir is None,
            !r.committed,
    {
        PendingWorktree { target_path: None, admin_dir: None, committed: false }
    }

    /// Records the worktree's checkout directory once it is made.
    pub fn record_target(&mut self, path: String)
        ensures
            final(self).target_path == Some(path),
            final(self).admin_dir == old(self).admin_dir,
            final(self).committed == old(self).committed,
    {
        self.target_path = Some(path);
    }

    /// Records the worktree's administrative directory once it is made.
    pub fn record_admin(&mut self, path: String)
        ensures
            final(self).admin_dir == Some(path),
            final(self).target_path == old(self).target_path,
            final(self).committed == old(self).committed,
    {
        self.admin_dir = Some(path);
    }

    /// Marks the creation as complete: nothing is removed afterwards.
    pub fn commit(&mut self)
        ensures
            final(self).committed,
            final(self).target_path == old(self).target_path,
            final(self).admin_dir == old(self).admin_dir,
    {
        self.committed = true;
    }

    /// The directories to remove when creation stops (see `leftovers_spec`).
    pub fn leftovers(&self) -> (r: Vec<String>)
        ensures
            r@ == leftovers_spec(*self),
    {
        let mut r: Vec<String> = Vec::new();
        if self.committed {
            proof {
                assert(r@ =~= leftovers_spec(*self));
            }
            return r;
        }
        match &self.target_path {
            Some(t) => r.push(t.clone()),
            None => {},
        }
        match &self.admin_dir {
            Some(a) => r.push(a.clone()),
            None => {},
        }
        proof {
            assert(r@ =~= leftovers_spec(*self));
        }
        r
    }
}

impl Default for PendingWorktree {
    fn default() -> (r: Self)
        ensures
            r.target_path is None,
            r.admin_dir is None,
            !r.committed,
    {
        PendingWorktree::new()
    }
}

} // verus!
