//! What holds of the commands across their steps, and of worktree placement.

use vstd::prelude::*;

use crate::flow::{accepts_spec, branch_of, step_spec, wf, Action, Command, Event, Flow, Stage};
use crate::git::{apply_args_spec, diff_args_spec, git_repository_env_vars_spec};
use crate::paths::{absolute, canonical, join_spec, file_name_spec, last_index_of, lemma_last_index_of, parent_spec};
use crate::worktree::{
    linked_rows_spec, row_spec, LinkedView, MainWorktree, listing_spec, dashed, first_with_branch, leftovers_spec, linked_views, opt_view, plan_paths_spec,
    PendingWorktree,
};

verus! {

/// How many more steps a flow can take at most.
pub open spec fn remaining(f: Flow) -> nat {
    match f.stage {
        Stage::Done => 0,
        Stage::Completing => 1,
        Stage::Reporting { .. } => 1,
        Stage::Listing { .. } => 2,
        Stage::Applying { .. } => 1,
        Stage::Deleting => 1,
        Stage::Targeting => 2,
        Stage::Inspecting { .. } => 2,
        Stage::Materializing => 3,
        Stage::SearchingRemoval => 3,
        Stage::Resolving { .. } => 4,
        Stage::Probing { .. } => 5,
        Stage::Searching { .. } => 6,
        Stage::Locating => 7,
        Stage::Diffing => 8,
        Stage::Sourcing => 9,
        Stage::Discovering => 10,
    }
}

/// Every step brings a command closer to its end, and the action it asks for
/// is `Finish` exactly when the command is over: no command takes more than
/// ten steps.
pub proof fn law_step_progresses(f: Flow, e: Event, next: Flow, act: Action)
    requires
        wf(f),
        accepts_spec(f, e),
        step_spec(f, e, next, act),
    ensures
        remaining(next) < remaining(f),
        act is Finish <==> next.stage is Done,
{
}

/// A failure of any outside work ends the command with that failure.
pub proof fn law_failure_ends_command(f: Flow, error: crate::error::WtError, next: Flow, act: Action)
    requires
        wf(f),
        accepts_spec(f, Event::Failed { error }),
        step_spec(f, Event::Failed { error }, next, act),
    ensures
        next.stage is Done,
        act == (Action::Finish { result: Err(error) }),
{
}

/// A finished command waits for nothing more.
pub proof fn law_finished_is_final(f: Flow, e: Event)
    requires
        f.stage is Done,
    ensures
        !accepts_spec(f, e),
{
}

/// A run of a command: each flow follows from the one before and the
/// outcome of the work that it asked for, starting from what `run` gives.
pub open spec fn is_run(flows: Seq<Flow>, events: Seq<Event>, actions: Seq<Action>) -> bool {
    &&& flows.len() == events.len() + 1
    &&& actions.len() == events.len() + 1
    &&& (flows[0].stage is Discovering && actions[0] is Discover || flows[0].stage is Completing
        && actions[0] is Completions)
    &&& wf(flows[0])
    &&& forall|i: int|
        0 <= i < events.len() ==> {
            &&& wf(#[trigger] flows[i])
            &&& accepts_spec(flows[i], events[i])
            &&& step_spec(flows[i], events[i], flows[i + 1], actions[i + 1])
        }
}

/// A new worktree is planned (its paths probed) only for a branch that
/// neither the main worktree nor any linked worktree has checked out.
pub proof fn law_plans_only_unchecked_out_branches(
    flows: Seq<Flow>,
    events: Seq<Event>,
    actions: Seq<Action>,
    k: int,
)
    requires
        is_run(flows, events, actions),
        0 <= k < actions.len(),
        actions[k] is Probe,
    ensures
        k >= 2,
        match events[k - 2] {
            Event::Main { main } => opt_view(main.branch) != Some(branch_of(flows[k].command)),
            _ => false,
        },
        match events[k - 1] {
            Event::Linked { worktrees } => first_with_branch(
                linked_views(worktrees@),
                branch_of(flows[k].command),
            ) is None,
            _ => false,
        },
{
    assert(k >= 1);
    let j = k - 1;
    assert(wf(flows[j]));
    assert(step_spec(flows[j], events[j], flows[k], actions[k]));
    assert(flows[j].stage is Searching);
    assert(j >= 1);
    assert(wf(flows[j - 1]));
    assert(step_spec(flows[j - 1], events[j - 1], flows[j], actions[j]));
}

/// A worktree is created (and its branch with it) only right after the
/// branch was looked up, which follows a probe that found neither the new
/// worktree's path nor its administrative directory; and it is created at
/// exactly the probed paths.
pub proof fn law_creates_only_after_free_probe(
    flows: Seq<Flow>,
    events: Seq<Event>,
    actions: Seq<Action>,
    k: int,
)
    requires
        is_run(flows, events, actions),
        0 <= k < actions.len(),
        actions[k] is Materialize,
    ensures
        k >= 3,
        events[k - 2] == (Event::Probed { target_exists: false, admin_exists: false }),
        actions[k - 1] is ResolveBranch,
        match (actions[k - 2], actions[k]) {
            (Action::Probe { target, admin }, Action::Materialize { plan }) => plan.target_path@
                == target@ && plan.admin_dir@ == admin@,
            _ => false,
        },
{
    assert(k >= 1);
    let j = k - 1;
    assert(wf(flows[j]));
    assert(step_spec(flows[j], events[j], flows[k], actions[k]));
    assert(flows[j].stage is Resolving);
    assert(j >= 1);
    assert(wf(flows[j - 1]));
    assert(step_spec(flows[j - 1], events[j - 1], flows[j], actions[j]));
    assert(flows[j - 1].stage is Probing);
    assert(j - 1 >= 1);
    assert(wf(flows[j - 2]));
    assert(step_spec(flows[j - 2], events[j - 2], flows[j - 1], actions[j - 1]));
}

/// A new worktree creates its branch, at the current HEAD, exactly when the
/// lookup just before found no such branch.
pub proof fn law_branch_created_only_when_missing(
    flows: Seq<Flow>,
    events: Seq<Event>,
    actions: Seq<Action>,
    k: int,
)
    requires
        is_run(flows, events, actions),
        0 <= k < actions.len(),
        actions[k] is Materialize,
    ensures
        k >= 1,
        match (events[k - 1], actions[k]) {
            (Event::Branch { exists }, Action::Materialize { plan }) => plan.create_branch
                == !exists,
            _ => false,
        },
{
    assert(k >= 1);
    let j = k - 1;
    assert(wf(flows[j]));
    assert(step_spec(flows[j], events[j], flows[k], actions[k]));
}

/// A worktree is deleted only right after it was inspected, for changes
/// unless removal is forced, and found clean or removal was forced.
pub proof fn law_removes_only_clean_or_forced(
    flows: Seq<Flow>,
    events: Seq<Event>,
    actions: Seq<Action>,
    k: int,
)
    requires
        is_run(flows, events, actions),
        0 <= k < actions.len(),
        actions[k] is Delete,
    ensures
        k >= 2,
        match (flows[k].command, events[k - 1], actions[k - 1], actions[k]) {
            (
                Command::Remove { force, .. },
                Event::Inspected { dirty },
                Action::Inspect { base, check_changes },
                Action::Delete { base: deleted, .. },
            ) => (force || !dirty) && check_changes == !force && deleted == base,
            _ => false,
        },
{
    assert(k >= 1);
    let j = k - 1;
    assert(wf(flows[j]));
    assert(step_spec(flows[j], events[j], flows[k], actions[k]));
    assert(flows[j].stage is Inspecting);
    assert(j >= 1);
    assert(wf(flows[j - 1]));
    assert(step_spec(flows[j - 1], events[j - 1], flows[j], actions[j]));
}

/// Changes are applied only to a worktree other than the one they came from,
/// and only when there are changes.
pub proof fn law_fork_applies_elsewhere(
    flows: Seq<Flow>,
    events: Seq<Event>,
    actions: Seq<Action>,
    k: int,
)
    requires
        is_run(flows, events, actions),
        0 <= k < actions.len(),
        actions[k] is ApplyDiff,
    ensures
        k >= 1,
        match (flows[k].source, actions[k]) {
            (Some(source), Action::ApplyDiff { workdir, input, .. }) => workdir@ != source@
                && input@.len() > 0,
            _ => false,
        },
{
    assert(k >= 1);
    let j = k - 1;
    assert(wf(flows[j]));
    assert(step_spec(flows[j], events[j], flows[k], actions[k]));
}

/// The command finished, printing `text`.
pub open spec fn prints(f: Flow, act: Action, text: Seq<char>) -> bool {
    &&& f.stage is Done
    &&& act matches Action::Finish { result: Ok(out) } && out@ == text
}

/// A run carries out one command throughout.
pub proof fn lemma_command_kept(
    flows: Seq<Flow>,
    events: Seq<Event>,
    actions: Seq<Action>,
    j: int,
)
    requires
        is_run(flows, events, actions),
        0 <= j < flows.len(),
    ensures
        flows[j].command == flows[0].command,
    decreases j,
{
    if j > 0 {
        lemma_command_kept(flows, events, actions, j - 1);
        assert(wf(flows[j - 1]));
        assert(step_spec(flows[j - 1], events[j - 1], flows[j], actions[j]));
    }
}

/// A switch to a branch that a worktree has checked out prints that
/// worktree's path and ends there, creating nothing: the main worktree when
/// it has the branch, else the first linked worktree that has it.
pub proof fn law_switch_reuses_existing_worktree(
    flows: Seq<Flow>,
    events: Seq<Event>,
    actions: Seq<Action>,
    j: int,
)
    requires
        is_run(flows, events, actions),
        flows[0].command is Switch,
        0 <= j < events.len(),
    ensures
        flows[j].stage is Locating ==> match events[j] {
            Event::Main { main } => opt_view(main.branch) == Some(branch_of(flows[0].command))
                ==> prints(flows[j + 1], actions[j + 1], main.path@ + "\n"@),
            _ => true,
        },
        flows[j].stage is Searching ==> match events[j] {
            Event::Linked { worktrees } => match first_with_branch(
                linked_views(worktrees@),
                branch_of(flows[0].command),
            ) {
                Some(i) => prints(flows[j + 1], actions[j + 1], worktrees@[i].base@ + "\n"@),
                None => true,
            },
            _ => true,
        },
{
    lemma_command_kept(flows, events, actions, j);
    assert(wf(flows[j]));
    assert(step_spec(flows[j], events[j], flows[j + 1], actions[j + 1]));
}

/// Every git command runs without the variables that a git hook inherits and
/// that would tie it to another repository, among them `GIT_DIR` and
/// `GIT_INDEX_FILE`.
pub proof fn law_git_runs_free_of_hook_env()
    ensures
        git_repository_env_vars_spec().contains("GIT_DIR"@),
        git_repository_env_vars_spec().contains("GIT_INDEX_FILE"@),
{
    assert(git_repository_env_vars_spec()[2] == "GIT_DIR"@);
    assert(git_repository_env_vars_spec()[5] == "GIT_INDEX_FILE"@);
}

/// A listing whose reading of the linked worktrees fails still prints the
/// main worktree's row and the rows read before the failure, then, once that
/// is printed, reports the failure.
pub proof fn law_failed_listing_prints_what_was_read(
    flows: Seq<Flow>,
    events: Seq<Event>,
    actions: Seq<Action>,
    j: int,
)
    requires
        is_run(flows, events, actions),
        0 <= j < events.len(),
        flows[j].stage is Listing,
        events[j] is LinkedPartly,
    ensures
        match (flows[j].stage, events[j], actions[j + 1]) {
            (
                Stage::Listing { main },
                Event::LinkedPartly { worktrees, .. },
                Action::Print { text },
            ) => text@ == listing_spec(opt_view(main.branch), main.path@, linked_views(worktrees@)),
            _ => false,
        },
        j + 1 < events.len() && events[j + 1] is Printed ==> match events[j] {
            Event::LinkedPartly { error, .. } => actions[j + 2] == (Action::Finish {
                result: Err(error),
            }),
            _ => false,
        },
{
    assert(wf(flows[j]));
    assert(step_spec(flows[j], events[j], flows[j + 1], actions[j + 1]));
    if j + 1 < events.len() {
        assert(wf(flows[j + 1]));
        assert(step_spec(flows[j + 1], events[j + 1], flows[j + 2], actions[j + 2]));
    }
}

/// A worktree's name holds no `/`, has as many characters as its branch, and
/// keeps every other character.
pub proof fn law_worktree_name_is_flat(branch: Seq<char>)
    ensures
        dashed(branch).len() == branch.len(),
        forall|i: int| 0 <= i < branch.len() ==> #[trigger] dashed(branch)[i] != '/',
        forall|i: int|
            0 <= i < branch.len() && branch[i] != '/' ==> #[trigger] dashed(branch)[i]
                == branch[i],
{
}

/// Once committed, a worktree's creation leaves every directory it made.
pub proof fn law_committed_keeps_everything(p: PendingWorktree)
    requires
        p.committed,
    ensures
        leftovers_spec(p).len() == 0,
{
}

/// Until committed, a worktree's creation removes every directory it made.
pub proof fn law_uncommitted_removes_what_was_made(p: PendingWorktree)
    requires
        !p.committed,
    ensures
        p.target_path matches Some(t) ==> leftovers_spec(p).contains(t),
        p.admin_dir matches Some(a) ==> leftovers_spec(p).contains(a),
{
    if p.target_path is Some {
        assert(leftovers_spec(p)[0] == p.target_path->0);
    }
    if p.admin_dir is Some {
        assert(leftovers_spec(p).last() == p.admin_dir->0);
    }
}

/// Where `c` stands last in `s`.
proof fn lemma_last_index_is(s: Seq<char>, c: char, k: int)
    requires
        0 <= k < s.len(),
        s[k] == c,
        forall|j: int| k < j < s.len() ==> s[j] != c,
    ensures
        last_index_of(s, c) == k,
{
    lemma_last_index_of(s, c);
}

/// Without a path, a new worktree goes next to the main worktree: it has the
/// main worktree's parent, and its name is the branch's name with each `/`
/// replaced by `-`.
pub proof fn law_default_target_is_sibling(
    branch: Seq<char>,
    main_path: Seq<char>,
    common_dir: Seq<char>,
)
    requires
        canonical(main_path),
        plan_paths_spec(branch, None, main_path, common_dir) is Ok,
    ensures
        ({
            let target = plan_paths_spec(branch, None, main_path, common_dir)->Ok_0.0;
            &&& parent_spec(target) == parent_spec(main_path)
            &&& file_name_spec(target) == Some(dashed(branch))
        }),
{
    let target = plan_paths_spec(branch, None, main_path, common_dir)->Ok_0.0;
    let root = parent_spec(main_path)->Some_0;
    let name = dashed(branch);
    law_worktree_name_is_flat(branch);
    lemma_last_index_of(main_path, '/');
    let k = last_index_of(main_path, '/');
    if k == 0 {
        assert(target =~= seq!['/'] + name);
        lemma_last_index_is(target, '/', 0);
        assert(target.skip(1) =~= name);
    } else {
        assert(root =~= main_path.take(k));
        assert(root.last() == main_path[k - 1]);
        assert(main_path[k - 1] != '/') by {
            assert(!crate::paths::bad_component_at(main_path, k));
        }
        assert(target =~= root + seq!['/'] + name);
        lemma_last_index_is(target, '/', root.len() as int);
        assert(target.take(root.len() as int) =~= root);
        assert(target.skip(root.len() + 1int) =~= name);
    }
}

/// The layout of the arguments that capture changes: `diff --binary`, then
/// `--cached` exactly when staged changes are captured, then, when there are
/// pathspecs, the separator `--` followed by exactly the pathspecs, in order;
/// nothing else.
pub proof fn law_diff_args_layout(staged: bool, paths: Seq<Seq<char>>)
    ensures
        ({
            let a = diff_args_spec(staged, paths);
            let k: int = if staged {
                3
            } else {
                2
            };
            &&& a.len() >= k
            &&& a[0] == "diff"@
            &&& a[1] == "--binary"@
            &&& staged ==> a[2] == "--cached"@
            &&& paths.len() == 0 ==> a.len() == k
            &&& paths.len() > 0 ==> a.len() == k + 1 + paths.len() && a[k] == "--"@ && a.skip(k
                + 1) == paths
        }),
{
    let a = diff_args_spec(staged, paths);
    let k: int = if staged {
        3
    } else {
        2
    };
    if paths.len() > 0 {
        assert(a.skip(k + 1) =~= paths);
    }
}

/// The arguments that apply changes: `apply --binary`, then `--index`
/// exactly when staged changes are applied.
pub proof fn law_apply_args_layout(staged: bool)
    ensures
        apply_args_spec(staged).len() == (if staged {
            3int
        } else {
            2int
        }),
        apply_args_spec(staged)[0] == "apply"@,
        apply_args_spec(staged)[1] == "--binary"@,
        staged ==> apply_args_spec(staged)[2] == "--index"@,
{
}

/// The rows of linked worktrees are one row per worktree, in order: no
/// worktrees give no rows, one gives its row, and the rows of two runs of
/// worktrees one after the other are the rows of the first run followed by
/// those of the second.
pub proof fn law_listing_has_a_row_per_worktree(v: Seq<LinkedView>, w: Seq<LinkedView>, x: LinkedView)
    ensures
        linked_rows_spec(Seq::empty()) == Seq::<char>::empty(),
        linked_rows_spec(seq![x]) == row_spec(x.branch, x.base),
        linked_rows_spec(v + w) == linked_rows_spec(v) + linked_rows_spec(w),
    decreases w.len(),
{
    assert(seq![x].drop_last() =~= Seq::<LinkedView>::empty());
    if w.len() == 0 {
        assert(v + w =~= v);
        assert(linked_rows_spec(v) + linked_rows_spec(w) =~= linked_rows_spec(v));
    } else {
        law_listing_has_a_row_per_worktree(v, w.drop_last(), x);
        assert((v + w).drop_last() =~= v + w.drop_last());
        assert((v + w).last() == w.last());
        assert(linked_rows_spec(v + w) =~= linked_rows_spec(v) + linked_rows_spec(w));
    }
}

/// A listing is the main worktree's row followed by one row per linked
/// worktree, in order.
pub proof fn law_listing_starts_with_main(
    main_branch: Option<Seq<char>>,
    main_path: Seq<char>,
    v: Seq<LinkedView>,
    x: LinkedView,
)
    ensures
        listing_spec(main_branch, main_path, Seq::empty()) == row_spec(main_branch, main_path),
        listing_spec(main_branch, main_path, v.push(x)) == listing_spec(main_branch, main_path, v)
            + row_spec(x.branch, x.base),
{
    law_listing_has_a_row_per_worktree(v, seq![x], x);
    assert(v.push(x) =~= v + seq![x]);
    assert(listing_spec(main_branch, main_path, Seq::empty()) =~= row_spec(main_branch, main_path));
}

/// Inspecting a worktree to remove: a forced removal, or a clean worktree, is
/// deleted (the inspected checkout and its administrative directory); an
/// unforced removal of a worktree with changes is refused with `HasChanges`.
pub proof fn law_removal_decision(f: Flow, dirty: bool, next: Flow, act: Action)
    requires
        wf(f),
        accepts_spec(f, Event::Inspected { dirty }),
        step_spec(f, Event::Inspected { dirty }, next, act),
    ensures
        match (f.stage, f.command) {
            (Stage::Inspecting { base, admin }, Command::Remove { force, branch }) => (force
                || !dirty ==> act == (Action::Delete { base, admin_dir: admin })) && (!force
                && dirty ==> act == (Action::Finish {
                result: Err(crate::error::WtError::HasChanges { branch }),
            })),
            _ => false,
        },
{
}

/// Where a new worktree for `branch` is probed: the requested `path` when it
/// is absolute, the requested path under the main worktree's parent `root`
/// when it is relative, and the branch's dashed name under `root` when no
/// path is requested; its administrative directory is
/// `<common dir>/worktrees/<dashed name>`.
pub open spec fn probes_new_worktree(
    act: Action,
    main: MainWorktree,
    branch: Seq<char>,
    path: Option<Seq<char>>,
) -> bool {
    let root = parent_spec(main.path@)->Some_0;
    act matches Action::Probe { target, admin } && admin@ == join_spec(
        join_spec(main.common_dir@, "worktrees"@),
        dashed(branch),
    ) && target@ == match path {
        Some(p) => if absolute(p) {
            p
        } else {
            join_spec(root, p)
        },
        None => join_spec(root, dashed(branch)),
    }
}

/// `add`, `switch` and `fork` put a new worktree where their PATH argument
/// says (see `probes_new_worktree`), once no worktree has the branch.
pub proof fn law_new_worktree_goes_to_path(
    f: Flow,
    worktrees: Vec<crate::worktree::LinkedWorktree>,
    next: Flow,
    act: Action,
)
    requires
        wf(f),
        accepts_spec(f, Event::Linked { worktrees }),
        step_spec(f, Event::Linked { worktrees }, next, act),
        f.stage matches Stage::Searching { main } && parent_spec(main.path@) is Some,
        first_with_branch(linked_views(worktrees@), branch_of(f.command)) is None,
        branch_of(f.command).len() > 0,
    ensures
        match (f.stage, f.command) {
            (Stage::Searching { main }, Command::Add { branch, path }) => probes_new_worktree(
                act,
                main,
                branch@,
                opt_view(path),
            ),
            (Stage::Searching { main }, Command::Switch { branch, path }) => probes_new_worktree(
                act,
                main,
                branch@,
                opt_view(path),
            ),
            (Stage::Searching { main }, Command::Fork { branch, path, .. }) => probes_new_worktree(
                act,
                main,
                branch@,
                opt_view(path),
            ),
            _ => false,
        },
{
}

} // verus!
