//! The commands as state machines: `run` starts one, and `step` takes the
//! outcome of each piece of outside work (a git or file-system operation)
//! and decides the next one, until the command finishes.

use vstd::prelude::*;

use crate::error::WtError;
use crate::git::{apply_args, apply_args_spec, diff, diff_args_spec, texts};
use crate::init::{init_script, init_script_spec, InitShell};
use crate::paths::canonical;
use crate::worktree::{
    branch_ref, branch_ref_spec, find_branch, first_with_branch, linked_views, listing_spec,
    opt_view, plan_paths, plan_paths_spec, str_equal, write_list, CreatePlan, LinkedWorktree,
    MainWorktree,
};

verus! {

/// A command line, once parsed.
#[derive(Debug)]
pub enum Command {
    /// Print shell setup code.
    Init { shell: InitShell },
    /// Print all worktrees.
    List,
    /// Print a branch's worktree path, creating the worktree when needed.
    Switch { branch: String, path: Option<String> },
    /// Create a worktree for a branch.
    Add { branch: String, path: Option<String> },
    /// Remove a branch's linked worktree.
    Remove { force: bool, branch: String },
    /// Copy the current changes into a branch's worktree.
    Fork { branch: String, path: Option<String>, staged: bool, paths: Vec<String> },
}

/// The outside work that a command asks for next, or its end.
#[derive(Debug)]
pub enum Action {
    /// Generate the completion script for `shell`.
    Completions { shell: InitShell },
    /// Discover the repository of the current directory.
    Discover,
    /// Locate the main worktree and read its branch.
    FindMain,
    /// Read the linked worktrees, in order. With `branch`, reading may stop
    /// after the first worktree that has it checked out, and the
    /// administrative directories are given in canonical form.
    ListLinked { branch: Option<String> },
    /// Tell whether these paths exist.
    Probe { target: String, admin: String },
    /// Tell whether this branch exists.
    ResolveBranch { branch_ref: String },
    /// Create the planned worktree and check it out.
    Materialize { plan: CreatePlan },
    /// Open the worktree at `base`, and tell whether it has changes when
    /// `check_changes` is set.
    Inspect { base: String, check_changes: bool },
    /// Delete a worktree and its administrative directory.
    Delete { base: String, admin_dir: String },
    /// Canonicalize a path.
    Canonicalize { path: String },
    /// Run git with `args` in `workdir` and hand back what it prints.
    CaptureDiff { workdir: String, args: Vec<String> },
    /// Run git with `args` in `workdir`, feeding it `input`.
    ApplyDiff { workdir: String, args: Vec<String>, input: Vec<u8> },
    /// Print `text` now; the command goes on.
    Print { text: String },
    /// The command is over: print the text, or report the error.
    Finish { result: Result<String, WtError> },
}

/// The outcome of the outside work that was asked for.
#[derive(Debug)]
pub enum Event {
    Completions { text: String },
    Discovered { workdir: Option<String> },
    Main { main: MainWorktree },
    Linked { worktrees: Vec<LinkedWorktree> },
    Probed { target_exists: bool, admin_exists: bool },
    Branch { exists: bool },
    Created { path: String },
    Inspected { dirty: bool },
    Deleted,
    Canonical { path: String },
    Diff { bytes: Vec<u8> },
    Applied,
    /// The text was printed.
    Printed,
    /// Reading the linked worktrees for a listing failed with `error` after
    /// `worktrees` were read.
    LinkedPartly { worktrees: Vec<LinkedWorktree>, error: WtError },
    /// The outside work failed.
    Failed { error: WtError },
}

/// Where a command stands: what it waits for.
#[derive(Debug)]
pub enum Stage {
    /// Waits for the completion script.
    Completing,
    /// Waits for the repository.
    Discovering,
    /// Waits for the canonical source worktree of a fork.
    Sourcing,
    /// Waits for the captured changes of a fork.
    Diffing,
    /// Waits for the main worktree.
    Locating,
    /// Waits for the linked worktrees, to list them after `main`.
    Listing { main: MainWorktree },
    /// Waits for the linked worktrees, to find the branch among them.
    Searching { main: MainWorktree },
    /// Waits for the linked worktrees, to find the one to remove.
    SearchingRemoval,
    /// Waits to know whether the new worktree's paths exist.
    Probing { target: String, admin: String },
    /// Waits to know whether the branch exists.
    Resolving { target: String, admin: String },
    /// Waits for the new worktree.
    Materializing,
    /// Waits to know whether the worktree to remove has changes.
    Inspecting { base: String, admin: String },
    /// Waits for the deletion.
    Deleting,
    /// Waits for the canonical target worktree of a fork.
    Targeting,
    /// Waits for the changes to be applied at `target`.
    Applying { target: String },
    /// Waits for a partial listing to be printed, to report `error`.
    Reporting { error: WtError },
    /// Finished.
    Done,
}

/// A command in progress.
#[derive(Debug)]
pub struct Flow {
    pub command: Command,
    pub stage: Stage,
    /// A fork's canonical source worktree, once known.
    pub source: Option<String>,
    /// A fork's captured changes, once known.
    pub patch: Vec<u8>,
}

/// The branch that a command is about.
pub open spec fn branch_of(c: Command) -> Seq<char> {
    match c {
        Command::Switch { branch, .. } => branch@,
        Command::Add { branch, .. } => branch@,
        Command::Remove { branch, .. } => branch@,
        Command::Fork { branch, .. } => branch@,
        _ => Seq::empty(),
    }
}

/// The path that a command asks the new worktree to have.
pub open spec fn dir_of(c: Command) -> Option<Seq<char>> {
    match c {
        Command::Switch { path, .. } => opt_view(path),
        Command::Add { path, .. } => opt_view(path),
        Command::Fork { path, .. } => opt_view(path),
        _ => None,
    }
}

/// Whether a command creates a worktree when the branch has none.
pub open spec fn creates(c: Command) -> bool {
    c is Add || c is Switch || c is Fork
}

/// A fork past capturing its changes knows its source worktree and has
/// changes to apply.
pub open spec fn fork_ready(f: Flow) -> bool {
    f.command is Fork ==> f.source is Some && f.patch@.len() > 0
}

/// The stages that a flow can be at, given its command.
pub open spec fn wf(f: Flow) -> bool {
    match f.stage {
        Stage::Completing => f.command is Init,
        Stage::Discovering => !(f.command is Init),
        Stage::Sourcing => f.command is Fork,
        Stage::Diffing => f.command is Fork && f.source is Some,
        Stage::Locating => (creates(f.command) || f.command is List) && fork_ready(f),
        Stage::Listing { .. } => f.command is List,
        Stage::Reporting { .. } => f.command is List,
        Stage::Searching { main } => creates(f.command) && canonical(main.path@) && fork_ready(f),
        Stage::SearchingRemoval => f.command is Remove,
        Stage::Probing { .. } => creates(f.command) && fork_ready(f),
        Stage::Resolving { .. } => creates(f.command) && fork_ready(f),
        Stage::Materializing => creates(f.command) && fork_ready(f),
        Stage::Inspecting { .. } => f.command is Remove,
        Stage::Deleting => f.command is Remove,
        Stage::Targeting => f.command is Fork && fork_ready(f),
        Stage::Applying { .. } => f.command is Fork,
        Stage::Done => true,
    }
}

/// The events that a flow waits for: the outcome of the work it asked for,
/// or a failure; a finished flow waits for nothing. The main worktree's
/// path must be canonical.
pub open spec fn accepts_spec(f: Flow, e: Event) -> bool {
    match f.stage {
        Stage::Done => false,
        _ => match e {
            Event::Failed { .. } => true,
            Event::Completions { .. } => f.stage is Completing,
            Event::Discovered { .. } => f.stage is Discovering,
            Event::Canonical { .. } => f.stage is Sourcing || f.stage is Targeting,
            Event::Diff { .. } => f.stage is Diffing,
            Event::Main { main } => f.stage is Locating && canonical(main.path@),
            Event::Linked { .. } => f.stage is Listing || f.stage is Searching
                || f.stage is SearchingRemoval,
            Event::Probed { .. } => f.stage is Probing,
            Event::Branch { .. } => f.stage is Resolving,
            Event::Created { .. } => f.stage is Materializing,
            Event::Inspected { .. } => f.stage is Inspecting,
            Event::Deleted => f.stage is Deleting,
            Event::Applied => f.stage is Applying,
            Event::Printed => f.stage is Reporting,
            Event::LinkedPartly { .. } => f.stage is Listing,
        },
    }
}

/// `act` reads the linked worktrees in search of the command's branch.
pub open spec fn searches(act: Action, c: Command) -> bool {
    act matches Action::ListLinked { branch: Some(b) } && b@ == branch_of(c)
}

/// `next` keeps the command and the fork's data of `f`, at `stage`.
pub open spec fn moved(f: Flow, next: Flow, stage: Stage) -> bool {
    &&& next.command == f.command
    &&& next.source == f.source
    &&& next.patch == f.patch
    &&& next.stage == stage
}

/// `next` keeps the command and the fork's data of `f`.
pub open spec fn kept(f: Flow, next: Flow) -> bool {
    &&& next.command == f.command
    &&& next.source == f.source
    &&& next.patch == f.patch
}

/// The command finished successfully and prints `text`.
pub open spec fn finished_ok(f: Flow, next: Flow, act: Action, text: Seq<char>) -> bool {
    &&& moved(f, next, Stage::Done)
    &&& act matches Action::Finish { result: Ok(s) } && s@ == text
}

/// The command finished with the error `e`.
pub open spec fn finished_err(f: Flow, next: Flow, act: Action, e: WtError) -> bool {
    &&& moved(f, next, Stage::Done)
    &&& act == (Action::Finish { result: Err(e) })
}

/// The command's target worktree is at `path`: `switch` prints it, `fork`
/// canonicalizes it, and `add` refuses the branch as already checked out.
pub open spec fn reached_spec(f: Flow, next: Flow, act: Action, path: String) -> bool {
    match f.command {
        Command::Add { branch, .. } => finished_err(
            f,
            next,
            act,
            WtError::AlreadyCheckedOut { branch, path },
        ),
        Command::Switch { .. } => finished_ok(f, next, act, path@ + "\n"@),
        _ => moved(f, next, Stage::Targeting) && act == (Action::Canonicalize { path }),
    }
}

/// The command's branch has no worktree: plan one next to `main`, and probe
/// its paths, unless planning fails.
pub open spec fn plan_spec(f: Flow, next: Flow, act: Action, main: MainWorktree) -> bool {
    match plan_paths_spec(branch_of(f.command), dir_of(f.command), main.path@, main.common_dir@) {
        Err(e) => finished_err(f, next, act, e),
        Ok(p) => {
            &&& kept(f, next)
            &&& next.stage matches Stage::Probing { target, admin } && target@ == p.0 && admin@
                == p.1
            &&& act matches Action::Probe { target, admin } && target@ == p.0 && admin@ == p.1
        },
    }
}

/// What `step` does: `next` and `act` follow from `f` and `e`.
pub open spec fn step_spec(f: Flow, e: Event, next: Flow, act: Action) -> bool {
    match e {
        Event::Failed { error } => finished_err(f, next, act, error),
        _ => match f.stage {
            Stage::Completing => match (e, f.command) {
                (Event::Completions { text }, Command::Init { shell }) => finished_ok(
                    f,
                    next,
                    act,
                    init_script_spec(text@, shell),
                ),
                _ => false,
            },
            Stage::Discovering => match e {
                Event::Discovered { workdir } => match f.command {
                    Command::Remove { .. } => moved(f, next, Stage::SearchingRemoval)
                        && searches(act, f.command),
                    Command::Fork { .. } => match workdir {
                        None => finished_err(f, next, act, WtError::ForkNeedsWorktree),
                        Some(w) => moved(f, next, Stage::Sourcing) && act == (
                        Action::Canonicalize { path: w }),
                    },
                    _ => moved(f, next, Stage::Locating) && act is FindMain,
                },
                _ => false,
            },
            Stage::Sourcing => match (e, f.command) {
                (Event::Canonical { path }, Command::Fork { staged, paths, .. }) => {
                    &&& next.command == f.command
                    &&& next.source == Some(path)
                    &&& next.patch == f.patch
                    &&& next.stage is Diffing
                    &&& act matches Action::CaptureDiff { workdir, args } && workdir == path
                        && texts(args@) == diff_args_spec(staged, texts(paths@))
                },
                _ => false,
            },
            Stage::Diffing => match e {
                Event::Diff { bytes } => if bytes@.len() == 0 {
                    finished_err(f, next, act, WtError::NoChangesToFork)
                } else {
                    &&& next.command == f.command
                    &&& next.source == f.source
                    &&& next.patch == bytes
                    &&& next.stage is Locating
                    &&& act is FindMain
                },
                _ => false,
            },
            Stage::Locating => match e {
                Event::Main { main } => if f.command is List {
                    moved(f, next, Stage::Listing { main }) && act == (Action::ListLinked {
                        branch: None,
                    })
                } else if opt_view(main.branch) == Some(branch_of(f.command)) {
                    reached_spec(f, next, act, main.path)
                } else {
                    moved(f, next, Stage::Searching { main }) && searches(act, f.command)
                },
                _ => false,
            },
            Stage::Listing { main } => match e {
                Event::Linked { worktrees } => finished_ok(
                    f,
                    next,
                    act,
                    listing_spec(opt_view(main.branch), main.path@, linked_views(worktrees@)),
                ),
                Event::LinkedPartly { worktrees, error } => {
                    &&& moved(f, next, Stage::Reporting { error })
                    &&& act matches Action::Print { text } && text@ == listing_spec(
                        opt_view(main.branch),
                        main.path@,
                        linked_views(worktrees@),
                    )
                },
                _ => false,
            },
            Stage::Reporting { error } => match e {
                Event::Printed => finished_err(f, next, act, error),
                _ => false,
            },
            Stage::Searching { main } => match e {
                Event::Linked { worktrees } => match first_with_branch(
                    linked_views(worktrees@),
                    branch_of(f.command),
                ) {
                    Some(i) => reached_spec(f, next, act, worktrees@[i].base),
                    None => plan_spec(f, next, act, main),
                },
                _ => false,
            },
            Stage::Probing { target, admin } => match e {
                Event::Probed { target_exists, admin_exists } => if target_exists {
                    finished_err(f, next, act, WtError::TargetExists { path: target })
                } else if admin_exists {
                    finished_err(f, next, act, WtError::MetadataExists { path: admin })
                } else {
                    &&& moved(f, next, Stage::Resolving { target, admin })
                    &&& act matches Action::ResolveBranch { branch_ref } && branch_ref@
                        == branch_ref_spec(branch_of(f.command))
                },
                _ => false,
            },
            Stage::Resolving { target, admin } => match e {
                Event::Branch { exists } => {
                    &&& moved(f, next, Stage::Materializing)
                    &&& act matches Action::Materialize { plan } && plan.branch_ref@
                        == branch_ref_spec(branch_of(f.command)) && plan.target_path == target
                        && plan.admin_dir == admin && plan.create_branch == !exists
                },
                _ => false,
            },
            Stage::Materializing => match e {
                Event::Created { path } => match f.command {
                    Command::Add { .. } => finished_ok(f, next, act, Seq::empty()),
                    Command::Switch { .. } => finished_ok(f, next, act, path@ + "\n"@),
                    _ => moved(f, next, Stage::Targeting) && act == (Action::Canonicalize {
                        path,
                    }),
                },
                _ => false,
            },
            Stage::Targeting => match (e, f.command, f.source) {
                (Event::Canonical { path }, Command::Fork { staged, .. }, Some(source)) => if path@
                    == source@ {
                    finished_err(f, next, act, WtError::ForkToSelf)
                } else {
                    &&& next.command == f.command
                    &&& next.source == f.source
                    &&& next.patch@ == Seq::<u8>::empty()
                    &&& next.stage == (Stage::Applying { target: path })
                    &&& act matches Action::ApplyDiff { workdir, args, input } && workdir == path
                        && texts(args@) == apply_args_spec(staged) && input == f.patch
                },
                _ => false,
            },
            Stage::Applying { target } => match e {
                Event::Applied => finished_ok(f, next, act, target@ + "\n"@),
                _ => false,
            },
            Stage::SearchingRemoval => match (e, f.command) {
                (Event::Linked { worktrees }, Command::Remove { force, branch }) => match first_with_branch(
                    linked_views(worktrees@),
                    branch@,
                ) {
                    None => finished_err(f, next, act, WtError::NoLinkedWorktree { branch }),
                    Some(i) => {
                        &&& moved(
                            f,
                            next,
                            Stage::Inspecting {
                                base: worktrees@[i].base,
                                admin: worktrees@[i].admin_dir,
                            },
                        )
                        &&& act == (Action::Inspect {
                            base: worktrees@[i].base,
                            check_changes: !force,
                        })
                    },
                },
                _ => false,
            },
            Stage::Inspecting { base, admin } => match (e, f.command) {
                (Event::Inspected { dirty }, Command::Remove { force, branch }) => if !force
                    && dirty {
                    finished_err(f, next, act, WtError::HasChanges { branch })
                } else {
                    moved(f, next, Stage::Deleting) && act == (Action::Delete {
                        base,
                        admin_dir: admin,
                    })
                },
                _ => false,
            },
            Stage::Deleting => match e {
                Event::Deleted => finished_ok(f, next, act, Seq::empty()),
                _ => false,
            },
            Stage::Done => false,
        },
    }
}

/// Whether `opt` names the branch `branch`.
fn same_branch(opt: &Option<String>, branch: &String) -> (r: bool)
    ensures
        r == (opt_view(*opt) == Some(branch@)),
{
    match opt {
        Some(b) => str_equal(b.as_str(), branch.as_str()),
        None => false,
    }
}

/// The branch of a command that has one.
fn command_branch(c: &Command) -> (r: &String)
    requires
        creates(*c) || c is Remove,
    ensures
        r@ == branch_of(*c),
{
    match c {
        Command::Switch { branch, .. } => branch,
        Command::Add { branch, .. } => branch,
        Command::Remove { branch, .. } => branch,
        Command::Fork { branch, .. } => branch,
        _ => vstd::pervasive::unreached(),
    }
}

/// The requested path of a command that creates worktrees.
fn command_dir(c: &Command) -> (r: &Option<String>)
    requires
        creates(*c),
    ensures
        opt_view(*r) == dir_of(*c),
        c matches Command::Switch { path, .. } ==> *r == path,
        c matches Command::Add { path, .. } ==> *r == path,
        c matches Command::Fork { path, .. } ==> *r == path,
{
    match c {
        Command::Switch { path, .. } => path,
        Command::Add { path, .. } => path,
        Command::Fork { path, .. } => path,
        _ => vstd::pervasive::unreached(),
    }
}

/// `path` followed by a newline.
fn line(path: &str) -> (r: String)
    ensures
        r@ == path@ + "\n"@,
{
    String::from_str(path).concat("\n")
}

/// Starts `command`: `init` asks for the completion script, every other
/// command for the repository first.
pub fn run(command: Command) -> (r: (Flow, Action))
    ensures
        wf(r.0),
        r.0.command == command,
        r.0.source is None,
        r.0.patch@.len() == 0,
        command matches Command::Init { shell } ==> r.0.stage is Completing && r.1 == (
        Action::Completions { shell }),
        !(command is Init) ==> r.0.stage is Discovering && r.1 is Discover,
{
    match command {
        Command::Init { shell } => init(shell),
        Command::List => list(),
        Command::Switch { branch, path } => switch(branch, path),
        Command::Add { branch, path } => self::add(branch, path),
        Command::Remove { force, branch } => remove(force, branch),
        Command::Fork { branch, path, staged, paths } => fork(branch, path, staged, paths),
    }
}

/// A command in progress that waits at `stage`.
fn start(command: Command, stage: Stage) -> (r: Flow)
    ensures
        r.command == command,
        r.stage == stage,
        r.source is None,
        r.patch@.len() == 0,
{
    Flow { command, stage, source: None, patch: Vec::new() }
}

/// Starts `init` for `shell`.
pub fn init(shell: InitShell) -> (r: (Flow, Action))
    ensures
        wf(r.0),
        r.0.command == (Command::Init { shell }),
        r.0.stage is Completing,
        r.0.source is None,
        r.0.patch@.len() == 0,
        r.1 == (Action::Completions { shell }),
{
    (start(Command::Init { shell }, Stage::Completing), Action::Completions { shell })
}

/// Starts `list`.
pub fn list() -> (r: (Flow, Action))
    ensures
        wf(r.0),
        r.0.command is List,
        r.0.stage is Discovering,
        r.0.source is None,
        r.0.patch@.len() == 0,
        r.1 is Discover,
{
    (start(Command::List, Stage::Discovering), Action::Discover)
}

/// Starts `switch` to `branch`, with `path` for a worktree that must be made.
pub fn switch(branch: String, path: Option<String>) -> (r: (Flow, Action))
    ensures
        wf(r.0),
        r.0.command == (Command::Switch { branch, path }),
        r.0.stage is Discovering,
        r.0.source is None,
        r.0.patch@.len() == 0,
        r.1 is Discover,
{
    (start(Command::Switch { branch, path }, Stage::Discovering), Action::Discover)
}

/// Starts `add` for `branch`, with `path` for the new worktree.
pub fn add(branch: String, path: Option<String>) -> (r: (Flow, Action))
    ensures
        wf(r.0),
        r.0.command == (Command::Add { branch, path }),
        r.0.stage is Discovering,
        r.0.source is None,
        r.0.patch@.len() == 0,
        r.1 is Discover,
{
    (start(Command::Add { branch, path }, Stage::Discovering), Action::Discover)
}

/// Starts `remove` of `branch`'s linked worktree, forced or not.
pub fn remove(force: bool, branch: String) -> (r: (Flow, Action))
    ensures
        wf(r.0),
        r.0.command == (Command::Remove { force, branch }),
        r.0.stage is Discovering,
        r.0.source is None,
        r.0.patch@.len() == 0,
        r.1 is Discover,
{
    (start(Command::Remove { force, branch }, Stage::Discovering), Action::Discover)
}

/// Starts `fork` of the staged or unstaged changes under `paths` into
/// `branch`'s worktree, with `path` for a worktree that must be made.
pub fn fork(branch: String, path: Option<String>, staged: bool, paths: Vec<String>) -> (r: (
    Flow,
    Action,
))
    ensures
        wf(r.0),
        r.0.command == (Command::Fork { branch, path, staged, paths }),
        r.0.stage is Discovering,
        r.0.source is None,
        r.0.patch@.len() == 0,
        r.1 is Discover,
{
    (start(Command::Fork { branch, path, staged, paths }, Stage::Discovering), Action::Discover)
}

/// The command's target worktree is at `path` (see `reached_spec`).
fn reach(command: Command, source: Option<String>, patch: Vec<u8>, path: String, Ghost(
    f,
): Ghost<Flow>) -> (r: (Flow, Action))
    requires
        f.command == command,
        f.source == source,
        f.patch == patch,
        creates(command),
        command is Fork ==> source is Some && patch@.len() > 0,
    ensures
        reached_spec(f, r.0, r.1, path),
        wf(r.0),
{
    match &command {
        Command::Add { branch, .. } => {
            let error = WtError::AlreadyCheckedOut { branch: branch.clone(), path };
            (
                Flow { command, stage: Stage::Done, source, patch },
                Action::Finish { result: Err(error) },
            )
        },
        Command::Switch { .. } => {
            let out = line(path.as_str());
            (Flow { command, stage: Stage::Done, source, patch }, Action::Finish { result: Ok(out) })
        },
        _ => (
            Flow { command, stage: Stage::Targeting, source, patch },
            Action::Canonicalize { path },
        ),
    }
}

/// The command's branch has no worktree: plan one (see `plan_spec`).
fn plan(command: Command, source: Option<String>, patch: Vec<u8>, main: &MainWorktree, Ghost(
    f,
): Ghost<Flow>) -> (r: (Flow, Action))
    requires
        f.command == command,
        f.source == source,
        f.patch == patch,
        creates(command),
        command is Fork ==> source is Some && patch@.len() > 0,
        canonical(main.path@),
    ensures
        plan_spec(f, r.0, r.1, *main),
        wf(r.0),
{
    let planned = plan_paths(command_branch(&command).as_str(), command_dir(&command), main);
    match planned {
        Err(e) => (Flow { command, stage: Stage::Done, source, patch }, Action::Finish { result: Err(e) }),
        Ok((target, admin)) => (
            Flow {
                command,
                stage: Stage::Probing { target: target.clone(), admin: admin.clone() },
                source,
                patch,
            },
            Action::Probe { target, admin },
        ),
    }
}

impl Flow {
    /// Whether the command is over.
    pub fn is_done(&self) -> (r: bool)
        ensures
            r == (self.stage is Done),
    {
        match self.stage {
            Stage::Done => true,
            _ => false,
        }
    }

    /// Whether `e` is an outcome that this flow waits for (see
    /// `accepts_spec`).
    pub fn accepts(&self, e: &Event) -> (r: bool)
        ensures
            r == accepts_spec(*self, *e),
    {
        match self.stage {
            Stage::Done => false,
            _ => match e {
                Event::Failed { .. } => true,
                Event::Completions { .. } => matches!(self.stage, Stage::Completing { .. }),
                Event::Discovered { .. } => matches!(self.stage, Stage::Discovering { .. }),
                Event::Canonical { .. } => matches!(self.stage, Stage::Sourcing { .. }) || matches!(self.stage, Stage::Targeting { .. }),
                Event::Diff { .. } => matches!(self.stage, Stage::Diffing { .. }),
                Event::Main { main } => matches!(self.stage, Stage::Locating { .. }) && crate::paths::is_canonical(
                    main.path.as_str(),
                ),
                Event::Linked { .. } => matches!(self.stage, Stage::Listing { .. }) || matches!(self.stage, Stage::Searching { .. })
                    || matches!(self.stage, Stage::SearchingRemoval { .. }),
                Event::Probed { .. } => matches!(self.stage, Stage::Probing { .. }),
                Event::Branch { .. } => matches!(self.stage, Stage::Resolving { .. }),
                Event::Created { .. } => matches!(self.stage, Stage::Materializing { .. }),
                Event::Inspected { .. } => matches!(self.stage, Stage::Inspecting { .. }),
                Event::Deleted => matches!(self.stage, Stage::Deleting { .. }),
                Event::Applied => matches!(self.stage, Stage::Applying { .. }),
                Event::Printed => matches!(self.stage, Stage::Reporting { .. }),
                Event::LinkedPartly { .. } => matches!(self.stage, Stage::Listing { .. }),
            },
        }
    }

    /// Decides what follows the outcome `event` (see `step_spec`).
    pub fn step(self, event: Event) -> (r: (Flow, Action))
        requires
            wf(self),
            accepts_spec(self, event),
        ensures
            step_spec(self, event, r.0, r.1),
            wf(r.0),
    {
        let ghost f = self;
        let Flow { command, stage, source, patch } = self;
        let event = match event {
            Event::Failed { error } => {
                return (
                    Flow { command, stage: Stage::Done, source, patch },
                    Action::Finish { result: Err(error) },
                );
            },
            e => e,
        };
        match stage {
            Stage::Completing => match (event, &command) {
                (Event::Completions { text }, Command::Init { shell }) => {
                    let out = init_script(text.as_str(), *shell);
                    (
                        Flow { command, stage: Stage::Done, source, patch },
                        Action::Finish { result: Ok(out) },
                    )
                },
                _ => vstd::pervasive::unreached(),
            },
            Stage::Discovering => match event {
                Event::Discovered { workdir } => match &command {
                    Command::Remove { branch, .. } => {
                        let wanted = Some(branch.clone());
                        (
                            Flow { command, stage: Stage::SearchingRemoval, source, patch },
                            Action::ListLinked { branch: wanted },
                        )
                    },
                    Command::Fork { .. } => match workdir {
                        None => (
                            Flow { command, stage: Stage::Done, source, patch },
                            Action::Finish { result: Err(WtError::ForkNeedsWorktree) },
                        ),
                        Some(w) => (
                            Flow { command, stage: Stage::Sourcing, source, patch },
                            Action::Canonicalize { path: w },
                        ),
                    },
                    _ => (Flow { command, stage: Stage::Locating, source, patch }, Action::FindMain),
                },
                _ => vstd::pervasive::unreached(),
            },
            Stage::Sourcing => match event {
                Event::Canonical { path } => {
                    let args = match &command {
                        Command::Fork { staged, paths, .. } => diff(*staged, paths),
                        _ => vstd::pervasive::unreached(),
                    };
                    (
                        Flow { command, stage: Stage::Diffing, source: Some(path.clone()), patch },
                        Action::CaptureDiff { workdir: path, args },
                    )
                },
                _ => vstd::pervasive::unreached(),
            },
            Stage::Diffing => match event {
                Event::Diff { bytes } => {
                    if bytes.len() == 0 {
                        (
                            Flow { command, stage: Stage::Done, source, patch },
                            Action::Finish { result: Err(WtError::NoChangesToFork) },
                        )
                    } else {
                        (
                            Flow { command, stage: Stage::Locating, source, patch: bytes },
                            Action::FindMain,
                        )
                    }
                },
                _ => vstd::pervasive::unreached(),
            },
            Stage::Locating => match event {
                Event::Main { main } => {
                    if matches!(command, Command::List) {
                        return (
                            Flow { command, stage: Stage::Listing { main }, source, patch },
                            Action::ListLinked { branch: None },
                        );
                    }
                    if same_branch(&main.branch, command_branch(&command)) {
                        reach(command, source, patch, main.path, Ghost(f))
                    } else {
                        let wanted = Some(command_branch(&command).clone());
                        (
                            Flow { command, stage: Stage::Searching { main }, source, patch },
                            Action::ListLinked { branch: wanted },
                        )
                    }
                },
                _ => vstd::pervasive::unreached(),
            },
            Stage::Listing { main } => match event {
                Event::Linked { worktrees } => {
                    let out = write_list(&main, &worktrees);
                    (
                        Flow { command, stage: Stage::Done, source, patch },
                        Action::Finish { result: Ok(out) },
                    )
                },
                Event::LinkedPartly { worktrees, error } => {
                    let text = write_list(&main, &worktrees);
                    (
                        Flow { command, stage: Stage::Reporting { error }, source, patch },
                        Action::Print { text },
                    )
                },
                _ => vstd::pervasive::unreached(),
            },
            Stage::Reporting { error } => match event {
                Event::Printed => (
                    Flow { command, stage: Stage::Done, source, patch },
                    Action::Finish { result: Err(error) },
                ),
                _ => vstd::pervasive::unreached(),
            },
            Stage::Searching { main } => match event {
                Event::Linked { worktrees } => {
                    match find_branch(&worktrees, command_branch(&command).as_str()) {
                        Some(i) => {
                            let base = worktrees[i].base.clone();
                            reach(command, source, patch, base, Ghost(f))
                        },
                        None => plan(command, source, patch, &main, Ghost(f)),
                    }
                },
                _ => vstd::pervasive::unreached(),
            },
            Stage::Probing { target, admin } => match event {
                Event::Probed { target_exists, admin_exists } => {
                    if target_exists {
                        (
                            Flow { command, stage: Stage::Done, source, patch },
                            Action::Finish { result: Err(WtError::TargetExists { path: target }) },
                        )
                    } else if admin_exists {
                        (
                            Flow { command, stage: Stage::Done, source, patch },
                            Action::Finish { result: Err(WtError::MetadataExists { path: admin }) },
                        )
                    } else {
                        let full = branch_ref(command_branch(&command).as_str());
                        (
                            Flow { command, stage: Stage::Resolving { target, admin }, source, patch },
                            Action::ResolveBranch { branch_ref: full },
                        )
                    }
                },
                _ => vstd::pervasive::unreached(),
            },
            Stage::Resolving { target, admin } => match event {
                Event::Branch { exists } => {
                    let full = branch_ref(command_branch(&command).as_str());
                    let plan = CreatePlan {
                        branch_ref: full,
                        target_path: target,
                        admin_dir: admin,
                        create_branch: !exists,
                    };
                    (
                        Flow { command, stage: Stage::Materializing, source, patch },
                        Action::Materialize { plan },
                    )
                },
                _ => vstd::pervasive::unreached(),
            },
            Stage::Materializing => match event {
                Event::Created { path } => match &command {
                    Command::Add { .. } => (
                        Flow { command, stage: Stage::Done, source, patch },
                        Action::Finish { result: Ok(String::new()) },
                    ),
                    Command::Switch { .. } => {
                        let out = line(path.as_str());
                        (
                            Flow { command, stage: Stage::Done, source, patch },
                            Action::Finish { result: Ok(out) },
                        )
                    },
                    _ => (
                        Flow { command, stage: Stage::Targeting, source, patch },
                        Action::Canonicalize { path },
                    ),
                },
                _ => vstd::pervasive::unreached(),
            },
            Stage::Targeting => match event {
                Event::Canonical { path } => {
                    let same = match &source {
                        Some(s) => str_equal(path.as_str(), s.as_str()),
                        None => vstd::pervasive::unreached(),
                    };
                    if same {
                        (
                            Flow { command, stage: Stage::Done, source, patch },
                            Action::Finish { result: Err(WtError::ForkToSelf) },
                        )
                    } else {
                        let args = match &command {
                            Command::Fork { staged, .. } => apply_args(*staged),
                            _ => vstd::pervasive::unreached(),
                        };
                        (
                            Flow {
                                command,
                                stage: Stage::Applying { target: path.clone() },
                                source,
                                patch: Vec::new(),
                            },
                            Action::ApplyDiff { workdir: path, args, input: patch },
                        )
                    }
                },
                _ => vstd::pervasive::unreached(),
            },
            Stage::Applying { target } => match event {
                Event::Applied => {
                    let out = line(target.as_str());
                    (
                        Flow { command, stage: Stage::Done, source, patch },
                        Action::Finish { result: Ok(out) },
                    )
                },
                _ => vstd::pervasive::unreached(),
            },
            Stage::SearchingRemoval => match event {
                Event::Linked { worktrees } => {
                    let (force, branch) = match &command {
                        Command::Remove { force, branch } => (*force, branch),
                        _ => vstd::pervasive::unreached(),
                    };
                    match find_branch(&worktrees, branch.as_str()) {
                        None => {
                            let error = WtError::NoLinkedWorktree { branch: branch.clone() };
                            (
                                Flow { command, stage: Stage::Done, source, patch },
                                Action::Finish { result: Err(error) },
                            )
                        },
                        Some(i) => {
                            let base = worktrees[i].base.clone();
                            let admin = worktrees[i].admin_dir.clone();
                            let inspect = Action::Inspect {
                                base: worktrees[i].base.clone(),
                                check_changes: !force,
                            };
                            (
                                Flow { command, stage: Stage::Inspecting { base, admin }, source, patch },
                                inspect,
                            )
                        },
                    }
                },
                _ => vstd::pervasive::unreached(),
            },
            Stage::Inspecting { base, admin } => match event {
                Event::Inspected { dirty } => {
                    let (force, branch) = match &command {
                        Command::Remove { force, branch } => (*force, branch),
                        _ => vstd::pervasive::unreached(),
                    };
                    if !force && dirty {
                        let error = WtError::HasChanges { branch: branch.clone() };
                        (
                            Flow { command, stage: Stage::Done, source, patch },
                            Action::Finish { result: Err(error) },
                        )
                    } else {
                        (
                            Flow { command, stage: Stage::Deleting, source, patch },
                            Action::Delete { base, admin_dir: admin },
                        )
                    }
                },
                _ => vstd::pervasive::unreached(),
            },
            Stage::Deleting => match event {
                Event::Deleted => (
                    Flow { command, stage: Stage::Done, source, patch },
                    Action::Finish { result: Ok(String::new()) },
                ),
                _ => vstd::pervasive::unreached(),
            },
            Stage::Done => vstd::pervasive::unreached(),
        }
    }
}

} // verus!
