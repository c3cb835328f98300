use wt::flow::{run, Action, Command, Event, Flow};
use wt::init::InitShell;
use wt::worktree::{LinkedWorktree, MainWorktree};

const ROOT: &str = "/tmp/root";
const REPO: &str = "/tmp/root/repo";
const COMMON: &str = "/tmp/root/repo/.git";

fn s(x: &str) -> String {
    x.to_string()
}

fn main_on(branch: &str) -> MainWorktree {
    MainWorktree { path: s(REPO), branch: Some(s(branch)), common_dir: s(COMMON) }
}

fn feature_worktree() -> LinkedWorktree {
    LinkedWorktree {
        base: format!("{ROOT}/feature"),
        admin_dir: format!("{COMMON}/worktrees/feature"),
        branch: Some(s("feature")),
    }
}

fn feed(flow: Flow, event: Event) -> (Flow, Action) {
    assert!(flow.accepts(&event), "event {:?} not accepted at {:?}", event, flow.stage);
    flow.step(event)
}

fn args(v: &[String]) -> Vec<&str> {
    v.iter().map(|a| a.as_str()).collect()
}

/// Drives a fork from the main worktree up to its diff capture.
fn fork(branch: &str, staged: bool, paths: Vec<String>) -> (Flow, Vec<String>) {
    let (flow, action) =
        run(Command::Fork { branch: s(branch), path: None, staged, paths });
    assert!(matches!(action, Action::Discover));
    let (flow, action) = feed(flow, Event::Discovered { workdir: Some(format!("{REPO}/")) });
    match &action {
        Action::Canonicalize { path } => assert_eq!(path, &format!("{REPO}/")),
        other => panic!("unexpected {:?}", other),
    }
    let (flow, action) = feed(flow, Event::Canonical { path: s(REPO) });
    match action {
        Action::CaptureDiff { workdir, args } => {
            assert_eq!(workdir, REPO);
            (flow, args)
        }
        other => panic!("unexpected {:?}", other),
    }
}

/// Drives a captured fork into the linked `feature` worktree up to applying.
fn apply_to_feature(flow: Flow, patch: &[u8]) -> (Flow, Vec<String>) {
    let (flow, action) = feed(flow, Event::Diff { bytes: patch.to_vec() });
    assert!(matches!(action, Action::FindMain));
    let (flow, _) = feed(flow, Event::Main { main: main_on("main") });
    let (flow, action) = feed(flow, Event::Linked { worktrees: vec![feature_worktree()] });
    match &action {
        Action::Canonicalize { path } => assert_eq!(path, &format!("{ROOT}/feature")),
        other => panic!("unexpected {:?}", other),
    }
    let (flow, action) = feed(flow, Event::Canonical { path: format!("{ROOT}/feature") });
    match action {
        Action::ApplyDiff { workdir, args, input } => {
            assert_eq!(workdir, format!("{ROOT}/feature"));
            assert_eq!(input, patch);
            (flow, args)
        }
        other => panic!("unexpected {:?}", other),
    }
}

#[test]
fn copies_unstaged_changes_to_target_worktree() {
    let (flow, diff_args) = fork("feature", false, vec![]);
    assert_eq!(args(&diff_args), vec!["diff", "--binary"]);
    let (flow, apply_args) = apply_to_feature(flow, b"diff --git a/README.md b/README.md\n");
    assert_eq!(args(&apply_args), vec!["apply", "--binary"]);
    let (flow, action) = feed(flow, Event::Applied);
    assert!(flow.is_done());
    match action {
        Action::Finish { result: Ok(out) } => assert_eq!(out, format!("{ROOT}/feature\n")),
        other => panic!("unexpected {:?}", other),
    }
}

#[test]
fn copies_staged_changes_as_staged() {
    let (flow, diff_args) = fork("feature", true, vec![]);
    assert_eq!(args(&diff_args), vec!["diff", "--binary", "--cached"]);
    let (_, apply_args) = apply_to_feature(flow, b"staged change");
    assert_eq!(args(&apply_args), vec!["apply", "--binary", "--index"]);
}

#[test]
fn respects_pathspecs_after_double_dash() {
    let (_, diff_args) = fork("feature", false, vec![s("README.md")]);
    assert_eq!(args(&diff_args), vec!["diff", "--binary", "--", "README.md"]);
}

#[test]
fn ignores_inherited_git_hook_env() {
    let vars = wt::git::git_repository_env_vars();
    assert!(vars.contains(&s("GIT_DIR")));
    assert!(vars.contains(&s("GIT_INDEX_FILE")));
    assert_eq!(vars.len(), 9);
}

#[test]
fn fork_without_changes_fails() {
    let (flow, _) = fork("feature", false, vec![]);
    let (flow, action) = feed(flow, Event::Diff { bytes: vec![] });
    assert!(flow.is_done());
    match action {
        Action::Finish { result: Err(e) } => assert_eq!(e.message(), "no changes to fork"),
        other => panic!("unexpected {:?}", other),
    }
}

#[test]
fn fork_to_current_worktree_fails() {
    let (flow, _) = fork("main", false, vec![]);
    let (flow, _) = feed(flow, Event::Diff { bytes: b"x".to_vec() });
    let (flow, action) = feed(flow, Event::Main { main: main_on("main") });
    match &action {
        Action::Canonicalize { path } => assert_eq!(path, REPO),
        other => panic!("unexpected {:?}", other),
    }
    let (_, action) = feed(flow, Event::Canonical { path: s(REPO) });
    match action {
        Action::Finish { result: Err(e) } => {
            assert_eq!(e.message(), "cannot fork changes to the current worktree")
        }
        other => panic!("unexpected {:?}", other),
    }
}

#[test]
fn fork_needs_a_worktree() {
    let (flow, _) = run(Command::Fork { branch: s("feature"), path: None, staged: false, paths: vec![] });
    let (_, action) = feed(flow, Event::Discovered { workdir: None });
    match action {
        Action::Finish { result: Err(e) } => assert_eq!(e.message(), "fork requires a worktree"),
        other => panic!("unexpected {:?}", other),
    }
}

#[test]
fn shows_main_and_linked_worktrees() {
    let (flow, _) = run(Command::List);
    let (flow, action) = feed(flow, Event::Discovered { workdir: Some(s(REPO)) });
    assert!(matches!(action, Action::FindMain));
    let (flow, action) = feed(flow, Event::Main { main: main_on("main") });
    assert!(matches!(action, Action::ListLinked { .. }));
    let one = LinkedWorktree {
        base: format!("{ROOT}/feature-one"),
        admin_dir: format!("{COMMON}/worktrees/feature-one"),
        branch: Some(s("feature/one")),
    };
    let (_, action) = feed(flow, Event::Linked { worktrees: vec![one] });
    match action {
        Action::Finish { result: Ok(list) } => {
            assert!(list.contains(&format!("main\t{}", REPO)));
            assert!(list.contains(&format!("feature/one\t{ROOT}/feature-one")));
            assert_eq!(list, format!("main\t{REPO}\nfeature/one\t{ROOT}/feature-one\n"));
        }
        other => panic!("unexpected {:?}", other),
    }
}

#[test]
fn detached_worktrees_are_listed_as_detached() {
    let main = MainWorktree { path: s(REPO), branch: None, common_dir: s(COMMON) };
    let other = LinkedWorktree { base: s("/w"), admin_dir: s("/a"), branch: None };
    let out = wt::worktree::write_list(&main, &vec![other]);
    assert_eq!(out, format!("<detached>\t{REPO}\n<detached>\t/w\n"));
}

fn zsh_completions() -> String {
    let mut command = clap::Command::new("wt")
        .subcommand(clap::Command::new("list"))
        .subcommand(clap::Command::new("switch").arg(clap::Arg::new("branch")));
    let mut out: Vec<u8> = Vec::new();
    clap_complete::generate(clap_complete::Shell::Zsh, &mut command, "wt", &mut out);
    String::from_utf8(out).unwrap()
}

#[test]
fn emits_completion_and_cwd_switching_wrapper() {
    let (flow, action) = run(Command::Init { shell: InitShell::Zsh });
    match &action {
        Action::Completions { shell } => assert_eq!(*shell, InitShell::Zsh),
        other => panic!("unexpected {:?}", other),
    }
    let (flow, action) = feed(flow, Event::Completions { text: zsh_completions() });
    assert!(flow.is_done());
    match action {
        Action::Finish { result: Ok(out) } => {
            assert!(out.contains("#compdef wt"));
            assert!(out.contains("wt() {"));
            assert!(out.contains("command wt switch"));
            assert!(out.contains("cd \"$target\""));
        }
        other => panic!("unexpected {:?}", other),
    }
}

#[test]
fn fish_gets_its_own_wrapper() {
    let out = wt::init::init_script("complete -c wt", InitShell::Fish);
    assert_eq!(out, format!("complete -c wt\n{}", wt::init::FISH_SHELL_INTEGRATION));
    assert!(out.contains("function wt"));
    assert_eq!(InitShell::Bash.integration(), InitShell::Zsh.integration());
    assert_ne!(InitShell::Bash.integration(), InitShell::Fish.integration());
}

/// The wrapper that `init` prints for `shell`, after generated completions.
fn wrapper_for(shell: InitShell) -> String {
    let (flow, _) = run(Command::Init { shell });
    let (_, action) = feed(flow, Event::Completions { text: s("# completions") });
    match action {
        Action::Finish { result: Ok(out) } => out,
        other => panic!("unexpected {:?}", other),
    }
}

#[test]
fn bash_wrapper_switches_cwd_inside_child_shell() {
    let out = wrapper_for(InitShell::Bash);
    assert!(out.starts_with("# completions\n"));
    assert!(out.ends_with(wt::init::POSIX_SHELL_INTEGRATION));
    assert!(out.contains("wt() {"));
    assert!(out.contains("if [ \"${1:-}\" = \"switch\" ]; then"));
    assert!(out.contains("target=\"$(command wt switch \"$@\")\" || return"));
    assert!(out.contains("cd \"$target\""));
    assert!(out.contains("command wt \"$@\""));
}

#[test]
fn zsh_wrapper_switches_cwd_inside_child_shell() {
    let out = wrapper_for(InitShell::Zsh);
    assert!(out.starts_with("# completions\n"));
    assert!(out.ends_with(wt::init::POSIX_SHELL_INTEGRATION));
    assert!(out.contains("target=\"$(command wt switch \"$@\")\" || return"));
    assert!(out.contains("cd \"$target\""));
    assert_eq!(out, wrapper_for(InitShell::Bash));
}

#[test]
fn searches_ask_for_their_branch_and_listings_for_all() {
    let (flow, _) = run(Command::List);
    let (flow, _) = feed(flow, Event::Discovered { workdir: None });
    let (_, action) = feed(flow, Event::Main { main: main_on("main") });
    assert!(matches!(action, Action::ListLinked { branch: None }));

    let (flow, _) = run(Command::Remove { force: false, branch: s("feature") });
    let (_, action) = feed(flow, Event::Discovered { workdir: None });
    match action {
        Action::ListLinked { branch: Some(b) } => assert_eq!(b, "feature"),
        other => panic!("unexpected {:?}", other),
    }
}

#[test]
fn failed_listing_prints_rows_read_before_failing() {
    let (flow, _) = run(Command::List);
    let (flow, _) = feed(flow, Event::Discovered { workdir: None });
    let (flow, _) = feed(flow, Event::Main { main: main_on("main") });
    let one = LinkedWorktree {
        base: format!("{ROOT}/feature-one"),
        admin_dir: format!("{COMMON}/worktrees/feature-one"),
        branch: Some(s("feature/one")),
    };
    let error = wt::error::error(s("cannot open worktree"));
    let (flow, action) = feed(flow, Event::LinkedPartly { worktrees: vec![one], error });
    match action {
        Action::Print { text } => {
            assert_eq!(text, format!("main\t{REPO}\nfeature/one\t{ROOT}/feature-one\n"))
        }
        other => panic!("unexpected {:?}", other),
    }
    assert!(!flow.is_done());
    let (flow, action) = feed(flow, Event::Printed);
    assert!(flow.is_done());
    match action {
        Action::Finish { result: Err(e) } => assert_eq!(e.message(), "cannot open worktree"),
        other => panic!("unexpected {:?}", other),
    }
}

#[test]
fn listing_that_fails_at_once_still_prints_main_row() {
    let (flow, _) = run(Command::List);
    let (flow, _) = feed(flow, Event::Discovered { workdir: None });
    let (flow, _) = feed(flow, Event::Main { main: main_on("main") });
    let error = wt::error::error(s("no worktrees directory"));
    let (_, action) = feed(flow, Event::LinkedPartly { worktrees: vec![], error });
    match action {
        Action::Print { text } => assert_eq!(text, format!("main\t{REPO}\n")),
        other => panic!("unexpected {:?}", other),
    }
}
