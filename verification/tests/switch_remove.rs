use wt::flow::{run, Action, Command, Event, Flow};
use wt::worktree::{LinkedWorktree, MainWorktree};

const ROOT: &str = "/tmp/root";
const REPO: &str = "/tmp/root/repo";
const COMMON: &str = "/tmp/root/repo/.git";

fn s(x: &str) -> String {
    x.to_string()
}

fn main_on(branch: &str) -> MainWorktree {
    MainWorktree { path: s(REPO), branch: Some(s(branch)), common_dir: s(COMMON) }
}

fn feature_worktree() -> LinkedWorktree {
    LinkedWorktree {
        base: format!("{ROOT}/feature"),
        admin_dir: format!("{COMMON}/worktrees/feature"),
        branch: Some(s("feature")),
    }
}

fn feed(flow: Flow, event: Event) -> (Flow, Action) {
    assert!(flow.accepts(&event), "event {:?} not accepted at {:?}", event, flow.stage);
    flow.step(event)
}

fn printed(action: Action) -> String {
    match action {
        Action::Finish { result: Ok(out) } => out,
        other => panic!("expected output, got {:?}", other),
    }
}

fn switch(branch: &str, path: Option<&str>) -> Flow {
    let (flow, action) = run(Command::Switch { branch: s(branch), path: path.map(s) });
    assert!(matches!(action, Action::Discover));
    let (flow, action) = feed(flow, Event::Discovered { workdir: Some(s(REPO)) });
    assert!(matches!(action, Action::FindMain));
    flow
}

fn remove(branch: &str, force: bool) -> Flow {
    let (flow, action) = run(Command::Remove { force, branch: s(branch) });
    assert!(matches!(action, Action::Discover));
    let (flow, action) = feed(flow, Event::Discovered { workdir: Some(s(REPO)) });
    assert!(matches!(action, Action::ListLinked { .. }));
    flow
}

#[test]
fn prints_existing_worktree_path() {
    let flow = switch("feature", None);
    let (flow, _) = feed(flow, Event::Main { main: main_on("main") });
    let (flow, action) = feed(flow, Event::Linked { worktrees: vec![feature_worktree()] });
    assert!(flow.is_done());
    assert_eq!(printed(action), format!("{ROOT}/feature\n"));

    let flow = switch("main", None);
    let (flow, action) = feed(flow, Event::Main { main: main_on("main") });
    assert!(flow.is_done());
    assert_eq!(printed(action), format!("{REPO}\n"));
}

#[test]
fn creates_missing_worktree() {
    let flow = switch("feature", None);
    let (flow, _) = feed(flow, Event::Main { main: main_on("main") });
    let (flow, action) = feed(flow, Event::Linked { worktrees: vec![] });
    match &action {
        Action::Probe { target, .. } => assert_eq!(target, &format!("{ROOT}/feature")),
        other => panic!("unexpected {:?}", other),
    }
    let (flow, _) = feed(flow, Event::Probed { target_exists: false, admin_exists: false });
    let (flow, action) = feed(flow, Event::Branch { exists: false });
    match &action {
        Action::Materialize { plan } => {
            assert_eq!(plan.branch_ref, "refs/heads/feature");
            assert!(plan.create_branch);
        }
        other => panic!("unexpected {:?}", other),
    }
    let (_, action) = feed(flow, Event::Created { path: format!("{ROOT}/feature") });
    assert_eq!(printed(action), format!("{ROOT}/feature\n"));
}

#[test]
fn e2e_switch_accepts_target_path() {
    let path = format!("{ROOT}/custom-feature");
    let flow = switch("feature", Some(&path));
    let (flow, _) = feed(flow, Event::Main { main: main_on("main") });
    let (flow, action) = feed(flow, Event::Linked { worktrees: vec![] });
    match &action {
        Action::Probe { target, .. } => assert_eq!(target, &path),
        other => panic!("unexpected {:?}", other),
    }
    let (flow, _) = feed(flow, Event::Probed { target_exists: false, admin_exists: false });
    let (flow, _) = feed(flow, Event::Branch { exists: false });
    let (_, action) = feed(flow, Event::Created { path: path.clone() });
    assert_eq!(printed(action), format!("{path}\n"));
}

#[test]
fn deletes_clean_worktree_and_metadata() {
    let flow = remove("feature", false);
    let (flow, action) = feed(flow, Event::Linked { worktrees: vec![feature_worktree()] });
    match &action {
        Action::Inspect { base, check_changes } => {
            assert_eq!(base, &format!("{ROOT}/feature"));
            assert!(*check_changes);
        }
        other => panic!("unexpected {:?}", other),
    }
    let (flow, action) = feed(flow, Event::Inspected { dirty: false });
    match &action {
        Action::Delete { base, admin_dir } => {
            assert_eq!(base, &format!("{ROOT}/feature"));
            assert_eq!(admin_dir, &format!("{REPO}/.git/worktrees/feature"));
        }
        other => panic!("unexpected {:?}", other),
    }
    let (flow, action) = feed(flow, Event::Deleted);
    assert!(flow.is_done());
    assert_eq!(printed(action), "");
}

#[test]
fn requires_force_for_dirty_worktree() {
    let flow = remove("feature", false);
    let (flow, _) = feed(flow, Event::Linked { worktrees: vec![feature_worktree()] });
    let (flow, action) = feed(flow, Event::Inspected { dirty: true });
    assert!(flow.is_done());
    match action {
        Action::Finish { result: Err(e) } => {
            let message = e.message();
            assert!(message.contains("use --force"));
            assert_eq!(message, "worktree for branch 'feature' has changes; use --force");
        }
        other => panic!("unexpected {:?}", other),
    }

    let flow = remove("feature", true);
    let (flow, action) = feed(flow, Event::Linked { worktrees: vec![feature_worktree()] });
    match &action {
        Action::Inspect { check_changes, .. } => assert!(!*check_changes),
        other => panic!("unexpected {:?}", other),
    }
    let (_, action) = feed(flow, Event::Inspected { dirty: true });
    assert!(matches!(action, Action::Delete { .. }));
}

#[test]
fn remove_without_linked_worktree_fails() {
    let flow = remove("main", false);
    let (flow, action) = feed(flow, Event::Linked { worktrees: vec![feature_worktree()] });
    assert!(flow.is_done());
    match action {
        Action::Finish { result: Err(e) } => {
            assert_eq!(e.message(), "no linked worktree for branch 'main'")
        }
        other => panic!("unexpected {:?}", other),
    }
}

#[test]
fn commands_work_from_worktree_root() {
    // From the directory that holds the worktrees, the one main worktree among
    // its subdirectories is the repository.
    let mains = vec![s(REPO), s(REPO)];
    let root = wt::worktree::select_worktree_root(ROOT, &mains).unwrap();
    assert_eq!(root, REPO);

    let flow = switch("feature", None);
    let (flow, _) = feed(flow, Event::Main { main: main_on("main") });
    let (_, action) = feed(flow, Event::Linked { worktrees: vec![feature_worktree()] });
    assert_eq!(printed(action), format!("{ROOT}/feature\n"));

    let flow = remove("feature", false);
    let (flow, _) = feed(flow, Event::Linked { worktrees: vec![feature_worktree()] });
    let (_, action) = feed(flow, Event::Inspected { dirty: false });
    assert!(matches!(action, Action::Delete { .. }));
}
