use wt::flow::{run, Action, Command, Event, Flow};
use wt::worktree::{LinkedWorktree, MainWorktree};

const ROOT: &str = "/tmp/root";
const REPO: &str = "/tmp/root/repo";
const COMMON: &str = "/tmp/root/repo/.git";

fn s(x: &str) -> String {
    x.to_string()
}

fn main_on(branch: &str) -> MainWorktree {
    MainWorktree { path: s(REPO), branch: Some(s(branch)), common_dir: s(COMMON) }
}

fn linked(base: &str, name: &str, branch: &str) -> LinkedWorktree {
    LinkedWorktree {
        base: s(base),
        admin_dir: format!("{COMMON}/worktrees/{name}"),
        branch: Some(s(branch)),
    }
}

fn feed(flow: Flow, event: Event) -> (Flow, Action) {
    assert!(flow.accepts(&event), "event {:?} not accepted at {:?}", event, flow.stage);
    flow.step(event)
}

fn add(branch: &str, path: Option<&str>) -> Flow {
    let (flow, action) = run(Command::Add { branch: s(branch), path: path.map(s) });
    assert!(matches!(action, Action::Discover));
    let (flow, action) = feed(flow, Event::Discovered { workdir: Some(s(REPO)) });
    assert!(matches!(action, Action::FindMain));
    flow
}

/// Drives an `add` up to its probe and returns the probed paths.
fn probe(flow: Flow, linked_worktrees: Vec<LinkedWorktree>) -> (Flow, String, String) {
    let (flow, action) = feed(flow, Event::Main { main: main_on("main") });
    assert!(matches!(action, Action::ListLinked { .. }));
    let (flow, action) = feed(flow, Event::Linked { worktrees: linked_worktrees });
    match action {
        Action::Probe { target, admin } => (flow, target, admin),
        other => panic!("unexpected {:?}", other),
    }
}

fn error_message(action: Action) -> String {
    match action {
        Action::Finish { result: Err(e) } => e.message(),
        other => panic!("expected a failure, got {:?}", other),
    }
}

#[test]
fn creates_branch_worktree() {
    let (flow, target, admin) = probe(add("feature/one", None), vec![]);
    assert_eq!(target, format!("{ROOT}/feature-one"));
    assert_eq!(admin, format!("{COMMON}/worktrees/feature-one"));

    let (flow, action) = feed(flow, Event::Probed { target_exists: false, admin_exists: false });
    match &action {
        Action::ResolveBranch { branch_ref } => assert_eq!(branch_ref, "refs/heads/feature/one"),
        other => panic!("unexpected {:?}", other),
    }
    let (flow, action) = feed(flow, Event::Branch { exists: false });
    match &action {
        Action::Materialize { plan } => {
            assert_eq!(plan.branch_ref, "refs/heads/feature/one");
            assert_eq!(plan.target_path, format!("{ROOT}/feature-one"));
            assert_eq!(plan.admin_dir, format!("{COMMON}/worktrees/feature-one"));
            assert!(plan.create_branch);
        }
        other => panic!("unexpected {:?}", other),
    }
    let (flow, action) = feed(flow, Event::Created { path: format!("{ROOT}/feature-one") });
    assert!(flow.is_done());
    match action {
        Action::Finish { result: Ok(out) } => assert_eq!(out, ""),
        other => panic!("unexpected {:?}", other),
    }
}

#[test]
fn e2e_add_accepts_target_path() {
    let path = format!("{ROOT}/custom-feature");
    let (_, target, admin) = probe(add("feature", Some(&path)), vec![]);
    assert_eq!(target, path);
    assert_eq!(admin, format!("{COMMON}/worktrees/feature"));
}

#[test]
fn accepts_slashy_branch_with_explicit_target_path() {
    let (flow, target, admin) = probe(add("user/foo/my-feature", Some("my-feature")), vec![]);
    assert_eq!(target, format!("{ROOT}/my-feature"));
    assert!(!target.ends_with("user-foo-my-feature"));
    assert_eq!(admin, format!("{COMMON}/worktrees/user-foo-my-feature"));
    let (flow, _) = feed(flow, Event::Probed { target_exists: false, admin_exists: false });
    let (_, action) = feed(flow, Event::Branch { exists: false });
    match action {
        Action::Materialize { plan } => assert_eq!(plan.branch_ref, "refs/heads/user/foo/my-feature"),
        other => panic!("unexpected {:?}", other),
    }
}

#[test]
fn resolves_relative_target_path_from_linked_worktree_root() {
    // Run from the linked worktree `feature`: a relative path still resolves
    // from the directory that holds the main worktree.
    let worktrees = vec![linked(&format!("{ROOT}/feature"), "feature", "feature")];
    let (_, target, _) = probe(add("user/foo/my-feature", Some("my-feature")), worktrees);
    assert_eq!(target, format!("{ROOT}/my-feature"));
    assert!(!target.starts_with(&format!("{ROOT}/feature/")));
}

#[test]
fn duplicate_fails() {
    let worktrees = vec![linked(&format!("{ROOT}/feature"), "feature", "feature")];
    let flow = add("feature", None);
    let (flow, _) = feed(flow, Event::Main { main: main_on("main") });
    let (flow, action) = feed(flow, Event::Linked { worktrees });
    assert!(flow.is_done());
    let message = error_message(action);
    assert!(message.contains("already checked out"));
    assert_eq!(message, format!("branch 'feature' is already checked out at {ROOT}/feature"));
}

#[test]
fn add_refuses_branch_of_main_worktree() {
    let flow = add("main", None);
    let (flow, action) = feed(flow, Event::Main { main: main_on("main") });
    assert!(flow.is_done());
    assert_eq!(error_message(action), format!("branch 'main' is already checked out at {REPO}"));
}

#[test]
fn derived_path_collision_does_not_create_branch() {
    let worktrees = vec![linked(&format!("{ROOT}/feature-foo"), "feature-foo", "feature-foo")];
    let (flow, target, _) = probe(add("feature/foo", None), worktrees);
    assert_eq!(target, format!("{ROOT}/feature-foo"));
    let (flow, action) = feed(flow, Event::Probed { target_exists: true, admin_exists: true });
    assert!(flow.is_done());
    assert!(error_message(action).contains("target path already exists"));
}

#[test]
fn existing_metadata_is_refused() {
    let (flow, _, admin) = probe(add("feature", None), vec![]);
    let (_, action) = feed(flow, Event::Probed { target_exists: false, admin_exists: true });
    assert_eq!(error_message(action), format!("worktree metadata already exists: {admin}"));
}

#[test]
fn existing_branch_is_checked_out_without_creating_it() {
    let (flow, _, _) = probe(add("feature", None), vec![]);
    let (flow, _) = feed(flow, Event::Probed { target_exists: false, admin_exists: false });
    let (_, action) = feed(flow, Event::Branch { exists: true });
    match action {
        Action::Materialize { plan } => assert!(!plan.create_branch),
        other => panic!("unexpected {:?}", other),
    }
}

#[test]
fn empty_branch_is_refused() {
    let flow = add("", None);
    let (flow, _) = feed(flow, Event::Main { main: main_on("main") });
    let (_, action) = feed(flow, Event::Linked { worktrees: vec![] });
    assert_eq!(error_message(action), "branch must not be empty");
}

#[test]
fn main_worktree_at_the_root_has_no_sibling() {
    let flow = add("feature", None);
    let main = MainWorktree { path: s("/"), branch: Some(s("main")), common_dir: s("/.git") };
    let (flow, _) = feed(flow, Event::Main { main });
    let (_, action) = feed(flow, Event::Linked { worktrees: vec![] });
    assert_eq!(error_message(action), "main worktree has no parent directory");
}

#[test]
fn outside_failure_ends_add() {
    let flow = add("feature", None);
    let (flow, action) =
        feed(flow, Event::Failed { error: wt::error::error(s("could not read HEAD")) });
    assert!(flow.is_done());
    assert_eq!(error_message(action), "could not read HEAD");
    assert!(!flow.accepts(&Event::Deleted));
}
