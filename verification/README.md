# wt

A small git worktree helper (`wt list`, `add`, `switch`, `fork`, `remove`,
`init`) whose decision logic is verified with Verus.

Layout:

- `src/` — the verified library.
  - `flow.rs`: each command as a state machine. `run` starts a command;
    `step` takes the outcome of the git or file-system work it asked for and
    decides what comes next, up to `Finish`. `step_spec` states every
    transition.
  - `worktree.rs`: worktree names, branch refs, where a new worktree goes,
    the link files between a worktree and its metadata, the listing, the
    choice of the repository from a worktree root, and clean-up bookkeeping
    for half-made worktrees.
  - `paths.rs`: Unix path text (join, parent, file name, canonical form).
  - `git.rs`: the git command lines for capturing and applying changes, and
    git's failure messages.
  - `init.rs`: the shell wrappers printed by `init`.
  - `error.rs`: the errors and their messages.
  - `laws.rs`: properties across steps and functions, proved.
- `app/main.rs` — the command line: argument parsing (clap), completions
  (clap_complete), repository access (gix), files and git processes. It runs
  the library's flows and performs the work they ask for.
- `tests/` — scenario tests of the flows and tests of the helpers.
