//! Shell setup code for `init`: completions plus a wrapper that lets
//! `switch` change the shell's working directory.

use vstd::prelude::*;

verus! {

/// A shell that `init` can set up.
#[derive(Clone, Copy, Debug, PartialEq, Eq, Structural)]
pub enum InitShell {
    Bash,
    Fish,
    Zsh,
}

/// The wrapper function for POSIX shells (bash and zsh).
pub const POSIX_SHELL_INTEGRATION: &'static str = r#"# Wrap `wt switch` so it can change the current shell's cwd.
wt() {
  if [ "${1:-}" = "switch" ]; then
    shift
    local target
    target="$(command wt switch "$@")" || return
    cd "$target"
  else
    command wt "$@"
  fi
}
"#;

/// The wrapper function for fish.
pub const FISH_SHELL_INTEGRATION: &'static str = r#"# Wrap `wt switch` so it can change the current shell's cwd.
function wt
    if test (count $argv) -gt 0; and test "$argv[1]" = switch
        set -l target (command wt switch $argv[2..-1])
        if test $status -ne 0
            return $status
        end
        cd "$target"
    else
        command wt $argv
    end
end
"#;

/// The wrapper code for `shell`: bash and zsh share the POSIX one.
pub open spec fn integration_spec(shell: InitShell) -> Seq<char> {
    match shell {
        InitShell::Bash | InitShell::Zsh => POSIX_SHELL_INTEGRATION@,
        InitShell::Fish => FISH_SHELL_INTEGRATION@,
    }
}

/// Everything that `init` prints: the completion script, a newline, then the
/// wrapper code for the shell.
pub open spec fn init_script_spec(completions: Seq<char>, shell: InitShell) -> Seq<char> {
    completions + "\n"@ + integration_spec(shell)
}

impl InitShell {
    /// The wrapper code for this shell (see `integration_spec`).
    pub fn integration(self) -> (r: &'static str)
        ensures
            r@ == integration_spec(self),
    {
        match self {
            InitShell::Bash | InitShell::Zsh => POSIX_SHELL_INTEGRATION,
            InitShell::Fish => FISH_SHELL_INTEGRATION,
        }
    }
}

/// Everything that `init` prints for `shell`, given the completion script
/// generated for it (see `init_script_spec`).
pub fn init_script(completions: &str, shell: InitShell) -> (r: String)
    ensures
        r@ == init_script_spec(completions@, shell),
{
    String::from_str(completions).concat("\n").concat(shell.integration())
}

} // verus!
