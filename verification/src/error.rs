//! The errors that worktree operations report, and their messages.

use vstd::prelude::*;

verus! {

/// Why a worktree operation failed.
#[derive(Debug)]
pub enum WtError {
    /// The branch name is empty.
    EmptyBranch,
    /// The branch is checked out already, at `path`.
    AlreadyCheckedOut { branch: String, path: String },
    /// The main worktree sits at the root, so it has no sibling directory.
    NoParentDirectory,
    /// The path where the new worktree would go exists already.
    TargetExists { path: String },
    /// The administrative directory of the new worktree exists already.
    MetadataExists { path: String },
    /// No linked worktree has the branch checked out.
    NoLinkedWorktree { branch: String },
    /// The worktree to remove has local changes and removal was not forced.
    HasChanges { branch: String },
    /// The repository that changes are forked from has no worktree.
    ForkNeedsWorktree,
    /// There are no changes to fork.
    NoChangesToFork,
    /// The fork target is the worktree that the changes come from.
    ForkToSelf,
    /// The repository is bare.
    BareRepository,
    /// The main worktree of the repository cannot be located.
    UnresolvedMainWorktree,
    /// Neither the current directory nor one of its subdirectories is a worktree.
    NotInRepository,
    /// Several subdirectories of the current directory are main worktrees.
    MultipleRoots,
    /// A HEAD refers to a name that is not a valid reference name.
    InvalidReferenceName { name: String },
    /// A failure reported by git, the file system or another outside party.
    Other { message: String },
}

/// The text of the message that reports `e`.
pub open spec fn message_spec(e: WtError) -> Seq<char> {
    match e {
        WtError::EmptyBranch => "branch must not be empty"@,
        WtError::AlreadyCheckedOut { branch, path } => "branch '"@ + branch@
            + "' is already checked out at "@ + path@,
        WtError::NoParentDirectory => "main worktree has no parent directory"@,
        WtError::TargetExists { path } => "target path already exists: "@ + path@,
        WtError::MetadataExists { path } => "worktree metadata already exists: "@ + path@,
        WtError::NoLinkedWorktree { branch } => "no linked worktree for branch '"@ + branch@
            + "'"@,
        WtError::HasChanges { branch } => "worktree for branch '"@ + branch@
            + "' has changes; use --force"@,
        WtError::ForkNeedsWorktree => "fork requires a worktree"@,
        WtError::NoChangesToFork => "no changes to fork"@,
        WtError::ForkToSelf => "cannot fork changes to the current worktree"@,
        WtError::BareRepository => "bare repositories are not supported"@,
        WtError::UnresolvedMainWorktree => "main worktree path could not be resolved"@,
        WtError::NotInRepository => "not in a git repository or worktree root"@,
        WtError::MultipleRoots => "multiple git worktree roots found; run inside a worktree"@,
        WtError::InvalidReferenceName { name } => "invalid reference name: "@ + name@,
        WtError::Other { message } => message@,
    }
}

impl WtError {
    /// The message that reports this error to the user.
    pub fn message(&self) -> (r: String)
        ensures
            r@ == message_spec(*self),
    {
        match self {
            WtError::EmptyBranch => String::from_str("branch must not be empty"),
            WtError::AlreadyCheckedOut { branch, path } => String::from_str("branch '").concat(
                branch.as_str(),
            ).concat("' is already checked out at ").concat(path.as_str()),
            WtError::NoParentDirectory => String::from_str("main worktree has no parent directory"),
            WtError::TargetExists { path } => String::from_str(
                "target path already exists: ",
            ).concat(path.as_str()),
            WtError::MetadataExists { path } => String::from_str(
                "worktree metadata already exists: ",
            ).concat(path.as_str()),
            WtError::NoLinkedWorktree { branch } => String::from_str(
                "no linked worktree for branch '",
            ).concat(branch.as_str()).concat("'"),
            WtError::HasChanges { branch } => String::from_str("worktree for branch '").concat(
                branch.as_str(),
            ).concat("' has changes; use --force"),
            WtError::ForkNeedsWorktree => String::from_str("fork requires a worktree"),
            WtError::NoChangesToFork => String::from_str("no changes to fork"),
            WtError::ForkToSelf => String::from_str("cannot fork changes to the current worktree"),
            WtError::BareRepository => String::from_str("bare repositories are not supported"),
            WtError::UnresolvedMainWorktree => String::from_str(
                "main worktree path could not be resolved",
            ),
            WtError::NotInRepository => String::from_str("not in a git repository or worktree root"),
            WtError::MultipleRoots => String::from_str(
                "multiple git worktree roots found; run inside a worktree",
            ),
            WtError::InvalidReferenceName { name } => String::from_str(
                "invalid reference name: ",
            ).concat(name.as_str()),
            WtError::Other { message } => message.clone(),
        }
    }
}

/// An error that carries `message` as it is.
pub fn error(message: String) -> (r: WtError)
    ensures
        r == (WtError::Other { message }),
{
    WtError::Other { message }
}

/// A failed result that carries `message` as it is.
pub fn fail<T>(message: String) -> (r: Result<T, WtError>)
    ensures
        r == Err::<T, WtError>(WtError::Other { message }),
{
    Err(error(message))
}

} // verus!
