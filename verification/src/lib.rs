//! Planning and verified decision logic for an ergonomic git worktree helper.

pub mod paths;
pub mod error;
pub mod worktree;
pub mod init;
pub mod git;
pub mod flow;
pub mod laws;
pub mod refs;
