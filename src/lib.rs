//! Core logic of a desktop manager for git worktrees: error values and
//! their messages, the git command lines that each action runs, how the
//! outcome of such a run is read, and how repository status and branch
//! listings are turned into the records that the user interface shows.
pub mod branches;
pub mod error;
pub mod invocation;
pub mod repository;
pub mod status;
pub mod text;
pub mod validation;
pub mod worktrees;
