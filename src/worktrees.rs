use vstd::prelude::*;
use vstd::string::*;
use crate::error::{AppError, AppResult};
use crate::invocation::GitAction;

verus! {

/// A worktree as shown to the user: where it is, the branch checked out
/// there, whether it is the repository's main worktree, and whether it is
/// locked.
#[derive(Debug)]
pub struct WorktreeInfo {
    pub path: String,
    pub branch: Option<String>,
    pub is_main: bool,
    pub is_locked: bool,
}

/// What git reports of a linked worktree.
#[derive(Debug)]
pub struct LinkedWorktree {
    pub path: String,
    pub branch: Option<String>,
    pub is_locked: bool,
}

/// The record of a linked worktree: never the main one.
pub open spec fn linked_info(l: LinkedWorktree) -> WorktreeInfo {
    WorktreeInfo { path: l.path, branch: l.branch, is_main: false, is_locked: l.is_locked }
}

fn clone_branch(b: &Option<String>) -> (r: Option<String>)
    ensures
        r == *b,
{
    match b {
        Some(s) => Some(s.clone()),
        None => None,
    }
}

/// The record of the main worktree, from the repository's working
/// directory and its current branch. A repository without a working
/// directory has no main worktree.
pub fn main_worktree(workdir: Option<String>, branch: Option<String>) -> (r: AppResult<WorktreeInfo>)
    ensures
        workdir matches Some(p) ==> r == Ok::<WorktreeInfo, AppError>(
            WorktreeInfo { path: p, branch, is_main: true, is_locked: false },
        ),
        workdir is None ==> (r matches Err(AppError::InvalidPath(m)) && m@
            == "Repository has no working directory"@),
{
    match workdir {
        Some(path) => Ok(WorktreeInfo { path, branch, is_main: true, is_locked: false }),
        None => Err(AppError::InvalidPath(String::from_str("Repository has no working directory"))),
    }
}

/// Every worktree of a repository: the main one first, then the linked
/// ones in the order given.
pub fn worktree_listing(main: WorktreeInfo, linked: &Vec<LinkedWorktree>) -> (r: Vec<WorktreeInfo>)
    ensures
        r@.len() == linked@.len() + 1,
        r@[0] == main,
        forall|i: int| 0 <= i < linked@.len() ==> r@[i + 1] == linked_info(#[trigger] linked@[i]),
{
    let mut r: Vec<WorktreeInfo> = Vec::new();
    r.push(main);
    let mut i: usize = 0;
    while i < linked.len()
        invariant
            i <= linked@.len(),
            r@.len() == i + 1,
            r@[0] == main,
            forall|k: int| 0 <= k < i ==> r@[k + 1] == linked_info(#[trigger] linked@[k]),
        decreases linked@.len() - i,
    {
        let l = &linked[i];
        r.push(
            WorktreeInfo {
                path: l.path.clone(),
                branch: clone_branch(&l.branch),
                is_main: false,
                is_locked: l.is_locked,
            },
        );
        i = i + 1;
    }
    r
}

/// Whether a worktree has uncommitted changes, from the number of entries
/// that its status lists (untracked files included): any entry is a change.
pub fn has_changes(status_entries: usize) -> (r: bool)
    ensures
        r == (status_entries > 0),
{
    status_entries > 0
}

/// The next step in removing a worktree.
#[derive(Debug)]
pub enum RemovalStep {
    /// Find out whether the worktree has uncommitted changes, then ask again.
    CheckChanges,
    /// Run git with this action.
    Run(GitAction),
}

/// `path` is one of the worktree paths in `known`.
pub open spec fn is_known(known: Seq<String>, path: Seq<char>) -> bool {
    exists|i: int| 0 <= i < known.len() && known[i]@ == path
}

fn known_exec(known: &Vec<String>, path: &str) -> (r: bool)
    ensures
        r == is_known(known@, path@),
{
    let target = String::from_str(path);
    let mut i: usize = 0;
    while i < known.len()
        invariant
            i <= known@.len(),
            target@ == path@,
            forall|k: int| 0 <= k < i ==> known@[k]@ != path@,
        decreases known@.len() - i,
    {
        if known[i] == target {
            return true;
        }
        i = i + 1;
    }
    false
}

/// Decides the next step in removing the worktree at `worktree_path`, given
/// the paths of the repository's linked worktrees and, once it is known,
/// whether the worktree has uncommitted changes. An unknown worktree is
/// refused; without `force`, so is one with uncommitted changes.
pub fn removal_step(worktree_path: &str, known: &Vec<String>, force: bool, has_changes: Option<bool>) -> (r: AppResult<RemovalStep>)
    ensures
        !is_known(known@, worktree_path@) ==> (r matches Err(AppError::WorktreeNotFound(m)) && m@
            == worktree_path@),
        is_known(known@, worktree_path@) && !force && has_changes is None ==> (r matches Ok(
            RemovalStep::CheckChanges,
        )),
        is_known(known@, worktree_path@) && !force && has_changes == Some(true) ==> (r matches Err(
            AppError::UncommittedChanges,
        )),
        is_known(known@, worktree_path@) && (force || has_changes == Some(false)) ==> (r matches Ok(
            RemovalStep::Run(GitAction::RemoveWorktree { worktree_path: p, force: f }),
        ) && p@ == worktree_path@ && f == force),
{
    if !known_exec(known, worktree_path) {
        return Err(AppError::WorktreeNotFound(String::from_str(worktree_path)));
    }
    if !force {
        match has_changes {
            None => {
                return Ok(RemovalStep::CheckChanges);
            },
            Some(true) => {
                return Err(AppError::UncommittedChanges);
            },
            Some(false) => {},
        }
    }
    Ok(RemovalStep::Run(GitAction::RemoveWorktree { worktree_path: String::from_str(worktree_path), force }))
}

} // verus!
