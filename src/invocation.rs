use vstd::prelude::*;
use vstd::string::*;
use crate::error::{AppError, AppResult};
use crate::text::{contains_text, has_substring, texts};

verus! {

/// An action that runs the `git` program, with what it acts on.
#[derive(Debug)]
pub enum GitAction {
    /// Fetch from every remote.
    Fetch,
    Pull,
    Push,
    Commit { message: String },
    Stage { file_path: String },
    Unstage { file_path: String },
    Checkout { branch: String },
    /// Add a worktree at `worktree_path` on `branch`, creating the branch
    /// first where `create_branch` holds.
    AddWorktree { worktree_path: String, branch: String, create_branch: bool },
    RemoveWorktree { worktree_path: String, force: bool },
    LockWorktree { worktree_path: String, reason: Option<String> },
    UnlockWorktree { worktree_path: String },
}

/// The arguments that `git` is run with for an action.
pub open spec fn action_args(a: GitAction) -> Seq<Seq<char>> {
    match a {
        GitAction::Fetch => seq!["fetch"@, "--all"@],
        GitAction::Pull => seq!["pull"@],
        GitAction::Push => seq!["push"@],
        GitAction::Commit { message } => seq!["commit"@, "-m"@, message@],
        GitAction::Stage { file_path } => seq!["add"@, file_path@],
        GitAction::Unstage { file_path } => seq!["restore"@, "--staged"@, file_path@],
        GitAction::Checkout { branch } => seq!["checkout"@, branch@],
        GitAction::AddWorktree { worktree_path, branch, create_branch } => if create_branch {
            seq!["worktree"@, "add"@, "-b"@, branch@, worktree_path@]
        } else {
            seq!["worktree"@, "add"@, worktree_path@, branch@]
        },
        GitAction::RemoveWorktree { worktree_path, force } => if force {
            seq!["worktree"@, "remove"@, "--force"@, worktree_path@]
        } else {
            seq!["worktree"@, "remove"@, worktree_path@]
        },
        GitAction::LockWorktree { worktree_path, reason } => match reason {
            Some(r) => seq!["worktree"@, "lock"@, "--reason"@, r@, worktree_path@],
            None => seq!["worktree"@, "lock"@, worktree_path@],
        },
        GitAction::UnlockWorktree { worktree_path } => seq![
            "worktree"@,
            "unlock"@,
            worktree_path@,
        ],
    }
}

fn push_arg(args: &mut Vec<String>, s: &str)
    ensures
        texts(final(args)@) == texts(old(args)@).push(s@),
{
    args.push(String::from_str(s));
    assert(texts(final(args)@) =~= texts(old(args)@).push(s@));
}

/// The arguments that `git` is run with for `action`.
pub fn git_args(action: &GitAction) -> (r: Vec<String>)
    ensures
        texts(r@) == action_args(*action),
{
    let mut args: Vec<String> = Vec::new();
    match action {
        GitAction::Fetch => {
            push_arg(&mut args, "fetch");
            push_arg(&mut args, "--all");
        },
        GitAction::Pull => {
            push_arg(&mut args, "pull");
        },
        GitAction::Push => {
            push_arg(&mut args, "push");
        },
        GitAction::Commit { message } => {
            push_arg(&mut args, "commit");
            push_arg(&mut args, "-m");
            push_arg(&mut args, message.as_str());
        },
        GitAction::Stage { file_path } => {
            push_arg(&mut args, "add");
            push_arg(&mut args, file_path.as_str());
        },
        GitAction::Unstage { file_path } => {
            push_arg(&mut args, "restore");
            push_arg(&mut args, "--staged");
            push_arg(&mut args, file_path.as_str());
        },
        GitAction::Checkout { branch } => {
            push_arg(&mut args, "checkout");
            push_arg(&mut args, branch.as_str());
        },
        GitAction::AddWorktree { worktree_path, branch, create_branch } => {
            push_arg(&mut args, "worktree");
            push_arg(&mut args, "add");
            if *create_branch {
                push_arg(&mut args, "-b");
                push_arg(&mut args, branch.as_str());
                push_arg(&mut args, worktree_path.as_str());
            } else {
                push_arg(&mut args, worktree_path.as_str());
                push_arg(&mut args, branch.as_str());
            }
        },
        GitAction::RemoveWorktree { worktree_path, force } => {
            push_arg(&mut args, "worktree");
            push_arg(&mut args, "remove");
            if *force {
                push_arg(&mut args, "--force");
            }
            push_arg(&mut args, worktree_path.as_str());
        },
        GitAction::LockWorktree { worktree_path, reason } => {
            push_arg(&mut args, "worktree");
            push_arg(&mut args, "lock");
            match reason {
                Some(r) => {
                    push_arg(&mut args, "--reason");
                    push_arg(&mut args, r.as_str());
                },
                None => {},
            }
            push_arg(&mut args, worktree_path.as_str());
        },
        GitAction::UnlockWorktree { worktree_path } => {
            push_arg(&mut args, "worktree");
            push_arg(&mut args, "unlock");
            push_arg(&mut args, worktree_path.as_str());
        },
    }
    assert(texts(args@) =~= action_args(*action));
    args
}

/// What a finished run of `git` reported: whether it exited with success,
/// and what it wrote to its standard output and standard error.
#[derive(Debug)]
pub struct GitOutput {
    pub success: bool,
    pub stdout: String,
    pub stderr: String,
}

/// The standard output of a successful run; a failed run is a command error
/// that carries the standard error.
pub fn output_text(out: GitOutput) -> (r: AppResult<String>)
    ensures
        r == (if out.success {
            Ok::<String, AppError>(out.stdout)
        } else {
            Err(AppError::Command(out.stderr))
        }),
{
    if out.success {
        Ok(out.stdout)
    } else {
        Err(AppError::Command(out.stderr))
    }
}

/// Success of a run whose output is not shown; a failed run is a command
/// error that carries the standard error.
pub fn output_done(out: GitOutput) -> (r: AppResult<()>)
    ensures
        r == (if out.success {
            Ok::<(), AppError>(())
        } else {
            Err(AppError::Command(out.stderr))
        }),
{
    if out.success {
        Ok(())
    } else {
        Err(AppError::Command(out.stderr))
    }
}

/// The words with which git refuses a branch that another worktree holds.
pub open spec fn branch_in_use_marker() -> Seq<char> {
    "already checked out"@
}

/// The outcome of adding a worktree on `branch`: a failure whose standard
/// error says that the branch is already checked out names the branch;
/// any other failure is a command error.
pub fn add_worktree_outcome(branch: &str, out: GitOutput) -> (r: AppResult<()>)
    ensures
        out.success ==> r == Ok::<(), AppError>(()),
        !out.success && has_substring(out.stderr@, branch_in_use_marker()) ==> (r matches Err(
            AppError::BranchInUse(b),
        ) && b@ == branch@),
        !out.success && !has_substring(out.stderr@, branch_in_use_marker()) ==> r == Err::<
            (),
            AppError,
        >(AppError::Command(out.stderr)),
{
    if out.success {
        Ok(())
    } else if contains_text(out.stderr.as_str(), "already checked out") {
        Err(AppError::BranchInUse(String::from_str(branch)))
    } else {
        Err(AppError::Command(out.stderr))
    }
}

} // verus!
