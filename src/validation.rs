use vstd::prelude::*;
use vstd::string::*;
use crate::error::{AppError, AppResult};

verus! {

fn invalid_path(prefix: &str, path: &str) -> (r: AppError)
    ensures
        r matches AppError::InvalidPath(m) && m@ == prefix@ + path@,
{
    AppError::InvalidPath(String::from_str(prefix).concat(path))
}

/// Checks a worktree path that git is to run in: it must exist and be a
/// directory. `exists` and `is_dir` are what the file system reports of it.
pub fn check_worktree_path(worktree_path: &str, exists: bool, is_dir: bool) -> (r: AppResult<()>)
    ensures
        !exists ==> (r matches Err(AppError::InvalidPath(m)) && m@
            == "Worktree path does not exist: "@ + worktree_path@),
        exists && !is_dir ==> (r matches Err(AppError::InvalidPath(m)) && m@
            == "Worktree path is not a directory: "@ + worktree_path@),
        exists && is_dir ==> r == Ok::<(), AppError>(()),
{
    if !exists {
        return Err(invalid_path("Worktree path does not exist: ", worktree_path));
    }
    if !is_dir {
        return Err(invalid_path("Worktree path is not a directory: ", worktree_path));
    }
    Ok(())
}

/// Checks a repository path before it is opened: it must exist. `exists` is
/// what the file system reports of it.
pub fn check_repository_path(repo_path: &str, exists: bool) -> (r: AppResult<()>)
    ensures
        !exists ==> (r matches Err(AppError::InvalidPath(m)) && m@ == "Path does not exist: "@
            + repo_path@),
        exists ==> r == Ok::<(), AppError>(()),
{
    if !exists {
        return Err(invalid_path("Path does not exist: ", repo_path));
    }
    Ok(())
}

/// The repository that opening `repo_path` gave; a path that git could not
/// open as a repository is not one.
pub fn opened_repository<R>(repo_path: &str, opened: Result<R, git2::Error>) -> (r: AppResult<R>)
    ensures
        opened matches Ok(repo) ==> r == Ok::<R, AppError>(repo),
        opened is Err ==> (r matches Err(AppError::NotARepository(m)) && m@ == repo_path@),
{
    match opened {
        Ok(repo) => Ok(repo),
        Err(_) => Err(AppError::NotARepository(String::from_str(repo_path))),
    }
}

/// Whether validating a path found a repository: a path that is not a
/// repository gives `false`; any other failure is passed on.
pub fn repository_validity<R>(outcome: AppResult<R>) -> (r: AppResult<bool>)
    ensures
        outcome is Ok ==> r == Ok::<bool, AppError>(true),
        outcome matches Err(AppError::NotARepository(_)) ==> r == Ok::<bool, AppError>(false),
        outcome matches Err(e) ==> !(e is NotARepository) ==> r == Err::<bool, AppError>(e),
{
    match outcome {
        Ok(_) => Ok(true),
        Err(AppError::NotARepository(_)) => Ok(false),
        Err(e) => Err(e),
    }
}

} // verus!
