use vstd::prelude::*;
use vstd::string::*;

verus! {

#[verifier::external_type_specification]
#[verifier::external_body]
pub struct ExGitError(git2::Error);

#[verifier::external_type_specification]
#[verifier::external_body]
pub struct ExIoError(std::io::Error);

/// Every way in which an action on a repository or worktree can fail.
#[derive(Debug)]
pub enum AppError {
    Git(git2::Error),
    Io(std::io::Error),
    Command(String),
    InvalidPath(String),
    NotARepository(String),
    UncommittedChanges,
    WorktreeLocked(String),
    BranchInUse(String),
    WorktreeNotFound(String),
    Other(String),
}

pub type AppResult<T> = Result<T, AppError>;

/// `r` is `prefix` followed by the display text of `e`.
pub open spec fn displays_as<T: core::fmt::Display>(r: Seq<char>, prefix: Seq<char>, e: &T) -> bool {
    exists|d: String| to_string_from_display_ensures::<T>(e, d) && r == prefix + d@
}

/// The message of an error whose payload is a string.
pub open spec fn message_spec(e: &AppError) -> Seq<char> {
    match e {
        AppError::Command(s) => "Command failed: "@ + s@,
        AppError::InvalidPath(s) => "Invalid path: "@ + s@,
        AppError::NotARepository(s) => "Not a git repository: "@ + s@,
        AppError::UncommittedChanges => "Worktree has uncommitted changes"@,
        AppError::WorktreeLocked(s) => "Worktree is locked: "@ + s@,
        AppError::BranchInUse(s) => "Branch already checked out in another worktree: "@ + s@,
        AppError::WorktreeNotFound(s) => "Worktree not found: "@ + s@,
        AppError::Other(s) => s@,
        _ => Seq::empty(),
    }
}

fn prefixed(prefix: &str, s: &String) -> (r: String)
    ensures
        r@ == prefix@ + s@,
{
    String::from_str(prefix).concat(s.as_str())
}

impl AppError {
    /// The human-readable message of the error, as shown to the user.
    pub fn to_string(&self) -> (r: String)
        ensures
            match self {
                AppError::Git(e) => displays_as(r@, "Git error: "@, e),
                AppError::Io(e) => displays_as(r@, "IO error: "@, e),
                _ => r@ == message_spec(self),
            },
    {
        match self {
            AppError::Git(e) => {
                let d = e.to_string();
                String::from_str("Git error: ").concat(d.as_str())
            },
            AppError::Io(e) => {
                let d = e.to_string();
                String::from_str("IO error: ").concat(d.as_str())
            },
            AppError::Command(s) => prefixed("Command failed: ", s),
            AppError::InvalidPath(s) => prefixed("Invalid path: ", s),
            AppError::NotARepository(s) => prefixed("Not a git repository: ", s),
            AppError::UncommittedChanges => String::from_str("Worktree has uncommitted changes"),
            AppError::WorktreeLocked(s) => prefixed("Worktree is locked: ", s),
            AppError::BranchInUse(s) => prefixed(
                "Branch already checked out in another worktree: ",
                s,
            ),
            AppError::WorktreeNotFound(s) => prefixed("Worktree not found: ", s),
            AppError::Other(s) => s.clone(),
        }
    }
}

impl From<git2::Error> for AppError {
    fn from(e: git2::Error) -> (r: AppError)
        ensures
            r == AppError::Git(e),
    {
        AppError::Git(e)
    }
}

impl vstd::std_specs::convert::FromSpecImpl<git2::Error> for AppError {
    open spec fn obeys_from_spec() -> bool {
        true
    }

    open spec fn from_spec(e: git2::Error) -> AppError {
        AppError::Git(e)
    }
}

impl From<std::io::Error> for AppError {
    fn from(e: std::io::Error) -> (r: AppError)
        ensures
            r == AppError::Io(e),
    {
        AppError::Io(e)
    }
}

impl vstd::std_specs::convert::FromSpecImpl<std::io::Error> for AppError {
    open spec fn obeys_from_spec() -> bool {
        true
    }

    open spec fn from_spec(e: std::io::Error) -> AppError {
        AppError::Io(e)
    }
}

} // verus!
