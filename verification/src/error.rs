//! The errors that commands report, and their messages.
use vstd::prelude::*;

use crate::text::{chars_of, concat, string_of};

verus! {

#[derive(Debug, Clone)]
pub enum LazywtError {
    NotInRepo,
    NotBareRepo,
    WorktreeNotFound(String),
    WorktreeExists(String),
    CannotRemoveDefault(String),
    BranchExists(String),
    GitFailed { command: String, stderr: String, exit_code: Option<i32> },
    InvalidName(String),
    Config(String),
    DirectoryExists(String),
    NonInteractiveStdin,
    NoDefaultBranch,
    SourceWorktreeNotFound(String),
    AlreadyModernLayout,
    MigrateTargetExists(String),
    MigrateFailed(String),
}

/// The message of an error.
pub open spec fn error_message(e: LazywtError) -> Seq<char> {
    match e {
        LazywtError::NotInRepo => "not inside a git repository"@,
        LazywtError::NotBareRepo => "this command requires a bare repository"@,
        LazywtError::WorktreeNotFound(n) => "worktree '"@ + n@ + "' not found"@,
        LazywtError::WorktreeExists(n) => "worktree '"@ + n@ + "' already exists"@,
        LazywtError::CannotRemoveDefault(n) => "cannot remove default branch worktree '"@ + n@ + "'"@,
        LazywtError::BranchExists(n) => "branch '"@ + n@ + "' already exists"@,
        LazywtError::GitFailed { command, .. } => "git command failed: "@ + command@,
        LazywtError::InvalidName(n) => "invalid worktree name: "@ + n@,
        LazywtError::Config(m) => "config error: "@ + m@,
        LazywtError::DirectoryExists(n) => "directory '"@ + n@ + "' already exists"@,
        LazywtError::NonInteractiveStdin => "cannot prompt for confirmation -- use --yes to skip"@,
        LazywtError::NoDefaultBranch => "failed to detect default branch"@,
        LazywtError::SourceWorktreeNotFound(n) => "source worktree '"@ + n@ + "' not found"@,
        LazywtError::AlreadyModernLayout => "already using modern layout"@,
        LazywtError::MigrateTargetExists(n) => "migration target '"@ + n@ + "' already exists"@,
        LazywtError::MigrateFailed(m) => "migration failed: "@ + m@,
    }
}

/// `before + middle + after`.
fn framed(before: &str, middle: &String, after: &str) -> (r: String)
    ensures
        r@ == before@ + middle@ + after@,
{
    string_of(&concat(&concat(&chars_of(before), &chars_of(middle.as_str())), &chars_of(after)))
}

/// `before + rest`.
fn prefixed(before: &str, rest: &String) -> (r: String)
    ensures
        r@ == before@ + rest@,
{
    string_of(&concat(&chars_of(before), &chars_of(rest.as_str())))
}

impl LazywtError {
    /// The message shown for this error.
    pub fn message(&self) -> (r: String)
        ensures
            r@ == error_message(*self),
    {
        match self {
            LazywtError::NotInRepo => "not inside a git repository".to_string(),
            LazywtError::NotBareRepo => "this command requires a bare repository".to_string(),
            LazywtError::WorktreeNotFound(n) => framed("worktree '", n, "' not found"),
            LazywtError::WorktreeExists(n) => framed("worktree '", n, "' already exists"),
            LazywtError::CannotRemoveDefault(n) => framed("cannot remove default branch worktree '", n, "'"),
            LazywtError::BranchExists(n) => framed("branch '", n, "' already exists"),
            LazywtError::GitFailed { command, .. } => prefixed("git command failed: ", command),
            LazywtError::InvalidName(n) => prefixed("invalid worktree name: ", n),
            LazywtError::Config(m) => prefixed("config error: ", m),
            LazywtError::DirectoryExists(n) => framed("directory '", n, "' already exists"),
            LazywtError::NonInteractiveStdin => "cannot prompt for confirmation -- use --yes to skip".to_string(),
            LazywtError::NoDefaultBranch => "failed to detect default branch".to_string(),
            LazywtError::SourceWorktreeNotFound(n) => framed("source worktree '", n, "' not found"),
            LazywtError::AlreadyModernLayout => "already using modern layout".to_string(),
            LazywtError::MigrateTargetExists(n) => framed("migration target '", n, "' already exists"),
            LazywtError::MigrateFailed(m) => prefixed("migration failed: ", m),
        }
    }
}

} // verus!
