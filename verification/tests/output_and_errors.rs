use lazywt::error::LazywtError;
use lazywt::output::{
    ARROW, CHECK, CROSS, LOCKED, MAIN_AHEAD, MAIN_BEHIND, MAIN_CONFLICT, MAIN_DIVERGE,
    MAIN_INTEGRATED, MAIN_IS_DEFAULT, MAIN_ORPHAN, MAIN_SAME_COMMIT, OP_MERGE, OP_REBASE,
    PRUNABLE, STAR, UPSTREAM_AHEAD, UPSTREAM_BEHIND, UPSTREAM_DIVERGE, UPSTREAM_NONE,
    UPSTREAM_SYNC,
};

#[test]
fn check_symbol_is_checkmark() {
    assert_eq!(CHECK, "\u{2713}");
    assert_eq!(CHECK, "\u{2713}");
}

#[test]
fn cross_symbol_is_x_mark() {
    assert_eq!(CROSS, "\u{2717}");
}

#[test]
fn star_symbol_is_filled_star() {
    assert_eq!(STAR, "\u{2605}");
}

#[test]
fn arrow_symbol_is_right_triangle() {
    assert_eq!(ARROW, "\u{25B8}");
}

#[test]
fn upstream_ahead_symbol() { assert_eq!(UPSTREAM_AHEAD, "\u{21E1}"); }
#[test]
fn upstream_behind_symbol() { assert_eq!(UPSTREAM_BEHIND, "\u{21E3}"); }
#[test]
fn upstream_diverge_symbol() { assert_eq!(UPSTREAM_DIVERGE, "\u{21C5}"); }
#[test]
fn upstream_sync_symbol() { assert_eq!(UPSTREAM_SYNC, "|"); }
#[test]
fn upstream_none_symbol() { assert_eq!(UPSTREAM_NONE, "\u{2014}"); }
#[test]
fn main_is_default_symbol() { assert_eq!(MAIN_IS_DEFAULT, "^"); }
#[test]
fn main_ahead_symbol() { assert_eq!(MAIN_AHEAD, "\u{2191}"); }
#[test]
fn main_behind_symbol() { assert_eq!(MAIN_BEHIND, "\u{2193}"); }
#[test]
fn main_diverge_symbol() { assert_eq!(MAIN_DIVERGE, "\u{2195}"); }
#[test]
fn main_integrated_symbol() { assert_eq!(MAIN_INTEGRATED, "\u{2282}"); }
#[test]
fn main_conflict_symbol() { assert_eq!(MAIN_CONFLICT, "\u{2717}"); }
#[test]
fn main_same_commit_symbol() { assert_eq!(MAIN_SAME_COMMIT, "_"); }
#[test]
fn main_orphan_symbol() { assert_eq!(MAIN_ORPHAN, "\u{2205}"); }
#[test]
fn op_rebase_symbol() { assert_eq!(OP_REBASE, "\u{2934}"); }
#[test]
fn op_merge_symbol() { assert_eq!(OP_MERGE, "\u{2935}"); }
#[test]
fn locked_symbol() { assert_eq!(LOCKED, "\u{229E}"); }
#[test]
fn prunable_symbol() { assert_eq!(PRUNABLE, "\u{229F}"); }

#[test]
fn not_in_repo_display() {
    let err = LazywtError::NotInRepo;
    assert_eq!(err.message(), "not inside a git repository");
}

#[test]
fn not_bare_repo_display() {
    let err = LazywtError::NotBareRepo;
    assert_eq!(err.message(), "this command requires a bare repository");
}

#[test]
fn worktree_not_found_display() {
    let err = LazywtError::WorktreeNotFound("foo".to_string());
    assert_eq!(err.message(), "worktree 'foo' not found");
}

#[test]
fn worktree_exists_display() {
    let err = LazywtError::WorktreeExists("bar".to_string());
    assert_eq!(err.message(), "worktree 'bar' already exists");
}

#[test]
fn cannot_remove_default_display() {
    let err = LazywtError::CannotRemoveDefault("main".to_string());
    assert_eq!(err.message(), "cannot remove default branch worktree 'main'");
}

#[test]
fn branch_exists_display() {
    let err = LazywtError::BranchExists("feature/x".to_string());
    assert_eq!(err.message(), "branch 'feature/x' already exists");
}

#[test]
fn git_failed_display() {
    let err = LazywtError::GitFailed {
        command: "status".to_string(),
        stderr: "fatal error".to_string(),
        exit_code: Some(128),
    };
    assert_eq!(err.message(), "git command failed: status");
}

#[test]
fn invalid_name_display() {
    let err = LazywtError::InvalidName("..bad".to_string());
    assert_eq!(err.message(), "invalid worktree name: ..bad");
}

#[test]
fn config_error_display() {
    let err = LazywtError::Config("parse failure".to_string());
    assert_eq!(err.message(), "config error: parse failure");
}

#[test]
fn directory_exists_display() {
    let err = LazywtError::DirectoryExists("foo".to_string());
    assert_eq!(err.message(), "directory 'foo' already exists");
}

#[test]
fn non_interactive_stdin_display() {
    let err = LazywtError::NonInteractiveStdin;
    assert_eq!(err.message(), "cannot prompt for confirmation -- use --yes to skip");
}

#[test]
fn no_default_branch_display() {
    let err = LazywtError::NoDefaultBranch;
    assert_eq!(err.message(), "failed to detect default branch");
}

#[test]
fn source_worktree_not_found_display() {
    let err = LazywtError::SourceWorktreeNotFound("dev".to_string());
    assert_eq!(err.message(), "source worktree 'dev' not found");
}

#[test]
fn already_modern_layout_display() {
    let err = LazywtError::AlreadyModernLayout;
    assert_eq!(err.message(), "already using modern layout");
}

#[test]
fn migrate_target_exists_display() {
    let err = LazywtError::MigrateTargetExists(".git".to_string());
    assert_eq!(err.message(), "migration target '.git' already exists");
}

#[test]
fn migrate_failed_display() {
    let err = LazywtError::MigrateFailed("rename failed".to_string());
    assert_eq!(err.message(), "migration failed: rename failed");
}
