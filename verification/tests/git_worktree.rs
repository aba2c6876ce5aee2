use lazywt::git::worktree::{list_worktrees, parse_porcelain};
use lazywt::git::{GitReply, GitStep};

const TWO_WORKTREE_OUTPUT: &str = "\
worktree /home/user/project/.bare
HEAD abc1234567890abcdef1234567890abcdef123456
bare

worktree /home/user/project/trees/main
HEAD def4567890abcdef1234567890abcdef12345678
branch refs/heads/main

";

#[test]
fn parse_porcelain_two_worktrees_returns_vec_len_2() {
    let result = parse_porcelain(TWO_WORKTREE_OUTPUT);
    assert_eq!(result.len(), 2);
}

#[test]
fn parse_porcelain_first_entry_bare_has_is_bare_true() {
    let result = parse_porcelain(TWO_WORKTREE_OUTPUT);
    assert!(result[0].is_bare, "First entry with 'bare' flag should have is_bare=true");
    assert_eq!(result[0].branch, None, "Bare entry should have no branch");
}

#[test]
fn parse_porcelain_second_entry_has_correct_fields() {
    let result = parse_porcelain(TWO_WORKTREE_OUTPUT);
    assert_eq!(result[1].path, "/home/user/project/trees/main");
    assert_eq!(result[1].head, Some("def4567890abcdef1234567890abcdef12345678".to_string()));
    assert_eq!(result[1].branch, Some("main".to_string()));
}

#[test]
fn parse_porcelain_strips_refs_heads_from_branch() {
    let result = parse_porcelain(TWO_WORKTREE_OUTPUT);
    assert_eq!(result[1].branch, Some("main".to_string()), "Branch should be 'main' not 'refs/heads/main'");
}

#[test]
fn parse_porcelain_detached_head() {
    let output = "\
worktree /home/user/project/trees/detached
HEAD abc1234567890abcdef1234567890abcdef123456
detached

";
    let result = parse_porcelain(output);
    assert_eq!(result.len(), 1);
    assert!(result[0].is_detached, "Detached entry should have is_detached=true");
    assert_eq!(result[0].branch, None, "Detached entry should have no branch");
}

#[test]
fn parse_porcelain_locked_worktree() {
    let output = "\
worktree /home/user/project/trees/locked-wt
HEAD abc1234567890abcdef1234567890abcdef123456
branch refs/heads/feature/locked
locked

";
    let result = parse_porcelain(output);
    assert_eq!(result.len(), 1);
    assert!(result[0].is_locked, "Locked entry should have is_locked=true");
}

#[test]
fn parse_porcelain_locked_with_reason() {
    let output = "\
worktree /home/user/project/trees/locked-wt
HEAD abc1234567890abcdef1234567890abcdef123456
branch refs/heads/feature/locked
locked reason text

";
    let result = parse_porcelain(output);
    assert_eq!(result.len(), 1);
    assert!(result[0].is_locked, "Locked entry should have is_locked=true");
    assert_eq!(result[0].lock_reason, Some("reason text".to_string()));
}

#[test]
fn parse_porcelain_empty_input() {
    let result = parse_porcelain("");
    assert!(result.is_empty(), "Empty input should return empty vec");
}

#[test]
fn parse_porcelain_no_trailing_blank_line() {
    let output = "\
worktree /home/user/project/trees/main
HEAD abc1234567890abcdef1234567890abcdef123456
branch refs/heads/main";
    let result = parse_porcelain(output);
    assert_eq!(result.len(), 1, "Should handle output without trailing blank line");
    assert_eq!(result[0].branch, Some("main".to_string()));
}

#[test]
fn parse_porcelain_prunable_worktree() {
    let output = "\
worktree /home/user/project/trees/prunable-wt
HEAD abc1234567890abcdef1234567890abcdef123456
branch refs/heads/feature/old
prunable gitdir file points to non-existent location

";
    let result = parse_porcelain(output);
    assert_eq!(result.len(), 1);
    assert!(result[0].is_prunable, "Prunable entry should have is_prunable=true");
}

#[test]
fn parse_porcelain_nested_branch_name() {
    let output = "\
worktree /home/user/project/trees/auth
HEAD abc1234567890abcdef1234567890abcdef123456
branch refs/heads/feature/auth/login

";
    let result = parse_porcelain(output);
    assert_eq!(result[0].branch, Some("feature/auth/login".to_string()), "Should strip only refs/heads/ prefix, preserving nested path");
}

#[test]
fn new_record_closes_previous_without_blank_line() {
    let output = "worktree /a\nlocked\nworktree /b\n";
    let result = parse_porcelain(output);
    assert_eq!(result.len(), 2);
    assert!(result[0].is_locked);
    assert!(!result[1].is_locked);
}

#[test]
fn list_worktrees_failure_gives_upgrade_message() {
    match list_worktrees("/repo", &vec![GitReply::Failure("unknown option".to_string())]) {
        GitStep::Done(Err(m)) => assert!(m.contains("Please upgrade git to version 2.7 or later.")),
        _ => panic!("expected the failure message"),
    }
    match list_worktrees("/repo", &vec![GitReply::Success(TWO_WORKTREE_OUTPUT.to_string())]) {
        GitStep::Done(Ok(ws)) => assert_eq!(ws.len(), 2),
        _ => panic!("expected worktrees"),
    }
}
