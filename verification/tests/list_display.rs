use lazywt::commands::effects::{Effect, Outcome};
use lazywt::commands::list;
use lazywt::commands::list::collect::WorktreeInfo;
use lazywt::commands::list::display::{
    format_dirty, format_main_rel, format_orphan_merged, format_special_indicators, format_upstream, plain_text,
    print_rich, print_rich_line, print_short_line, Style,
};
use lazywt::git::branch_info::BranchInfo;
use lazywt::git::main_relationship::MainRelationship;
use lazywt::git::operations::{ActiveOperation, FsReply};
use lazywt::git::status::WorktreeStatus;
use lazywt::git::worktree::Worktree;
use lazywt::git::GitReply;
use lazywt::layout::{LayoutType, ProjectContext};

fn test_info(op: ActiveOperation, locked: bool, prunable: bool) -> WorktreeInfo {
    WorktreeInfo {
        worktree: Worktree {
            path: "/test/wt".to_string(),
            head: Some("abc123".to_string()),
            branch: Some("main".to_string()),
            is_bare: false,
            is_detached: false,
            is_locked: locked,
            lock_reason: None,
            is_prunable: prunable,
        },
        status: WorktreeStatus::default(),
        main_rel: MainRelationship::IsDefault,
        operation: op,
        branch_info: None,
        line_diff_head: None,
        line_diff_main: None,
        is_current: false,
        display_name: "main".to_string(),
        is_orphan: false,
        is_merged: false,
    }
}

fn status(staged: bool, modified: bool, untracked: bool, ahead: u32, behind: u32, upstream: bool) -> WorktreeStatus {
    WorktreeStatus { has_staged: staged, has_modified: modified, has_untracked: untracked, ahead, behind, has_upstream: upstream }
}

#[test]
fn format_dirty_clean() {
    let result = format_dirty(&WorktreeStatus::default());
    assert!(result.text.contains("clean"));
    assert_eq!(result.style, Style::Dimmed);
}

#[test]
fn format_dirty_all_flags() {
    let result = format_dirty(&status(true, true, true, 0, 0, false));
    assert!(result.text.contains("+!?"));
    assert_eq!(result.text, "  +!?");
}

#[test]
fn format_upstream_no_upstream() {
    let result = format_upstream(&status(false, false, false, 0, 0, false));
    assert!(result.text.contains("\u{2014}"));
}

#[test]
fn format_upstream_in_sync() {
    let result = format_upstream(&status(false, false, false, 0, 0, true));
    assert!(result.text.contains("|"));
}

#[test]
fn format_upstream_ahead() {
    let result = format_upstream(&status(false, false, false, 3, 0, true));
    assert!(result.text.contains("3"));
    assert_eq!(result.text, "\u{21E1}3");
}

#[test]
fn format_upstream_behind() {
    let result = format_upstream(&status(false, false, false, 0, 3, true));
    assert!(result.text.contains("3"), "Should contain behind count, got: {}", result.text);
}

#[test]
fn format_upstream_diverged() {
    let result = format_upstream(&status(false, false, false, 2, 3, true));
    assert!(!result.text.is_empty(), "Should produce non-empty result");
    assert_eq!(result.text, "\u{21C5}");
}

#[test]
fn format_main_rel_is_default() {
    assert!(format_main_rel(&MainRelationship::IsDefault).text.contains("^"));
}

#[test]
fn format_main_rel_ahead() {
    assert!(format_main_rel(&MainRelationship::Ahead(5)).text.contains("5"));
}

#[test]
fn format_main_rel_orphan() {
    assert!(!format_main_rel(&MainRelationship::Orphan).text.is_empty());
}

#[test]
fn format_main_rel_same_commit() {
    assert!(format_main_rel(&MainRelationship::SameCommit).text.contains("_"));
}

#[test]
fn format_main_rel_integrated() {
    assert!(!format_main_rel(&MainRelationship::Integrated).text.is_empty());
}

#[test]
fn format_main_rel_conflict() {
    assert!(!format_main_rel(&MainRelationship::WouldConflict).text.is_empty());
}

#[test]
fn format_main_rel_diverged() {
    assert!(!format_main_rel(&MainRelationship::Diverged { ahead: 2, behind: 3 }).text.is_empty());
}

#[test]
fn format_main_rel_behind() {
    assert!(format_main_rel(&MainRelationship::Behind(4)).text.contains("4"));
}

#[test]
fn format_special_no_indicators() {
    let info = test_info(ActiveOperation::Idle, false, false);
    assert_eq!(plain_text(&format_special_indicators(&info)), "");
}

#[test]
fn format_special_rebase() {
    let info = test_info(ActiveOperation::Rebase, false, false);
    assert!(plain_text(&format_special_indicators(&info)).contains("\u{2934}"));
}

#[test]
fn format_special_locked() {
    let info = test_info(ActiveOperation::Idle, true, false);
    assert!(plain_text(&format_special_indicators(&info)).contains("\u{229E}"));
}

#[test]
fn format_special_prunable() {
    let info = test_info(ActiveOperation::Idle, false, true);
    assert!(plain_text(&format_special_indicators(&info)).contains("\u{229F}"));
}

#[test]
fn format_special_all_three_after_one_space() {
    let info = test_info(ActiveOperation::Merge, true, true);
    assert_eq!(plain_text(&format_special_indicators(&info)), " \u{2935}\u{229E}\u{229F}");
}

#[test]
fn format_orphan_merged_orphan() {
    let mut info = test_info(ActiveOperation::Idle, false, false);
    info.is_orphan = true;
    let result = plain_text(&format_orphan_merged(&info));
    assert!(result.contains("(orphan)"), "Should contain (orphan), got: {}", result);
}

#[test]
fn format_orphan_merged_merged() {
    let mut info = test_info(ActiveOperation::Idle, false, false);
    info.is_merged = true;
    let result = plain_text(&format_orphan_merged(&info));
    assert!(result.contains("(merged)"), "Should contain (merged), got: {}", result);
}

#[test]
fn format_orphan_merged_both_false_returns_empty() {
    let info = test_info(ActiveOperation::Idle, false, false);
    let result = plain_text(&format_orphan_merged(&info));
    assert!(result.is_empty(), "Should be empty when both false, got: '{}'", result);
}

#[test]
fn format_orphan_merged_both_true() {
    let mut info = test_info(ActiveOperation::Idle, false, false);
    info.is_orphan = true;
    info.is_merged = true;
    let result = plain_text(&format_orphan_merged(&info));
    assert!(result.contains("(orphan)"), "Should contain (orphan)");
    assert!(result.contains("(merged)"), "Should contain (merged)");
    assert_eq!(result, " (orphan) (merged)");
}

#[test]
fn print_short_line_current_same_branch() {
    let mut info = test_info(ActiveOperation::Idle, false, false);
    info.is_current = true;
    info.display_name = "main".to_string();
    info.worktree.branch = Some("main".to_string());
    let line = plain_text(&print_short_line(&info, 20));
    assert_eq!(line, "\u{2605} [current] \u{25B8} main");
}

#[test]
fn print_short_line_current_different_branch() {
    let mut info = test_info(ActiveOperation::Idle, false, false);
    info.is_current = true;
    info.display_name = "feature".to_string();
    info.worktree.branch = Some("feat/x".to_string());
    let line = plain_text(&print_short_line(&info, 20));
    assert_eq!(line, "\u{2605} [current] \u{25B8} feature -> feat/x");
}

#[test]
fn print_short_line_non_current_different_branch() {
    let mut info = test_info(ActiveOperation::Idle, false, false);
    info.is_current = false;
    info.display_name = "feature".to_string();
    info.worktree.branch = Some("feat/x".to_string());
    let line = plain_text(&print_short_line(&info, 20));
    assert_eq!(line, "  \u{25B8} feature -> feat/x");
}

#[test]
fn print_short_line_dirty_status() {
    let mut info = test_info(ActiveOperation::Idle, false, false);
    info.status.has_modified = true;
    let line = plain_text(&print_short_line(&info, 20));
    assert_eq!(line, "  \u{25B8} main !");
}

#[test]
fn print_rich_line_current_different_branch() {
    let mut info = test_info(ActiveOperation::Idle, false, false);
    info.is_current = true;
    info.display_name = "feature".to_string();
    info.worktree.branch = Some("feat/x".to_string());
    let line = plain_text(&print_rich_line(&info, 30));
    assert!(line.starts_with("\u{2605} [current] \u{25B8} feature -> feat/x"));
    assert!(line.contains("clean"));
}

#[test]
fn print_rich_line_non_current_same_branch() {
    let mut info = test_info(ActiveOperation::Idle, false, false);
    info.is_current = false;
    info.display_name = "main".to_string();
    info.worktree.branch = Some("main".to_string());
    let line = plain_text(&print_rich_line(&info, 30));
    // The name part is padded to 30 bytes, then the columns follow.
    assert_eq!(line, format!("  \u{25B8} main{}  clean  \u{2014}  ^    ", " ".repeat(26)));
}

#[test]
fn print_rich_line_with_branch_info() {
    let mut info = test_info(ActiveOperation::Idle, false, false);
    info.branch_info = Some(BranchInfo { upstream: None, commit_age_secs: 3600, commit_message: "fix bug".to_string() });
    let line = plain_text(&print_rich_line(&info, 30));
    assert!(line.ends_with("1h ago  fix bug"));
}

#[test]
fn print_rich_shows_header_bare_and_paths() {
    let bare = WorktreeInfo {
        worktree: Worktree {
            path: "/p/.bare".to_string(),
            head: None,
            branch: None,
            is_bare: true,
            is_detached: false,
            is_locked: false,
            lock_reason: None,
            is_prunable: false,
        },
        display_name: String::new(),
        ..test_info(ActiveOperation::Idle, false, false)
    };
    let infos = vec![bare, test_info(ActiveOperation::Idle, false, false)];
    let lines: Vec<String> = print_rich(&infos, "proj", true, false).iter().map(plain_text).collect();
    assert_eq!(
        lines,
        vec![
            "=== Git Worktrees for proj ===".to_string(),
            String::new(),
            "[bare repository] -> /p/.bare".to_string(),
            String::new(),
            "Worktrees:".to_string(),
            "  \u{25B8} main".to_string(),
            "       /test/wt".to_string(),
        ]
    );
}

// ---- short collection ----

fn repo() -> ProjectContext {
    ProjectContext {
        project_dir: "/p/.git".to_string(),
        project_root: "/p".to_string(),
        layout_type: LayoutType::Modern,
        project_name: "p".to_string(),
        worktree_folder: String::new(),
        worktree_parent: "/p".to_string(),
    }
}

fn shown_infos(e: Effect) -> Vec<WorktreeInfo> {
    match e {
        Effect::ShowJson(v) => v,
        _ => panic!("expected the records"),
    }
}

#[test]
fn collect_short_sets_orphan_for_prunable_worktree() {
    let list = "worktree /nonexistent/prunable-wt\nHEAD abc\nbranch refs/heads/old-branch\nprunable gitdir file points to non-existent location\n\n";
    let os = vec![Outcome::Fs(FsReply::Failed(String::new())), Outcome::Git(GitReply::Success(list.to_string()))];
    let infos = shown_infos(list::run(&repo(), true, true, false, false, &os));
    assert!(infos[0].is_orphan, "Prunable worktree in short mode should be orphan");
    assert!(!infos[0].is_merged, "Short mode should not compute merged status");
}

#[test]
fn collect_short_sets_orphan_for_missing_path() {
    let list = "worktree /nonexistent/missing-dir\nHEAD abc\nbranch refs/heads/feature\n\n";
    let os = vec![
        Outcome::Fs(FsReply::Failed(String::new())),
        Outcome::Git(GitReply::Success(list.to_string())),
        Outcome::Git(GitReply::Failure("not a git repository".to_string())),
        Outcome::Fs(FsReply::No),
    ];
    let infos = shown_infos(list::run(&repo(), true, true, false, false, &os));
    assert!(infos[0].is_orphan, "Worktree with missing path should be orphan in short mode");
}

#[test]
fn collect_short_bare_not_orphan() {
    let list = "worktree /nonexistent/bare\nbare\n\n";
    let os = vec![Outcome::Fs(FsReply::Failed(String::new())), Outcome::Git(GitReply::Success(list.to_string()))];
    let infos = shown_infos(list::run(&repo(), true, true, false, false, &os));
    assert!(!infos[0].is_orphan, "Bare worktree should not be orphan even with nonexistent path");
}

#[test]
fn list_full_asks_repository_facts_first() {
    let list = "worktree /p/main\nHEAD abc\nbranch refs/heads/main\n\n";
    let os = vec![Outcome::Fs(FsReply::Failed(String::new())), Outcome::Git(GitReply::Success(list.to_string()))];
    match list::run(&repo(), false, false, false, false, &os) {
        Effect::Git(c) => assert_eq!(c.args[0], "for-each-ref"),
        _ => panic!("expected git"),
    }
}
