use lazywt::commands::add::{normalize_glob_path, resolve_branch_name, validate_worktree_name};
use lazywt::commands::alias::{duplicate_pattern, parse_shell_name, restart_hint, shell_function, Shell};
use lazywt::commands::clone::extract_repo_name;
use lazywt::commands::init_shell::{eval_line_for_shell, eval_pattern_for_shell};
use lazywt::commands::list::collect::WorktreeInfo;
use lazywt::commands::list::display::{format_age, truncate};
use lazywt::commands::list::json::{json_records, main_rel_string, operation_string, to_json_worktree};
use lazywt::commands::pr::{default_worktree_name, parse_pr_number};
use lazywt::commands::prune::{assess_worktree, PruneCandidate, PruneFacts, PruneStep};
use lazywt::git::branch_info::BranchInfo;
use lazywt::git::line_diff::LineDiff;
use lazywt::git::main_relationship::MainRelationship;
use lazywt::git::operations::ActiveOperation;
use lazywt::git::status::WorktreeStatus;
use lazywt::git::worktree::Worktree;

// ---- add ----

#[test]
fn validate_rejects_dot_git() {
    let result = validate_worktree_name(".git", "trees");
    assert!(result.is_err());
    let msg = result.unwrap_err().message();
    assert!(msg.contains("reserved"), "expected 'reserved' in: {}", msg);
}

#[test]
fn validate_rejects_dot_bare() {
    let result = validate_worktree_name(".bare", "trees");
    assert!(result.is_err());
    let msg = result.unwrap_err().message();
    assert!(msg.contains("reserved") || msg.contains("invalid"), "expected 'reserved' or 'invalid' in: {}", msg);
}

#[test]
fn validate_rejects_double_dot() {
    let result = validate_worktree_name("..", "trees");
    assert!(result.is_err());
}

#[test]
fn validate_rejects_path_separators() {
    let result = validate_worktree_name("foo/bar", "trees");
    assert!(result.is_err());
    let msg = result.unwrap_err().message();
    assert!(msg.contains("path separators"), "expected 'path separators' in: {}", msg);
}

#[test]
fn validate_rejects_worktree_folder_conflict() {
    let result = validate_worktree_name("trees", "trees");
    assert!(result.is_err());
    let msg = result.unwrap_err().message();
    assert!(msg.contains("conflicts"), "expected 'conflicts' in: {}", msg);
}

#[test]
fn validate_accepts_normal_name() {
    let result = validate_worktree_name("auth", "trees");
    assert!(result.is_ok());
}

#[test]
fn validate_error_messages_exact() {
    assert_eq!(validate_worktree_name(".git", "trees").unwrap_err().message(), "invalid worktree name: '.git' is a reserved name");
    assert_eq!(validate_worktree_name("a\\b", "").unwrap_err().message(), "invalid worktree name: cannot contain path separators");
    assert!(validate_worktree_name("trees", "").is_ok());
}

#[test]
fn resolve_branch_name_no_prefix_no_branch() {
    assert_eq!(resolve_branch_name("auth", None, ""), "auth");
}

#[test]
fn resolve_branch_name_explicit_branch_overrides_prefix() {
    assert_eq!(resolve_branch_name("auth", Some("custom"), "feat"), "custom");
}

#[test]
fn resolve_branch_name_prefix_auto_separator() {
    assert_eq!(resolve_branch_name("auth", None, "feat"), "feat/auth");
}

#[test]
fn resolve_branch_name_prefix_trailing_slash() {
    assert_eq!(resolve_branch_name("auth", None, "feat/"), "feat/auth");
}

#[test]
fn resolve_branch_name_explicit_branch_no_prefix() {
    assert_eq!(resolve_branch_name("auth", Some("my-branch"), ""), "my-branch");
}

#[test]
fn normalize_glob_path_converts_backslashes() {
    let normalized = normalize_glob_path("C:\\Users\\test\\project");
    assert!(!normalized.contains('\\'), "Should not contain backslashes: {}", normalized);
    assert!(normalized.contains('/'));
    assert_eq!(normalized, "C:/Users/test/project");
}

// ---- alias ----

#[test]
fn shell_function_bash_checks_nav_file() {
    let output = shell_function(&Shell::Bash, "wt");
    assert!(output.starts_with("wt()"), "Bash function should start with 'wt()'");
    assert!(output.contains(".lazywt_cd"), "Bash function should check .lazywt_cd file");
}

#[test]
fn shell_function_zsh_checks_nav_file() {
    let output = shell_function(&Shell::Zsh, "wt");
    assert!(output.starts_with("wt()"), "Zsh function should start with 'wt()'");
    assert!(output.contains(".lazywt_cd"), "Zsh function should check .lazywt_cd file");
}

#[test]
fn shell_function_powershell_checks_nav_file() {
    let output = shell_function(&Shell::PowerShell, "wt");
    assert!(output.starts_with("function wt"), "PowerShell function should start with 'function wt'");
    assert!(output.contains(".lazywt_cd"), "PowerShell function should check .lazywt_cd file");
}

#[test]
fn shell_function_nushell_checks_nav_file() {
    let output = shell_function(&Shell::Nushell, "wt");
    assert!(output.starts_with("def --env wt"), "Nushell function should start with 'def --env wt'");
    assert!(output.contains(".lazywt_cd"), "Nushell function should check .lazywt_cd file");
}

#[test]
fn duplicate_pattern_bash() {
    assert_eq!(duplicate_pattern(&Shell::Bash, "wt"), "wt()");
}

#[test]
fn duplicate_pattern_zsh() {
    assert_eq!(duplicate_pattern(&Shell::Zsh, "wt"), "wt()");
}

#[test]
fn duplicate_pattern_powershell() {
    assert_eq!(duplicate_pattern(&Shell::PowerShell, "wt"), "function wt");
}

#[test]
fn duplicate_pattern_nushell() {
    assert_eq!(duplicate_pattern(&Shell::Nushell, "wt"), "def --env wt");
}

#[test]
fn parse_shell_name_bash() {
    assert!(matches!(parse_shell_name("bash").unwrap(), Shell::Bash));
}

#[test]
fn parse_shell_name_zsh() {
    assert!(matches!(parse_shell_name("zsh").unwrap(), Shell::Zsh));
}

#[test]
fn parse_shell_name_powershell() {
    assert!(matches!(parse_shell_name("powershell").unwrap(), Shell::PowerShell));
}

#[test]
fn parse_shell_name_powershell_alias() {
    assert!(matches!(parse_shell_name("pwsh").unwrap(), Shell::PowerShell));
}

#[test]
fn parse_shell_name_nushell() {
    assert!(matches!(parse_shell_name("nushell").unwrap(), Shell::Nushell));
}

#[test]
fn parse_shell_name_nushell_alias() {
    assert!(matches!(parse_shell_name("nu").unwrap(), Shell::Nushell));
}

#[test]
fn parse_shell_name_case_insensitive() {
    assert!(matches!(parse_shell_name("BASH").unwrap(), Shell::Bash));
}

#[test]
fn parse_shell_name_unknown() {
    assert!(parse_shell_name("fish").is_err());
    assert_eq!(parse_shell_name("Fish").unwrap_err(), "Unknown shell 'fish'. Supported: bash, zsh, powershell, nushell");
}

#[test]
fn restart_hint_powershell_contains_restart() {
    let hint = restart_hint(&Shell::PowerShell, "/some/path");
    assert!(hint.contains("Restart"), "PowerShell hint should contain 'Restart', got: {}", hint);
}

#[test]
fn restart_hint_bash_contains_source() {
    let hint = restart_hint(&Shell::Bash, "/some/path");
    assert!(hint.contains("source"), "Bash hint should contain 'source', got: {}", hint);
}

#[test]
fn restart_hint_zsh_contains_source() {
    let hint = restart_hint(&Shell::Zsh, "/some/path");
    assert!(hint.contains("source"), "Zsh hint should contain 'source', got: {}", hint);
}

#[test]
fn restart_hint_nushell_contains_source() {
    let hint = restart_hint(&Shell::Nushell, "/some/path");
    assert!(hint.contains("source"), "Nushell hint should contain 'source', got: {}", hint);
}

#[test]
fn shell_function_bash_sets_lazywt_prev() {
    let output = shell_function(&Shell::Bash, "wt");
    assert!(output.contains(r#"LAZYWT_PREV="$PWD""#), "Bash function should set LAZYWT_PREV to $PWD");
}

#[test]
fn shell_function_zsh_sets_lazywt_prev() {
    let output = shell_function(&Shell::Zsh, "wt");
    assert!(output.contains(r#"LAZYWT_PREV="$PWD""#), "Zsh function should set LAZYWT_PREV to $PWD");
}

#[test]
fn shell_function_powershell_sets_lazywt_prev() {
    let output = shell_function(&Shell::PowerShell, "wt");
    assert!(output.contains("$env:LAZYWT_PREV"), "PowerShell function should set $env:LAZYWT_PREV");
}

#[test]
fn shell_function_nushell_sets_lazywt_prev() {
    let output = shell_function(&Shell::Nushell, "wt");
    assert!(output.contains("$env.LAZYWT_PREV"), "Nushell function should set $env.LAZYWT_PREV");
}

#[test]
fn shell_function_bash_lazywt_prev_before_cd() {
    let output = shell_function(&Shell::Bash, "wt");
    let prev_pos = output.find("LAZYWT_PREV").expect("LAZYWT_PREV should exist");
    let cd_pos = output.find(r#"cd "$cd_path""#).expect("cd should exist");
    assert!(prev_pos < cd_pos, "LAZYWT_PREV must be set BEFORE cd in Bash template");
}

#[test]
fn shell_function_powershell_lazywt_prev_before_set_location() {
    let output = shell_function(&Shell::PowerShell, "wt");
    let prev_pos = output.find("LAZYWT_PREV").expect("LAZYWT_PREV should exist");
    let cd_pos = output.find("Set-Location").expect("Set-Location should exist");
    assert!(prev_pos < cd_pos, "LAZYWT_PREV must be set BEFORE Set-Location in PowerShell template");
}

#[test]
fn shell_function_nushell_lazywt_prev_before_cd() {
    let output = shell_function(&Shell::Nushell, "wt");
    let prev_pos = output.find("LAZYWT_PREV").expect("LAZYWT_PREV should exist");
    let cd_pos = output.find("cd $cd_path").expect("cd should exist");
    assert!(prev_pos < cd_pos, "LAZYWT_PREV must be set BEFORE cd in Nushell template");
}

// ---- init ----

#[test]
fn eval_line_bash_invokes_binary() {
    let line = eval_line_for_shell(&Shell::Bash);
    assert!(line.contains("lazywt init bash"), "eval line must invoke the lazywt binary, got: {line}");
}

#[test]
fn eval_line_zsh_invokes_binary() {
    let line = eval_line_for_shell(&Shell::Zsh);
    assert!(line.contains("lazywt init zsh"), "eval line must invoke the lazywt binary, got: {line}");
}

#[test]
fn eval_line_powershell_invokes_binary() {
    let line = eval_line_for_shell(&Shell::PowerShell);
    assert!(line.contains("& lazywt init powershell"), "eval line must invoke the lazywt binary, got: {line}");
}

#[test]
fn eval_line_nushell_invokes_binary() {
    let line = eval_line_for_shell(&Shell::Nushell);
    assert!(line.contains("lazywt init nushell"), "eval line must invoke the lazywt binary, got: {line}");
}

#[test]
fn eval_pattern_matches_binary_invocation() {
    assert_eq!(eval_pattern_for_shell(), "lazywt init");
}

// ---- clone ----

#[test]
fn extract_repo_name_https_url() {
    assert_eq!(extract_repo_name("https://github.com/user/repo.git"), "repo");
}

#[test]
fn extract_repo_name_ssh_url() {
    assert_eq!(extract_repo_name("git@github.com:user/repo.git"), "repo");
}

#[test]
fn extract_repo_name_no_git_suffix() {
    assert_eq!(extract_repo_name("https://github.com/user/repo"), "repo");
}

#[test]
fn extract_repo_name_local_path() {
    assert_eq!(extract_repo_name("/path/to/repo.git"), "repo");
}

#[test]
fn extract_repo_name_trailing_slash() {
    assert_eq!(extract_repo_name("https://github.com/user/repo/"), "repo");
}

// ---- pr ----

#[test]
fn parse_pr_number_plain_number() {
    let result = parse_pr_number("42").unwrap();
    assert_eq!(result, 42);
}

#[test]
fn parse_pr_number_github_https_url() {
    let result = parse_pr_number("https://github.com/owner/repo/pull/123").unwrap();
    assert_eq!(result, 123);
}

#[test]
fn parse_pr_number_github_http_url() {
    let result = parse_pr_number("http://github.com/owner/repo/pull/456").unwrap();
    assert_eq!(result, 456);
}

#[test]
fn parse_pr_number_not_a_number_returns_err() {
    let result = parse_pr_number("not-a-number");
    assert!(result.is_err());
}

#[test]
fn parse_pr_number_github_issues_url_returns_err() {
    let result = parse_pr_number("https://github.com/owner/repo/issues/10");
    assert!(result.is_err());
}

#[test]
fn parse_pr_number_non_github_host_returns_err() {
    let result = parse_pr_number("https://gitlab.com/owner/repo/pull/10");
    assert!(result.is_err());
    let msg = result.unwrap_err();
    assert!(msg.contains("Only GitHub URLs are supported"), "expected GitHub-only message, got: {}", msg);
}

#[test]
fn default_worktree_name_formats_correctly() {
    assert_eq!(default_worktree_name(42), "pr-42");
}

#[test]
fn pr_number_round_trips_through_its_name() {
    assert_eq!(parse_pr_number("https://github.com/o/r/pull/77/files").unwrap(), 77);
    assert_eq!(parse_pr_number(&default_worktree_name(77)[3..]).unwrap(), 77);
}

// ---- list ----

#[test]
fn format_age_now() {
    assert_eq!(format_age(10), "now");
}

#[test]
fn format_age_minutes() {
    assert_eq!(format_age(300), "5m ago");
}

#[test]
fn format_age_hours() {
    assert_eq!(format_age(7200), "2h ago");
}

#[test]
fn format_age_days() {
    assert_eq!(format_age(259200), "3d ago");
}

#[test]
fn format_age_weeks() {
    assert_eq!(format_age(1209600), "2w ago");
}

#[test]
fn format_age_months() {
    assert_eq!(format_age(5184000), "2mo ago");
}

#[test]
fn format_age_negative() {
    assert_eq!(format_age(-1000), "now");
}

#[test]
fn truncate_short_string() {
    assert_eq!(truncate("hello", 10), "hello");
}

#[test]
fn truncate_exact_length() {
    assert_eq!(truncate("hello", 5), "hello");
}

#[test]
fn truncate_long_string() {
    assert_eq!(truncate("hello world this is long", 10), "hello w...");
}

#[test]
fn truncate_tiny_limit() {
    assert_eq!(truncate("hello", 2), "...");
}

fn make_worktree(path: &str, branch: Option<&str>, is_bare: bool, is_prunable: bool) -> Worktree {
    Worktree {
        path: path.to_string(),
        head: Some("abc123".to_string()),
        branch: branch.map(|s| s.to_string()),
        is_bare,
        is_detached: false,
        is_locked: false,
        lock_reason: None,
        is_prunable,
    }
}

fn make_info() -> WorktreeInfo {
    WorktreeInfo {
        worktree: Worktree {
            path: "/test/main".to_string(),
            head: Some("abc123".to_string()),
            branch: Some("main".to_string()),
            is_bare: false,
            is_detached: false,
            is_locked: false,
            lock_reason: None,
            is_prunable: false,
        },
        status: WorktreeStatus { has_staged: true, has_modified: false, has_untracked: true, ahead: 2, behind: 0, has_upstream: true },
        main_rel: MainRelationship::IsDefault,
        operation: ActiveOperation::Idle,
        branch_info: Some(BranchInfo {
            upstream: Some("origin/main".to_string()),
            commit_age_secs: 1711929600,
            commit_message: "fix: auth bug".to_string(),
        }),
        line_diff_head: Some(LineDiff { insertions: 10, deletions: 3 }),
        line_diff_main: None,
        is_current: true,
        display_name: "main".to_string(),
        is_orphan: false,
        is_merged: false,
    }
}

#[test]
fn worktree_info_has_is_orphan_field() {
    let info = WorktreeInfo {
        worktree: make_worktree("/nonexistent/path", Some("feat"), false, false),
        status: WorktreeStatus::default(),
        main_rel: MainRelationship::IsDefault,
        operation: ActiveOperation::Idle,
        branch_info: None,
        line_diff_head: None,
        line_diff_main: None,
        is_current: false,
        display_name: "feat".to_string(),
        is_orphan: true,
        is_merged: false,
    };
    assert!(info.is_orphan, "WorktreeInfo with missing path should have is_orphan = true");
}

#[test]
fn worktree_info_has_is_merged_field() {
    let info = WorktreeInfo {
        worktree: make_worktree("/test", Some("feat"), false, false),
        status: WorktreeStatus::default(),
        main_rel: MainRelationship::IsDefault,
        operation: ActiveOperation::Idle,
        branch_info: None,
        line_diff_head: None,
        line_diff_main: None,
        is_current: false,
        display_name: "feat".to_string(),
        is_orphan: false,
        is_merged: true,
    };
    assert!(info.is_merged, "WorktreeInfo with merged branch should have is_merged = true");
}

#[test]
fn bare_worktree_has_orphan_false_merged_false() {
    let info = WorktreeInfo {
        worktree: make_worktree("/bare", None, true, false),
        status: WorktreeStatus::default(),
        main_rel: MainRelationship::IsDefault,
        operation: ActiveOperation::Idle,
        branch_info: None,
        line_diff_head: None,
        line_diff_main: None,
        is_current: false,
        display_name: String::new(),
        is_orphan: false,
        is_merged: false,
    };
    assert!(!info.is_orphan, "Bare worktree should not be orphan");
    assert!(!info.is_merged, "Bare worktree should not be merged");
}

#[test]
fn json_main_rel_strings() {
    assert_eq!(main_rel_string(&MainRelationship::IsDefault), "is_default");
    assert_eq!(main_rel_string(&MainRelationship::Orphan), "orphan");
    assert_eq!(main_rel_string(&MainRelationship::Ahead(5)), "ahead_5");
    assert_eq!(main_rel_string(&MainRelationship::Behind(3)), "behind_3");
    assert_eq!(main_rel_string(&MainRelationship::Diverged { ahead: 2, behind: 1 }), "diverged_2_1");
}

#[test]
fn json_operation_strings() {
    assert_eq!(operation_string(&ActiveOperation::Idle), None);
    assert_eq!(operation_string(&ActiveOperation::Rebase), Some("rebase".to_string()));
    assert_eq!(operation_string(&ActiveOperation::Merge), Some("merge".to_string()));
}

#[test]
fn json_no_upstream_is_null() {
    let mut info = make_info();
    info.status.has_upstream = false;
    let json_wt = to_json_worktree(&info);
    assert!(json_wt.upstream.is_none());
}

#[test]
fn json_bare_worktrees_filtered() {
    let bare = WorktreeInfo {
        worktree: Worktree {
            path: "/test/.bare".to_string(),
            head: None,
            branch: None,
            is_bare: true,
            is_detached: false,
            is_locked: false,
            lock_reason: None,
            is_prunable: false,
        },
        status: WorktreeStatus::default(),
        main_rel: MainRelationship::IsDefault,
        operation: ActiveOperation::Idle,
        branch_info: None,
        line_diff_head: None,
        line_diff_main: None,
        is_current: false,
        display_name: String::new(),
        is_orphan: false,
        is_merged: false,
    };
    let infos = vec![bare, make_info()];
    let filtered = json_records(&infos);
    assert_eq!(filtered.len(), 1);
    assert_eq!(filtered[0].name, "main");
}

#[test]
fn json_record_carries_the_fields() {
    let j = to_json_worktree(&make_info());
    assert_eq!(j.name, "main");
    assert!(j.dirty.staged && j.dirty.untracked && !j.dirty.modified);
    let up = j.upstream.unwrap();
    assert_eq!(up.ahead, 2);
    assert_eq!(up.tracking, Some("origin/main".to_string()));
    assert_eq!(j.commit.unwrap().message, "fix: auth bug");
    assert_eq!(j.line_diff_head.unwrap().insertions, 10);
    assert!(j.line_diff_main.is_none());
}

// ---- prune ----

#[test]
fn prune_candidate_merged_reason() {
    let candidate = PruneCandidate {
        name: "feature-auth".to_string(),
        path: "/tmp/project/feature-auth".to_string(),
        branch: Some("feature/auth".to_string()),
        reason: "merged".to_string(),
    };
    assert_eq!(candidate.reason, "merged");
    assert_eq!(candidate.name, "feature-auth");
    assert_eq!(candidate.branch, Some("feature/auth".to_string()));
}

#[test]
fn prune_candidate_orphan_reason() {
    let candidate = PruneCandidate {
        name: "old-worktree".to_string(),
        path: "/tmp/project/old-worktree".to_string(),
        branch: Some("old-branch".to_string()),
        reason: "orphan".to_string(),
    };
    assert_eq!(candidate.reason, "orphan");
    assert_eq!(candidate.name, "old-worktree");
}

#[test]
fn prune_candidate_orphan_no_branch() {
    let candidate = PruneCandidate {
        name: "ghost".to_string(),
        path: "/tmp/project/ghost".to_string(),
        branch: None,
        reason: "orphan".to_string(),
    };
    assert_eq!(candidate.reason, "orphan");
    assert!(candidate.branch.is_none());
}

#[test]
fn prune_assessment_steps() {
    let merged = vec!["feat".to_string()];
    let w = make_worktree("/p/feat", Some("feat"), false, false);
    let mut facts = PruneFacts { path_exists: None, default_sha: None, branch_sha: None, clean: None };
    assert!(matches!(assess_worktree(&w, "main", &merged, false, &facts), PruneStep::AskExists));
    facts.path_exists = Some(true);
    assert!(matches!(assess_worktree(&w, "main", &merged, false, &facts), PruneStep::AskShas));
    facts.default_sha = Some("a".to_string());
    facts.branch_sha = Some("a".to_string());
    assert!(matches!(assess_worktree(&w, "main", &merged, false, &facts), PruneStep::Keep));
    facts.branch_sha = Some("b".to_string());
    assert!(matches!(assess_worktree(&w, "main", &merged, false, &facts), PruneStep::AskClean));
    facts.clean = Some(false);
    match assess_worktree(&w, "main", &merged, false, &facts) {
        PruneStep::Skipped(n, r) => {
            assert_eq!(n, "feat");
            assert_eq!(r, "dirty + merged");
        }
        _ => panic!("expected a skip"),
    }
    match assess_worktree(&w, "main", &merged, true, &facts) {
        PruneStep::Remove(c) => assert_eq!(c.reason, "merged"),
        _ => panic!("expected removal"),
    }
    facts.path_exists = Some(false);
    match assess_worktree(&w, "main", &merged, false, &facts) {
        PruneStep::Remove(c) => assert_eq!(c.reason, "orphan"),
        _ => panic!("expected removal"),
    }
}

#[test]
fn prune_spares_default_branch_even_when_gone() {
    let merged = vec!["main".to_string()];
    let w = make_worktree("/p/main", Some("main"), false, true);
    let facts = PruneFacts { path_exists: Some(false), default_sha: None, branch_sha: None, clean: Some(false) };
    assert!(matches!(assess_worktree(&w, "main", &merged, true, &facts), PruneStep::Keep));
}

// ---- sync ----

#[test]
fn sync_module_compiles() {
    assert!(true);
}

#[test]
fn json_serialization_roundtrip() {
    let info = make_info();
    let json_wt = to_json_worktree(&info);
    assert_eq!(json_wt.name, "main");
    assert!(json_wt.is_current);
    assert!(json_wt.dirty.staged);
    assert_eq!(json_wt.upstream.as_ref().map(|u| u.ahead), Some(2));
}

#[test]
fn json_orphan_merged_fields_default() {
    let info = make_info();
    let json_wt = to_json_worktree(&info);
    assert!(!json_wt.is_orphan, "Default info should have is_orphan=false");
    assert!(!json_wt.is_merged, "Default info should have is_merged=false");
}

#[test]
fn json_orphan_true() {
    let mut info = make_info();
    info.is_orphan = true;
    let json_wt = to_json_worktree(&info);
    assert!(json_wt.is_orphan, "Orphan info should have is_orphan=true");
}

#[test]
fn json_merged_true() {
    let mut info = make_info();
    info.is_merged = true;
    let json_wt = to_json_worktree(&info);
    assert!(json_wt.is_merged, "Merged info should have is_merged=true");
}
