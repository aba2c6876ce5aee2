use lazywt::git::branch::{branch_exists, detect_default_branch};
use lazywt::git::branch_info::{parse_for_each_ref, parse_for_each_ref_at};
use lazywt::git::line_diff::{line_diff_head, line_diff_refs, numstat_fits, parse_numstat, LineDiff};
use lazywt::git::main_relationship::{detect_main_relationship, MainRelationship};
use lazywt::git::operations::{detect_operation, ActiveOperation, FsReply, FsStep};
use lazywt::git::{GitReply, GitStep};

// ---- numstat ----

#[test]
fn parse_numstat_empty() {
    let diff = parse_numstat("");
    assert_eq!(diff, LineDiff::default());
}

#[test]
fn parse_numstat_single_file() {
    let diff = parse_numstat("10\t3\tsrc/main.rs\n");
    assert_eq!(diff.insertions, 10);
    assert_eq!(diff.deletions, 3);
}

#[test]
fn parse_numstat_multiple_files() {
    let output = "10\t3\tsrc/main.rs\n5\t0\tsrc/lib.rs\n0\t7\tsrc/old.rs\n";
    let diff = parse_numstat(output);
    assert_eq!(diff.insertions, 15);
    assert_eq!(diff.deletions, 10);
}

#[test]
fn parse_numstat_binary_file_skipped() {
    let output = "-\t-\timage.png\n5\t2\tsrc/main.rs\n";
    let diff = parse_numstat(output);
    assert_eq!(diff.insertions, 5);
    assert_eq!(diff.deletions, 2);
}

#[test]
fn parse_numstat_rename() {
    let output = "0\t0\t{old.rs => new.rs}\n";
    let diff = parse_numstat(output);
    assert_eq!(diff.insertions, 0);
    assert_eq!(diff.deletions, 0);
}

#[test]
fn parse_numstat_no_trailing_newline() {
    let diff = parse_numstat("3\t1\tfile.rs");
    assert_eq!(diff.insertions, 3);
    assert_eq!(diff.deletions, 1);
}

#[test]
fn numstat_totals_that_overflow_are_detected() {
    assert!(numstat_fits("4294967295\t0\ta\n"));
    assert!(!numstat_fits("4294967295\t0\ta\n1\t0\tb\n"));
}

#[test]
fn line_diff_head_zero_on_failure() {
    match line_diff_head("/wt", &vec![GitReply::NotRun("no git".to_string())]) {
        GitStep::Done(d) => assert_eq!(d, LineDiff::default()),
        GitStep::Run(_) => panic!("expected a result"),
    }
    match line_diff_head("/wt", &Vec::new()) {
        GitStep::Run(c) => assert_eq!(c.args, vec!["diff".to_string(), "--numstat".to_string(), "HEAD".to_string()]),
        GitStep::Done(_) => panic!("expected a call"),
    }
}

// ---- for-each-ref ----

#[test]
fn empty_input_returns_empty_map() {
    let result = parse_for_each_ref("");
    assert!(result.is_empty(), "empty input should produce empty map");
}

#[test]
fn single_branch_with_upstream() {
    let ts: i64 = 1_000_000;
    let line = format!("main|origin/main|{}|Initial commit", ts);
    let result = parse_for_each_ref(&line);
    assert_eq!(result.len(), 1);
    let info = result.get("main").expect("main key should exist");
    assert_eq!(info.upstream, Some("origin/main".to_string()));
    assert!(info.commit_age_secs > 0, "age should be positive for old timestamp");
    assert_eq!(info.commit_message, "Initial commit");
}

#[test]
fn branch_with_no_upstream() {
    let ts: i64 = 1_000_000;
    let line = format!("feature||{}|Add feature", ts);
    let result = parse_for_each_ref(&line);
    assert_eq!(result.len(), 1);
    let info = result.get("feature").expect("feature key should exist");
    assert_eq!(info.upstream, None);
    assert_eq!(info.commit_message, "Add feature");
}

#[test]
fn multiple_branches() {
    let ts: i64 = 1_000_000;
    let input = format!(
        "main|origin/main|{}|Initial commit\nfeature||{}|Add feature\nhotfix|origin/hotfix|{}|Fix bug",
        ts, ts, ts
    );
    let result = parse_for_each_ref(&input);
    assert_eq!(result.len(), 3);
    assert!(result.contains_key("main"));
    assert!(result.contains_key("feature"));
    assert!(result.contains_key("hotfix"));
    let hotfix = result.get("hotfix").unwrap();
    assert_eq!(hotfix.upstream, Some("origin/hotfix".to_string()));
    assert_eq!(hotfix.commit_message, "Fix bug");
}

#[test]
fn commit_message_with_pipes() {
    let ts: i64 = 1_000_000;
    let line = format!("main|origin/main|{}|Merge: foo|bar", ts);
    let result = parse_for_each_ref(&line);
    assert_eq!(result.len(), 1);
    let info = result.get("main").unwrap();
    assert_eq!(info.commit_message, "Merge: foo|bar");
}

#[test]
fn invalid_timestamp_uses_zero_age() {
    let line = "main|origin/main|not-a-number|Some commit";
    let result = parse_for_each_ref(line);
    assert_eq!(result.len(), 1);
    let info = result.get("main").unwrap();
    assert_eq!(info.commit_age_secs, 0);
}

#[test]
fn malformed_line_is_skipped() {
    let line = "main|origin/main";
    let result = parse_for_each_ref(line);
    assert!(result.is_empty(), "malformed line with < 4 fields should be skipped");
}

#[test]
fn ages_are_taken_from_the_given_time_and_later_lines_win() {
    let result = parse_for_each_ref_at("a||100|x\na||40|y\n", 1000);
    assert_eq!(result.len(), 1);
    let info = result.get("a").unwrap();
    assert_eq!(info.commit_age_secs, 960);
    assert_eq!(info.commit_message, "y");
}

// ---- branch queries ----

#[test]
fn branch_exists_checks_local_then_origin() {
    match branch_exists("/p", "feat", &Vec::new()) {
        GitStep::Run(c) => assert_eq!(c.args[3], "refs/heads/feat"),
        GitStep::Done(_) => panic!("expected a call"),
    }
    match branch_exists("/p", "feat", &vec![GitReply::Failure(String::new())]) {
        GitStep::Run(c) => assert_eq!(c.args[3], "refs/remotes/origin/feat"),
        GitStep::Done(_) => panic!("expected a call"),
    }
    match branch_exists("/p", "feat", &vec![GitReply::Failure(String::new()), GitReply::Success(String::new())]) {
        GitStep::Done(Ok(b)) => assert!(b),
        _ => panic!("expected true"),
    }
}

#[test]
fn default_branch_from_origin_head_strips_prefix() {
    match detect_default_branch("/p", false, &vec![GitReply::Success("origin/develop\n".to_string())]) {
        GitStep::Done(Ok(Some(b))) => assert_eq!(b, "develop"),
        _ => panic!("expected develop"),
    }
    let replies = vec![
        GitReply::Success(String::new()),
        GitReply::Failure("no origin".to_string()),
        GitReply::Failure(String::new()),
        GitReply::Success(String::new()),
    ];
    match detect_default_branch("/p", true, &replies) {
        GitStep::Done(Ok(Some(b))) => assert_eq!(b, "master"),
        _ => panic!("expected master"),
    }
}

// ---- main relationship ----

#[test]
fn symbol_is_default() {
    assert_eq!(MainRelationship::IsDefault.symbol(), "^");
}

#[test]
fn symbol_orphan() {
    assert_eq!(MainRelationship::Orphan.symbol(), "\u{2205}");
}

#[test]
fn symbol_same_commit() {
    assert_eq!(MainRelationship::SameCommit.symbol(), "_");
}

#[test]
fn symbol_integrated() {
    assert_eq!(MainRelationship::Integrated.symbol(), "\u{2282}");
}

#[test]
fn symbol_would_conflict() {
    assert_eq!(MainRelationship::WouldConflict.symbol(), "\u{2717}");
}

#[test]
fn symbol_diverged() {
    assert_eq!(MainRelationship::Diverged { ahead: 3, behind: 2 }.symbol(), "\u{2195}");
}

#[test]
fn symbol_ahead() {
    assert_eq!(MainRelationship::Ahead(5).symbol(), "\u{2191}5");
}

#[test]
fn symbol_behind() {
    assert_eq!(MainRelationship::Behind(3).symbol(), "\u{2193}3");
}

#[test]
fn symbol_ahead_zero() {
    assert_eq!(MainRelationship::Ahead(0).symbol(), "\u{2191}0");
}

#[test]
fn symbol_behind_zero() {
    assert_eq!(MainRelationship::Behind(0).symbol(), "\u{2193}0");
}

#[test]
fn relationship_follows_the_replies() {
    let done = |r: GitStep<MainRelationship>| match r {
        GitStep::Done(v) => v,
        GitStep::Run(_) => panic!("expected a result"),
    };
    assert_eq!(done(detect_main_relationship("/p", "main", "a", "main", "a", true, &Vec::new())), MainRelationship::IsDefault);
    assert_eq!(done(detect_main_relationship("/p", "f", "a", "main", "b", true, &vec![GitReply::Failure(String::new())])), MainRelationship::Orphan);
    assert_eq!(done(detect_main_relationship("/p", "f", "a", "main", "a", true, &vec![GitReply::Success("base\n".to_string())])), MainRelationship::SameCommit);
    let replies = vec![
        GitReply::Success("base\n".to_string()),
        GitReply::Success("t1\n".to_string()),
        GitReply::Success("t2\n".to_string()),
        GitReply::Success("clean merge".to_string()),
        GitReply::Success("2\t3\n".to_string()),
    ];
    assert_eq!(done(detect_main_relationship("/p", "f", "a", "main", "b", true, &replies)), MainRelationship::Diverged { ahead: 2, behind: 3 });
    let replies = vec![
        GitReply::Success("base\n".to_string()),
        GitReply::Success("t1\n".to_string()),
        GitReply::Success("t1\n".to_string()),
    ];
    assert_eq!(done(detect_main_relationship("/p", "f", "a", "main", "b", true, &replies)), MainRelationship::Integrated);
    let replies = vec![
        GitReply::Success("base\n".to_string()),
        GitReply::Success("t1\n".to_string()),
        GitReply::Success("t2\n".to_string()),
        GitReply::Success("0\t4\n".to_string()),
    ];
    assert_eq!(done(detect_main_relationship("/p", "f", "a", "main", "b", false, &replies)), MainRelationship::Behind(4));
}

// ---- operations ----

#[test]
fn nonexistent_path_returns_none() {
    let path = "/tmp/this-path-does-not-exist-lazywt-test";
    match detect_operation(path, &Vec::new()) {
        FsStep::Ask(_) => {}
        FsStep::Done(_) => panic!("expected a question"),
    }
    match detect_operation(path, &vec![FsReply::No]) {
        FsStep::Done(op) => assert_eq!(op, ActiveOperation::Idle),
        FsStep::Ask(_) => panic!("expected a result"),
    }
}

#[test]
fn rebase_wins_over_merge() {
    let replies = vec![FsReply::Yes, FsReply::Yes, FsReply::Yes, FsReply::Yes];
    match detect_operation("/wt", &replies) {
        FsStep::Done(op) => assert_eq!(op, ActiveOperation::Rebase),
        FsStep::Ask(_) => panic!("expected a result"),
    }
    let replies = vec![FsReply::Yes, FsReply::Yes, FsReply::No, FsReply::No, FsReply::Yes];
    match detect_operation("/wt", &replies) {
        FsStep::Done(op) => assert_eq!(op, ActiveOperation::Merge),
        FsStep::Ask(_) => panic!("expected a result"),
    }
}

#[test]
fn line_diff_refs_asks_for_range_then_sums() {
    match line_diff_refs("/r/.git", "main...feat", &Vec::new()) {
        GitStep::Run(c) => {
            assert_eq!(c.dir, "/r/.git");
            assert_eq!(c.args, vec!["diff", "--numstat", "main...feat"]);
        },
        _ => panic!("expected a command"),
    }
    let out = GitReply::Success("4\t1\ta.rs\n-\t-\tbin.png\n2\t2\tb.rs\n".to_string());
    match line_diff_refs("/r/.git", "main...feat", &vec![out]) {
        GitStep::Done(d) => assert_eq!(d, LineDiff { insertions: 6, deletions: 3 }),
        _ => panic!("expected the totals"),
    }
}

#[test]
fn detect_default_branch_falls_back_to_main_on_error() {
    let replies = vec![GitReply::Failure("fatal: not a git repository".to_string())];
    match lazywt::git::branch_info::detect_default_branch("/tmp/not-a-repo", &replies) {
        GitStep::Done(b) => assert_eq!(b, "main", "should fall back to 'main' on error"),
        GitStep::Run(_) => panic!("expected a result"),
    }
}

#[test]
fn test_detect_is_default() {
    match detect_main_relationship("/tmp/dir", "main", "abc123", "main", "def456", false, &Vec::new()) {
        GitStep::Done(r) => assert_eq!(r, MainRelationship::IsDefault),
        GitStep::Run(_) => panic!("expected no git call"),
    }
}

#[test]
fn test_check_merge_tree_support_invalid_dir() {
    let replies = vec![GitReply::Failure("fatal: not a git repository".to_string())];
    match lazywt::git::main_relationship::check_merge_tree_support("/tmp/not-a-repo", &replies) {
        GitStep::Done(b) => assert!(!b),
        GitStep::Run(_) => panic!("expected a result"),
    }
}

#[test]
fn test_count_ahead_behind_no_repo() {
    let r = GitReply::Failure("fatal: not a git repository".to_string());
    assert_eq!(lazywt::git::main_relationship::count_ahead_behind(&r), (0, 0));
    let r = GitReply::Success("2\t3\n".to_string());
    assert_eq!(lazywt::git::main_relationship::count_ahead_behind(&r), (2, 3));
}

#[test]
fn real_git_dir_clean_returns_none() {
    let replies = vec![FsReply::Yes, FsReply::Yes, FsReply::No, FsReply::No, FsReply::No];
    match detect_operation("/wt", &replies) {
        FsStep::Done(op) => assert_eq!(op, ActiveOperation::Idle),
        FsStep::Ask(_) => panic!("expected a result"),
    }
}
