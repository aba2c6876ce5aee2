use lazywt::git::status::{extended_worktree_status, parse_porcelain, parse_porcelain_v2, worktree_status, WorktreeStatus};
use lazywt::git::{GitReply, GitStep};

#[test]
fn parse_empty_output_all_false() {
    let status = parse_porcelain("");
    assert!(!status.has_staged);
    assert!(!status.has_modified);
    assert!(!status.has_untracked);
    assert!(status.is_clean());
}

#[test]
fn parse_untracked_file() {
    let status = parse_porcelain("?? file.txt\n");
    assert!(!status.has_staged);
    assert!(!status.has_modified);
    assert!(status.has_untracked);
}

#[test]
fn parse_staged_file() {
    let status = parse_porcelain("M  file.txt\n");
    assert!(status.has_staged);
    assert!(!status.has_modified);
    assert!(!status.has_untracked);
}

#[test]
fn parse_modified_file() {
    let status = parse_porcelain(" M file.txt\n");
    assert!(!status.has_staged);
    assert!(status.has_modified);
    assert!(!status.has_untracked);
}

#[test]
fn parse_mixed_status_all_three() {
    let status = parse_porcelain("MM file.txt\n?? other.txt\n");
    assert!(status.has_staged);
    assert!(status.has_modified);
    assert!(status.has_untracked);
}

#[test]
fn parse_added_file() {
    let status = parse_porcelain("A  new_file.rs\n");
    assert!(status.has_staged);
    assert!(!status.has_modified);
    assert!(!status.has_untracked);
}

#[test]
fn parse_deleted_in_worktree() {
    let status = parse_porcelain(" D deleted.rs\n");
    assert!(!status.has_staged);
    assert!(status.has_modified);
    assert!(!status.has_untracked);
}

#[test]
fn parse_renamed_file() {
    let status = parse_porcelain("R  old.rs -> new.rs\n");
    assert!(status.has_staged);
    assert!(!status.has_modified);
    assert!(!status.has_untracked);
}

#[test]
fn symbols_empty_for_clean() {
    let status = WorktreeStatus::default();
    assert_eq!(status.symbols(), "");
}

#[test]
fn symbols_staged_only() {
    let status = WorktreeStatus { has_staged: true, has_modified: false, has_untracked: false, ..Default::default() };
    assert_eq!(status.symbols(), "+");
}

#[test]
fn symbols_modified_only() {
    let status = WorktreeStatus { has_staged: false, has_modified: true, has_untracked: false, ..Default::default() };
    assert_eq!(status.symbols(), "!");
}

#[test]
fn symbols_untracked_only() {
    let status = WorktreeStatus { has_staged: false, has_modified: false, has_untracked: true, ..Default::default() };
    assert_eq!(status.symbols(), "?");
}

#[test]
fn symbols_all_flags() {
    let status = WorktreeStatus { has_staged: true, has_modified: true, has_untracked: true, ..Default::default() };
    assert_eq!(status.symbols(), "+!?");
}

#[test]
fn symbols_staged_and_untracked() {
    let status = WorktreeStatus { has_staged: true, has_modified: false, has_untracked: true, ..Default::default() };
    assert_eq!(status.symbols(), "+?");
}

#[test]
fn is_clean_true_for_default() {
    assert!(WorktreeStatus::default().is_clean());
}

#[test]
fn is_clean_false_when_dirty() {
    let status = WorktreeStatus { has_staged: false, has_modified: true, has_untracked: false, ..Default::default() };
    assert!(!status.is_clean());
}

#[test]
fn parse_v2_clean_with_upstream_in_sync() {
    let output = "# branch.oid abc123\n# branch.head main\n# branch.upstream origin/main\n# branch.ab +0 -0\n";
    let status = parse_porcelain_v2(output);
    assert!(status.is_clean());
    assert!(status.has_upstream);
    assert_eq!(status.ahead, 0);
    assert_eq!(status.behind, 0);
}

#[test]
fn parse_v2_ahead_and_behind() {
    let output = "# branch.oid abc123\n# branch.head feat\n# branch.upstream origin/feat\n# branch.ab +3 -1\n";
    let status = parse_porcelain_v2(output);
    assert_eq!(status.ahead, 3);
    assert_eq!(status.behind, 1);
    assert!(status.has_upstream);
}

#[test]
fn parse_v2_no_upstream() {
    let output = "# branch.oid abc123\n# branch.head feat\n";
    let status = parse_porcelain_v2(output);
    assert!(!status.has_upstream);
    assert_eq!(status.ahead, 0);
    assert_eq!(status.behind, 0);
}

#[test]
fn parse_v2_with_dirty_files() {
    let output = "# branch.oid abc123\n# branch.head main\n# branch.upstream origin/main\n# branch.ab +0 -0\n1 .M N... 100644 100644 100644 abc123 def456 file.rs\n? untracked.txt\n";
    let status = parse_porcelain_v2(output);
    assert!(!status.has_staged);
    assert!(status.has_modified);
    assert!(status.has_untracked);
}

#[test]
fn parse_v2_staged_file() {
    let output = "# branch.oid abc123\n# branch.head main\n1 M. N... 100644 100644 100644 abc123 def456 file.rs\n";
    let status = parse_porcelain_v2(output);
    assert!(status.has_staged);
    assert!(!status.has_modified);
}

#[test]
fn parse_v2_staged_and_modified() {
    let output = "# branch.oid abc123\n# branch.head main\n1 MM N... 100644 100644 100644 abc123 def456 file.rs\n";
    let status = parse_porcelain_v2(output);
    assert!(status.has_staged);
    assert!(status.has_modified);
}

#[test]
fn parse_v2_renamed_file() {
    let output = "# branch.oid abc123\n# branch.head main\n2 R. N... 100644 100644 100644 abc123 def456 R100 new.rs\told.rs\n";
    let status = parse_porcelain_v2(output);
    assert!(status.has_staged);
    assert!(!status.has_modified);
}

#[test]
fn parse_v2_empty_output() {
    let status = parse_porcelain_v2("");
    assert!(status.is_clean());
    assert!(!status.has_upstream);
}

#[test]
fn clean_status_has_no_symbols_and_dirty_has_some() {
    let clean = WorktreeStatus::default();
    assert!(clean.is_clean() && clean.symbols().is_empty());
    let dirty = WorktreeStatus { has_untracked: true, ..Default::default() };
    assert!(!dirty.is_clean() && !dirty.symbols().is_empty());
}

#[test]
fn status_reading_stops_once_all_flags_are_set() {
    // The ahead/behind header after three dirty entries is not read.
    let output = "MM a\n?? b\n# branch.ab +5 -5\n";
    let status = parse_porcelain_v2("1 MM N... a\n? b\n# branch.ab +5 -5\n");
    assert!(status.has_staged && status.has_modified && status.has_untracked);
    assert_eq!(status.ahead, 0);
    let v1 = parse_porcelain(output);
    assert!(v1.has_staged && v1.has_modified && v1.has_untracked);
}

#[test]
fn v2_counts_drop_every_sign_and_default_to_zero() {
    let status = parse_porcelain_v2("# branch.ab ++7 -x\n");
    assert_eq!(status.ahead, 7);
    assert_eq!(status.behind, 0);
}

#[test]
fn non_ascii_first_character_counts_as_staged_and_modified() {
    let status = parse_porcelain("é file\n");
    assert!(status.has_staged);
    assert!(status.has_modified);
}

#[test]
fn worktree_status_asks_git_then_parses_or_falls_back() {
    match worktree_status("/repo/wt", &Vec::new()) {
        GitStep::Run(call) => {
            assert_eq!(call.dir, "/repo/wt");
            assert_eq!(call.args, vec!["status".to_string(), "--porcelain".to_string()]);
        }
        GitStep::Done(_) => panic!("expected a git call"),
    }
    match worktree_status("/repo/wt", &vec![GitReply::Success("?? x\n".to_string())]) {
        GitStep::Done(st) => assert!(st.has_untracked),
        GitStep::Run(_) => panic!("expected a result"),
    }
    match worktree_status("/repo/wt", &vec![GitReply::Failure("boom".to_string())]) {
        GitStep::Done(st) => assert!(st.is_clean()),
        GitStep::Run(_) => panic!("expected a result"),
    }
}

#[test]
fn extended_status_falls_back_to_plain_porcelain() {
    match extended_worktree_status("/w", &Vec::new()) {
        GitStep::Run(c) => assert_eq!(c.args, vec!["status", "--porcelain=v2", "--branch"]),
        _ => panic!("expected the v2 status"),
    }
    let failed = GitReply::Failure("unknown option".to_string());
    match extended_worktree_status("/w", &vec![failed]) {
        GitStep::Run(c) => assert_eq!(c.args, vec!["status", "--porcelain"]),
        _ => panic!("expected the plain status"),
    }
    let failed = GitReply::Failure("unknown option".to_string());
    match extended_worktree_status("/w", &vec![failed, GitReply::Success("?? new.txt\n".to_string())]) {
        GitStep::Done(st) => {
            assert!(st.has_untracked);
            assert!(!st.has_staged);
        },
        _ => panic!("expected a status"),
    }
}
