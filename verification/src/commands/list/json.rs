//! The machine-readable listing: one record per worktree.
use vstd::prelude::*;

use crate::commands::list::collect::WorktreeInfo;
use crate::git::main_relationship::MainRelationship;
use crate::git::operations::ActiveOperation;
use crate::text::{chars_of, concat, decimal, opt_view, string_of, u64_to_chars};

verus! {

pub struct JsonDirty {
    pub staged: bool,
    pub modified: bool,
    pub untracked: bool,
}

pub struct JsonUpstream {
    pub ahead: u32,
    pub behind: u32,
    pub tracking: Option<String>,
}

pub struct JsonCommit {
    pub age_secs: i64,
    pub message: String,
}

pub struct JsonLineDiff {
    pub insertions: u32,
    pub deletions: u32,
}

/// The record of one worktree.
pub struct JsonWorktree {
    pub name: String,
    pub branch: Option<String>,
    pub path: String,
    pub is_current: bool,
    pub dirty: JsonDirty,
    pub upstream: Option<JsonUpstream>,
    pub main_relationship: String,
    pub operation: Option<String>,
    pub commit: Option<JsonCommit>,
    pub line_diff_head: Option<JsonLineDiff>,
    pub line_diff_main: Option<JsonLineDiff>,
    pub is_locked: bool,
    pub is_prunable: bool,
    pub is_orphan: bool,
    pub is_merged: bool,
}

/// The relationship as a word, counts joined with `_`.
pub open spec fn main_rel_text(rel: MainRelationship) -> Seq<char> {
    match rel {
        MainRelationship::IsDefault => "is_default"@,
        MainRelationship::Orphan => "orphan"@,
        MainRelationship::SameCommit => "same_commit"@,
        MainRelationship::Integrated => "integrated"@,
        MainRelationship::WouldConflict => "would_conflict"@,
        MainRelationship::Diverged { ahead, behind } => "diverged_"@ + decimal(ahead as nat) + "_"@
            + decimal(behind as nat),
        MainRelationship::Ahead(n) => "ahead_"@ + decimal(n as nat),
        MainRelationship::Behind(n) => "behind_"@ + decimal(n as nat),
    }
}

fn with_count(word: &str, n: u32) -> (r: Vec<char>)
    ensures
        r@ == word@ + decimal(n as nat),
{
    concat(&chars_of(word), &u64_to_chars(n as u64))
}

pub fn main_rel_string(rel: &MainRelationship) -> (r: String)
    ensures
        r@ == main_rel_text(*rel),
{
    match rel {
        MainRelationship::IsDefault => "is_default".to_string(),
        MainRelationship::Orphan => "orphan".to_string(),
        MainRelationship::SameCommit => "same_commit".to_string(),
        MainRelationship::Integrated => "integrated".to_string(),
        MainRelationship::WouldConflict => "would_conflict".to_string(),
        MainRelationship::Diverged { ahead, behind } => {
            let a = with_count("diverged_", *ahead);
            let b = with_count("_", *behind);
            let r = concat(&a, &b);
            assert(r@ =~= main_rel_text(*rel));
            string_of(&r)
        },
        MainRelationship::Ahead(n) => string_of(&with_count("ahead_", *n)),
        MainRelationship::Behind(n) => string_of(&with_count("behind_", *n)),
    }
}

pub open spec fn operation_text(op: ActiveOperation) -> Option<Seq<char>> {
    match op {
        ActiveOperation::Idle => None,
        ActiveOperation::Rebase => Some("rebase"@),
        ActiveOperation::Merge => Some("merge"@),
    }
}

pub fn operation_string(op: &ActiveOperation) -> (r: Option<String>)
    ensures
        opt_view(r) == operation_text(*op),
{
    match op {
        ActiveOperation::Idle => None,
        ActiveOperation::Rebase => Some("rebase".to_string()),
        ActiveOperation::Merge => Some("merge".to_string()),
    }
}

fn clone_opt(o: &Option<String>) -> (r: Option<String>)
    ensures
        opt_view(r) == opt_view(*o),
{
    match o {
        Some(s) => Some(s.clone()),
        None => None,
    }
}

/// The record of a worktree: its fields as collected; the upstream only
/// when it has one (tracking the branch's upstream name, if known).
pub fn to_json_worktree(info: &WorktreeInfo) -> (r: JsonWorktree)
    ensures
        r.name@ == info.display_name@,
        opt_view(r.branch) == opt_view(info.worktree.branch),
        r.path@ == info.worktree.path@,
        r.is_current == info.is_current,
        r.dirty.staged == info.status.has_staged,
        r.dirty.modified == info.status.has_modified,
        r.dirty.untracked == info.status.has_untracked,
        r.upstream is Some <==> info.status.has_upstream,
        r.upstream matches Some(u) ==> u.ahead == info.status.ahead && u.behind == info.status.behind
            && opt_view(u.tracking) == match info.branch_info {
            Some(bi) => opt_view(bi.upstream),
            None => None,
        },
        r.main_relationship@ == main_rel_text(info.main_rel),
        opt_view(r.operation) == operation_text(info.operation),
        r.commit is Some <==> info.branch_info is Some,
        r.commit matches Some(c) ==> c.age_secs == info.branch_info->Some_0.commit_age_secs
            && c.message@ == info.branch_info->Some_0.commit_message@,
        r.line_diff_head is Some <==> info.line_diff_head is Some,
        r.line_diff_head matches Some(d) ==> d.insertions == info.line_diff_head->Some_0.insertions
            && d.deletions == info.line_diff_head->Some_0.deletions,
        r.line_diff_main is Some <==> info.line_diff_main is Some,
        r.line_diff_main matches Some(d) ==> d.insertions == info.line_diff_main->Some_0.insertions
            && d.deletions == info.line_diff_main->Some_0.deletions,
        r.is_locked == info.worktree.is_locked,
        r.is_prunable == info.worktree.is_prunable,
        r.is_orphan == info.is_orphan,
        r.is_merged == info.is_merged,
{
    let upstream = if info.status.has_upstream {
        Some(
            JsonUpstream {
                ahead: info.status.ahead,
                behind: info.status.behind,
                tracking: match &info.branch_info {
                    Some(bi) => clone_opt(&bi.upstream),
                    None => None,
                },
            },
        )
    } else {
        None
    };
    let commit = match &info.branch_info {
        Some(bi) => Some(JsonCommit { age_secs: bi.commit_age_secs, message: bi.commit_message.clone() }),
        None => None,
    };
    let ldh = match &info.line_diff_head {
        Some(ld) => Some(JsonLineDiff { insertions: ld.insertions, deletions: ld.deletions }),
        None => None,
    };
    let ldm = match &info.line_diff_main {
        Some(ld) => Some(JsonLineDiff { insertions: ld.insertions, deletions: ld.deletions }),
        None => None,
    };
    JsonWorktree {
        name: info.display_name.clone(),
        branch: clone_opt(&info.worktree.branch),
        path: info.worktree.path.clone(),
        is_current: info.is_current,
        dirty: JsonDirty {
            staged: info.status.has_staged,
            modified: info.status.has_modified,
            untracked: info.status.has_untracked,
        },
        upstream,
        main_relationship: main_rel_string(&info.main_rel),
        operation: operation_string(&info.operation),
        commit,
        line_diff_head: ldh,
        line_diff_main: ldm,
        is_locked: info.worktree.is_locked,
        is_prunable: info.worktree.is_prunable,
        is_orphan: info.is_orphan,
        is_merged: info.is_merged,
    }
}

/// The records of the non-bare worktrees, in order.
pub fn json_records(infos: &Vec<WorktreeInfo>) -> (r: Vec<JsonWorktree>)
    ensures
        r@.len() == infos@.filter(|i: WorktreeInfo| !i.worktree.is_bare).len(),
        forall|k: int| 0 <= k < r@.len() ==> (#[trigger] r@[k]).name@ == infos@.filter(
            |i: WorktreeInfo| !i.worktree.is_bare,
        )[k].display_name@,
{
    let ghost keep = |i: WorktreeInfo| !i.worktree.is_bare;
    let mut out: Vec<JsonWorktree> = Vec::new();
    let mut i: usize = 0;
    assert(infos@.take(0).filter(keep) =~= Seq::<WorktreeInfo>::empty());
    while i < infos.len()
        invariant
            i <= infos.len(),
            keep == (|i: WorktreeInfo| !i.worktree.is_bare),
            out@.len() == infos@.take(i as int).filter(keep).len(),
            forall|k: int| 0 <= k < out@.len() ==> (#[trigger] out@[k]).name@ == infos@.take(
                i as int,
            ).filter(keep)[k].display_name@,
        decreases infos.len() - i,
    {
        proof {
            assert(infos@.take(i + 1).drop_last() =~= infos@.take(i as int));
            infos@.take(i as int).lemma_filter_push(infos@[i as int], keep);
            assert(infos@.take(i as int).push(infos@[i as int]) =~= infos@.take(i + 1));
        }
        if !infos[i].worktree.is_bare {
            out.push(to_json_worktree(&infos[i]));
        }
        i = i + 1;
    }
    assert(infos@.take(infos.len() as int) =~= infos@);
    out
}

} // verus!
