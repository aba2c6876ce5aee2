//! How a worktree's branch relates to the repository's default branch.
use vstd::prelude::*;

use crate::git::{
    args3, args4, check_of, make_call, output_of, reply_views, GitCallView, GitMode, GitReply,
    GitReplyView, GitStep, StepSpec,
};
use crate::output::{
    MAIN_AHEAD, MAIN_BEHIND, MAIN_CONFLICT, MAIN_DIVERGE, MAIN_INTEGRATED, MAIN_IS_DEFAULT,
    MAIN_ORPHAN, MAIN_SAME_COMMIT,
};
use crate::text::{
    chars_eq, chars_of, concat, contains, contains_exec, decimal, join_str, parse_u32,
    parse_unsigned, split_whitespace_chars, string_of, trim, trim_chars, u64_to_chars, words,
};

verus! {

/// The relationship of a branch to the default branch, in detection order:
/// IsDefault, Orphan, SameCommit, Integrated, WouldConflict, then the
/// ahead/behind counts.
#[derive(Clone, Copy, Debug, PartialEq, Eq, Structural)]
pub enum MainRelationship {
    /// The branch is the default branch.
    IsDefault,
    /// No common ancestor with the default branch.
    Orphan,
    /// Same commit as the default branch head.
    SameCommit,
    /// Fully merged: the merge base has the default head's tree.
    Integrated,
    /// Merging into the default branch would conflict.
    WouldConflict,
    /// Both ahead of and behind the default branch.
    Diverged { ahead: u32, behind: u32 },
    /// Only ahead, by this many commits.
    Ahead(u32),
    /// Only behind, by this many commits.
    Behind(u32),
}

/// The display symbol of a relationship; `Ahead` and `Behind` carry their
/// count after the arrow.
pub open spec fn relationship_symbol(r: MainRelationship) -> Seq<char> {
    match r {
        MainRelationship::IsDefault => MAIN_IS_DEFAULT@,
        MainRelationship::Orphan => MAIN_ORPHAN@,
        MainRelationship::SameCommit => MAIN_SAME_COMMIT@,
        MainRelationship::Integrated => MAIN_INTEGRATED@,
        MainRelationship::WouldConflict => MAIN_CONFLICT@,
        MainRelationship::Diverged { .. } => MAIN_DIVERGE@,
        MainRelationship::Ahead(n) => MAIN_AHEAD@ + decimal(n as nat),
        MainRelationship::Behind(n) => MAIN_BEHIND@ + decimal(n as nat),
    }
}

impl MainRelationship {
    /// The display symbol of this relationship.
    pub fn symbol(&self) -> (r: String)
        ensures
            r@ == relationship_symbol(*self),
    {
        match self {
            MainRelationship::IsDefault => MAIN_IS_DEFAULT.to_string(),
            MainRelationship::Orphan => MAIN_ORPHAN.to_string(),
            MainRelationship::SameCommit => MAIN_SAME_COMMIT.to_string(),
            MainRelationship::Integrated => MAIN_INTEGRATED.to_string(),
            MainRelationship::WouldConflict => MAIN_CONFLICT.to_string(),
            MainRelationship::Diverged { .. } => MAIN_DIVERGE.to_string(),
            MainRelationship::Ahead(n) => string_of(
                &concat(&chars_of(MAIN_AHEAD), &u64_to_chars(*n as u64)),
            ),
            MainRelationship::Behind(n) => string_of(
                &concat(&chars_of(MAIN_BEHIND), &u64_to_chars(*n as u64)),
            ),
        }
    }
}

pub open spec fn merge_tree_probe_call(dir: Seq<char>) -> GitCallView {
    GitCallView { dir, args: seq!["merge-tree"@, "HEAD"@, "HEAD"@, "HEAD"@], mode: GitMode::Check }
}

/// Whether `git merge-tree` works in `dir`: the probe merges HEAD with
/// itself; `false` when git cannot be run.
pub fn check_merge_tree_support(dir: &str, replies: &Vec<GitReply>) -> (r: GitStep<bool>)
    ensures
        replies.len() == 0 ==> (r matches GitStep::Run(c) && c@ == merge_tree_probe_call(dir@)),
        replies.len() > 0 ==> (r matches GitStep::Done(b) && b == (check_of(
            reply_views(replies@)[0],
        ) == Ok::<bool, Seq<char>>(true))),
{
    if replies.len() == 0 {
        return GitStep::Run(make_call(dir, args4("merge-tree", "HEAD", "HEAD", "HEAD"), GitMode::Check));
    }
    match &replies[0] {
        GitReply::Success(_) => GitStep::Done(true),
        _ => GitStep::Done(false),
    }
}

pub open spec fn merge_base_call(dir: Seq<char>, a: Seq<char>, b: Seq<char>) -> GitCallView {
    GitCallView { dir, args: seq!["merge-base"@, a, b], mode: GitMode::Output }
}

pub open spec fn tree_call(dir: Seq<char>, commit: Seq<char>) -> GitCallView {
    GitCallView { dir, args: seq!["rev-parse"@, commit + "^{tree}"@], mode: GitMode::Output }
}

pub open spec fn merge_tree_call(dir: Seq<char>, base: Seq<char>, a: Seq<char>, b: Seq<char>) -> GitCallView {
    GitCallView { dir, args: seq!["merge-tree"@, base, a, b], mode: GitMode::AnyStatus }
}

pub open spec fn rev_list_call(dir: Seq<char>, a: Seq<char>, b: Seq<char>) -> GitCallView {
    GitCallView {
        dir,
        args: seq!["rev-list"@, "--left-right"@, "--count"@, a + "..."@ + b],
        mode: GitMode::Output,
    }
}

/// The trimmed output of a reply, or empty when git failed.
pub open spec fn trimmed_or_empty(r: GitReplyView) -> Seq<char> {
    match output_of(r) {
        Ok(out) => trim(out),
        Err(_) => Seq::empty(),
    }
}

/// A count field of `rev-list --count` output; 0 when it is not a `u32`.
pub open spec fn count_or_zero(s: Seq<char>) -> u32 {
    match parse_unsigned(s, u32::MAX as nat) {
        Some(n) => n as u32,
        None => 0,
    }
}

/// Ahead and behind counts that a `rev-list --left-right --count` reply
/// gives: its two whitespace-separated numbers, `(0, 0)` otherwise.
pub open spec fn ahead_behind_of(r: GitReplyView) -> (u32, u32) {
    match output_of(r) {
        Ok(out) => {
            let parts = words(out);
            if parts.len() == 2 {
                (count_or_zero(parts[0]), count_or_zero(parts[1]))
            } else {
                (0, 0)
            }
        },
        Err(_) => (0, 0),
    }
}

/// The relationship that ahead/behind counts give.
pub open spec fn relationship_of_counts(ahead: u32, behind: u32) -> MainRelationship {
    if ahead > 0 && behind > 0 {
        MainRelationship::Diverged { ahead, behind }
    } else if ahead > 0 {
        MainRelationship::Ahead(ahead)
    } else {
        MainRelationship::Behind(behind)
    }
}

/// A merge-tree reply that reports a conflict.
pub open spec fn reports_conflict(r: GitReplyView) -> bool {
    match output_of(r) {
        Ok(out) => contains(out, "CONFLICT"@),
        Err(_) => false,
    }
}

/// The plan of `detect_main_relationship`, over the replies received so far.
pub open spec fn relationship_plan(
    dir: Seq<char>,
    branch_name: Seq<char>,
    branch_head: Seq<char>,
    default_branch: Seq<char>,
    default_head: Seq<char>,
    supports_merge_tree: bool,
    rs: Seq<GitReplyView>,
) -> StepSpec<MainRelationship> {
    if branch_name == default_branch {
        StepSpec::Done(MainRelationship::IsDefault)
    } else if rs.len() == 0 {
        StepSpec::Run(merge_base_call(dir, branch_head, default_head))
    } else if output_of(rs[0]) is Err || trim(output_of(rs[0])->Ok_0).len() == 0 {
        StepSpec::Done(MainRelationship::Orphan)
    } else if branch_head == default_head {
        StepSpec::Done(MainRelationship::SameCommit)
    } else {
        let base = trim(output_of(rs[0])->Ok_0);
        if rs.len() == 1 {
            StepSpec::Run(tree_call(dir, base))
        } else if rs.len() == 2 {
            StepSpec::Run(tree_call(dir, default_head))
        } else if trimmed_or_empty(rs[1]).len() > 0 && trimmed_or_empty(rs[1]) == trimmed_or_empty(
            rs[2],
        ) {
            StepSpec::Done(MainRelationship::Integrated)
        } else if supports_merge_tree && rs.len() == 3 {
            StepSpec::Run(merge_tree_call(dir, base, branch_head, default_head))
        } else if supports_merge_tree && reports_conflict(rs[3]) {
            StepSpec::Done(MainRelationship::WouldConflict)
        } else {
            let k: int = if supports_merge_tree { 4 } else { 3 };
            if rs.len() == k {
                StepSpec::Run(rev_list_call(dir, branch_head, default_head))
            } else {
                StepSpec::Done(
                    relationship_of_counts(ahead_behind_of(rs[k]).0, ahead_behind_of(rs[k]).1),
                )
            }
        }
    }
}

pub open spec fn rel_step_view(r: GitStep<MainRelationship>) -> StepSpec<MainRelationship> {
    match r {
        GitStep::Run(c) => StepSpec::Run(c@),
        GitStep::Done(v) => StepSpec::Done(v),
    }
}

fn trimmed_or_empty_exec(r: &GitReply) -> (t: Vec<char>)
    ensures
        t@ == trimmed_or_empty(r@),
{
    match r {
        GitReply::Success(out) => trim_chars(&chars_of(out.as_str())),
        _ => Vec::new(),
    }
}

fn count_or_zero_exec(s: &Vec<char>) -> (r: u32)
    ensures
        r == count_or_zero(s@),
{
    match parse_u32(s) {
        Some(n) => n,
        None => 0,
    }
}

/// Ahead and behind counts from a `rev-list --left-right --count` reply.
pub fn count_ahead_behind(r: &GitReply) -> (c: (u32, u32))
    ensures
        c == ahead_behind_of(r@),
{
    match r {
        GitReply::Success(out) => {
            let parts = split_whitespace_chars(&chars_of(out.as_str()));
            if parts.len() == 2 {
                (count_or_zero_exec(&parts[0]), count_or_zero_exec(&parts[1]))
            } else {
                (0, 0)
            }
        },
        _ => (0, 0),
    }
}

fn tree_spec_arg(commit: &str) -> (r: String)
    ensures
        r@ == commit@ + "^{tree}"@,
{
    join_str(commit, "^{tree}")
}

/// Detect how `branch_name` (at `branch_head`) relates to `default_branch`
/// (at `default_head`): the default branch itself; an orphan without merge
/// base; the same commit; integrated when the merge base has the default
/// head's tree; a conflict that `merge-tree` reports (when supported);
/// else diverged, ahead or behind by the `rev-list` counts.
pub fn detect_main_relationship(
    dir: &str,
    branch_name: &str,
    branch_head: &str,
    default_branch: &str,
    default_head: &str,
    supports_merge_tree: bool,
    replies: &Vec<GitReply>,
) -> (r: GitStep<MainRelationship>)
    ensures
        rel_step_view(r) == relationship_plan(
            dir@,
            branch_name@,
            branch_head@,
            default_branch@,
            default_head@,
            supports_merge_tree,
            reply_views(replies@),
        ),
{
    let ghost rs = reply_views(replies@);
    if chars_eq(&chars_of(branch_name), &chars_of(default_branch)) {
        return GitStep::Done(MainRelationship::IsDefault);
    }
    if replies.len() == 0 {
        return GitStep::Run(make_call(dir, args3("merge-base", branch_head, default_head), GitMode::Output));
    }
    assert(rs[0] == replies@[0]@);
    let base = match &replies[0] {
        GitReply::Success(out) => trim_chars(&chars_of(out.as_str())),
        _ => {
            return GitStep::Done(MainRelationship::Orphan);
        },
    };
    if base.len() == 0 {
        return GitStep::Done(MainRelationship::Orphan);
    }
    if chars_eq(&chars_of(branch_head), &chars_of(default_head)) {
        return GitStep::Done(MainRelationship::SameCommit);
    }
    let base_s = string_of(&base);
    if replies.len() == 1 {
        let a = tree_spec_arg(base_s.as_str());
        return GitStep::Run(make_call(dir, args2_of(a.as_str()), GitMode::Output));
    }
    if replies.len() == 2 {
        let a = tree_spec_arg(default_head);
        return GitStep::Run(make_call(dir, args2_of(a.as_str()), GitMode::Output));
    }
    assert(rs[1] == replies@[1]@ && rs[2] == replies@[2]@);
    let merged_tree = trimmed_or_empty_exec(&replies[1]);
    let default_tree = trimmed_or_empty_exec(&replies[2]);
    if merged_tree.len() > 0 && chars_eq(&merged_tree, &default_tree) {
        return GitStep::Done(MainRelationship::Integrated);
    }
    let k: usize = if supports_merge_tree {
        if replies.len() == 3 {
            return GitStep::Run(
                make_call(dir, args4("merge-tree", base_s.as_str(), branch_head, default_head), GitMode::AnyStatus),
            );
        }
        assert(rs[3] == replies@[3]@);
        match &replies[3] {
            GitReply::Success(out) => {
                if contains_exec(&chars_of(out.as_str()), &chars_of("CONFLICT")) {
                    return GitStep::Done(MainRelationship::WouldConflict);
                }
            },
            _ => {},
        }
        4
    } else {
        3
    };
    if replies.len() == k {
        let range = join_str(join_str(branch_head, "...").as_str(), default_head);
        return GitStep::Run(make_call(dir, args4("rev-list", "--left-right", "--count", range.as_str()), GitMode::Output));
    }
    assert(rs[k as int] == replies@[k as int]@);
    let (ahead, behind) = count_ahead_behind(&replies[k]);
    if ahead > 0 && behind > 0 {
        GitStep::Done(MainRelationship::Diverged { ahead, behind })
    } else if ahead > 0 {
        GitStep::Done(MainRelationship::Ahead(ahead))
    } else {
        GitStep::Done(MainRelationship::Behind(behind))
    }
}

/// The two arguments of a `rev-parse` of a tree.
fn args2_of(spec_arg: &str) -> (r: Vec<String>)
    ensures
        crate::git::arg_views(r@) == seq!["rev-parse"@, spec_arg@],
{
    crate::git::args2("rev-parse", spec_arg)
}

} // verus!
